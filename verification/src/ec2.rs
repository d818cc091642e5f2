//! Finding the instances to connect to.

use vstd::prelude::*;
use vstd::string::*;
use crate::accounts::role_names;
use crate::text::texts;

verus! {

/// A filter of the describe-instances call.
#[derive(Clone, Debug)]
pub struct InstanceFilter {
    pub name: String,
    pub values: Vec<String>,
}

/// The filter that keeps the instances whose attribute `tag_name` is `running`.
pub fn running_filter(tag_name: &str) -> (out: InstanceFilter)
    ensures
        out.name@ == tag_name@,
        texts(out.values@) == seq!["running"@],
{
    let mut values: Vec<String> = Vec::new();
    values.push(String::from_str("running"));
    assert(texts(values@) =~= seq!["running"@]);
    InstanceFilter { name: String::from_str(tag_name), values }
}

/// The identifiers among the first `n` instances of a reservation, in order.
pub open spec fn present_ids(instances: Seq<Option<Seq<char>>>, n: nat) -> Seq<Seq<char>>
    decreases n,
{
    if n == 0 {
        Seq::empty()
    } else {
        let earlier = present_ids(instances, (n - 1) as nat);
        match instances[n - 1] {
            Some(id) => earlier.push(id),
            None => earlier,
        }
    }
}

/// The identifiers of the instances of the first `n` reservations, in order.
pub open spec fn reserved_ids(reservations: Seq<Vec<Option<String>>>, n: nat) -> Seq<Seq<char>>
    decreases n,
{
    if n == 0 {
        Seq::empty()
    } else {
        reserved_ids(reservations, (n - 1) as nat) + present_ids(
            role_names(reservations[n - 1]@),
            reservations[n - 1]@.len(),
        )
    }
}

/// The identifiers of all instances of a describe-instances response, given
/// as its reservations, each with the identifiers of its instances where
/// they have one: in the order of the response, without the instances that
/// have none.
pub fn list_ec2_instances(reservations: &Vec<Vec<Option<String>>>) -> (out: Vec<String>)
    ensures
        texts(out@) == reserved_ids(reservations@, reservations@.len()),
{
    let mut out: Vec<String> = Vec::new();
    let mut r: usize = 0;
    assert(texts(out@) =~= reserved_ids(reservations@, 0));
    while r < reservations.len()
        invariant
            r <= reservations.len(),
            texts(out@) == reserved_ids(reservations@, r as nat),
        decreases reservations.len() - r,
    {
        let instances = &reservations[r];
        let ghost ids = role_names(instances@);
        let ghost before = texts(out@);
        let mut k: usize = 0;
        assert(texts(out@) =~= before + present_ids(ids, 0));
        while k < instances.len()
            invariant
                k <= instances.len(),
                ids == role_names(instances@),
                texts(out@) == before + present_ids(ids, k as nat),
            decreases instances.len() - k,
        {
            let ghost so_far = out@;
            match &instances[k] {
                Some(id) => {
                    out.push(id.clone());
                    assert(texts(out@) =~= texts(so_far).push(id@));
                    assert(texts(out@) =~= before + present_ids(ids, (k + 1) as nat));
                },
                None => {},
            }
            k = k + 1;
        }
        r = r + 1;
    }
    out
}

} // verus!
