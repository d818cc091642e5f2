//! The accounts and roles that a signed-in user may choose from.

use vstd::prelude::*;
use vstd::string::*;
use crate::device::opt_view;
use crate::selection::{account_role_line, format_account_role};
use crate::text::texts;

verus! {

/// One account of the provider's list; either field may be missing.
#[derive(Clone, Debug)]
pub struct AccountEntry {
    pub account_id: Option<String>,
    pub account_name: Option<String>,
}

/// The name under which an account is shown.
pub open spec fn display_name(account_name: Option<Seq<char>>) -> Seq<char> {
    match account_name {
        Some(n) => n,
        None => "Unknown"@,
    }
}

/// The views of a list of role names, each of which may be missing.
pub open spec fn role_names(roles: Seq<Option<String>>) -> Seq<Option<Seq<char>>> {
    roles.map_values(|r: Option<String>| opt_view(r))
}

/// The lines for the first `n` roles of an account: one for each role that has
/// a name, in the order of the list.
pub open spec fn role_lines(
    account_id: Seq<char>,
    account_name: Seq<char>,
    roles: Seq<Option<Seq<char>>>,
    n: nat,
) -> Seq<Seq<char>>
    decreases n,
{
    if n == 0 {
        Seq::empty()
    } else {
        let earlier = role_lines(account_id, account_name, roles, (n - 1) as nat);
        match roles[n - 1] {
            Some(role) => earlier.push(account_role_line(account_id, account_name, role)),
            None => earlier,
        }
    }
}

/// The first account from position `from` on that has an identifier, or the
/// number of accounts where there is none.
pub open spec fn next_with_id(accounts: Seq<AccountEntry>, from: int) -> int
    decreases accounts.len() - from,
{
    if from >= accounts.len() {
        accounts.len() as int
    } else if accounts[from].account_id is Some {
        from
    } else {
        next_with_id(accounts, from + 1)
    }
}

/// Looks for the next account from `from` on whose roles can be asked for.
pub fn next_account(accounts: &Vec<AccountEntry>, from: usize) -> (out: usize)
    ensures
        out == next_with_id(accounts@, from as int),
        out <= accounts@.len(),
        out < accounts@.len() ==> from <= out && accounts@[out as int].account_id is Some,
{
    let mut k: usize = from;
    while k < accounts.len()
        invariant
            from <= k,
            next_with_id(accounts@, from as int) == next_with_id(accounts@, k as int),
        decreases accounts.len() - k,
    {
        if accounts[k].account_id.is_some() {
            return k;
        }
        k = k + 1;
    }
    accounts.len()
}

/// The name under which an account is shown.
pub fn shown_name(account: &AccountEntry) -> (out: String)
    ensures
        out@ == display_name(opt_view(account.account_name)),
{
    match &account.account_name {
        Some(n) => n.clone(),
        None => String::from_str("Unknown"),
    }
}

/// Adds to `lines` the lines for the roles of one account.
pub fn append_role_lines(
    lines: &mut Vec<String>,
    account_id: &str,
    account_name: &str,
    roles: &Vec<Option<String>>,
)
    ensures
        texts(final(lines)@) == texts(old(lines)@) + role_lines(
            account_id@,
            account_name@,
            role_names(roles@),
            roles@.len(),
        ),
{
    let ghost names = role_names(roles@);
    let mut k: usize = 0;
    assert(texts(lines@) =~= texts(old(lines)@) + role_lines(account_id@, account_name@, names, 0));
    while k < roles.len()
        invariant
            k <= roles.len(),
            names == role_names(roles@),
            texts(lines@) == texts(old(lines)@) + role_lines(
                account_id@,
                account_name@,
                names,
                k as nat,
            ),
        decreases roles.len() - k,
    {
        assert(names[k as int] == opt_view(roles@[k as int]));
        let ghost before = lines@;
        match &roles[k] {
            Some(role) => {
                let line = format_account_role(account_id, account_name, role.as_str());
                lines.push(line);
                assert(texts(lines@) =~= texts(before).push(line@));
                assert(texts(lines@) =~= texts(old(lines)@) + role_lines(
                    account_id@,
                    account_name@,
                    names,
                    (k + 1) as nat,
                ));
            },
            None => {},
        }
        k = k + 1;
    }
}

} // verus!
