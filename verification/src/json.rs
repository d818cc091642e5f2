//! Compact JSON texts, as the session-manager helper reads them: objects and
//! lists are framed here, strings are quoted by `serde_json`.

use vstd::prelude::*;
use vstd::string::*;
use crate::text::texts;

verus! {

/// A text as a JSON string: in double quotes, with what needs it escaped,
/// as `serde_json` writes a string value.
pub uninterp spec fn json_string(s: Seq<char>) -> Seq<char>;

/// `serde_json::Value::String(..).to_string()`: the compact JSON text of a
/// string value, which is what `json_string` names.
#[verifier::external_body]
pub(crate) fn quote(s: &str) -> (out: String)
    ensures
        out@ == json_string(s@),
{
    serde_json::Value::String(s.to_owned()).to_string()
}

/// The first `n` parts, with a comma between each two.
pub open spec fn joined(parts: Seq<Seq<char>>, n: nat) -> Seq<char>
    decreases n,
{
    if n == 0 {
        Seq::empty()
    } else if n == 1 {
        parts[0]
    } else {
        joined(parts, (n - 1) as nat) + ","@ + parts[n - 1]
    }
}

/// A JSON list of strings.
pub open spec fn array_text(items: Seq<Seq<char>>) -> Seq<char> {
    "["@ + joined(items.map_values(|i: Seq<char>| json_string(i)), items.len()) + "]"@
}

/// A member of a JSON object: its name, quoted, and the JSON text of its value.
pub open spec fn member_text(member: (Seq<char>, Seq<char>)) -> Seq<char> {
    json_string(member.0) + ":"@ + member.1
}

/// A JSON object of members, each given by its name and the JSON text of
/// its value, in the order given.
pub open spec fn object_text(members: Seq<(Seq<char>, Seq<char>)>) -> Seq<char> {
    "{"@ + joined(members.map_values(|m: (Seq<char>, Seq<char>)| member_text(m)), members.len())
        + "}"@
}

/// The views of a list of members.
pub open spec fn member_views(members: Seq<(String, String)>) -> Seq<(Seq<char>, Seq<char>)> {
    members.map_values(|m: (String, String)| (m.0@, m.1@))
}

/// Writes a JSON list of strings.
pub fn string_array(items: &Vec<String>) -> (out: String)
    ensures
        out@ == array_text(texts(items@)),
{
    let ghost parts = texts(items@).map_values(|i: Seq<char>| json_string(i));
    let mut out = String::from_str("[");
    let mut k: usize = 0;
    while k < items.len()
        invariant
            k <= items.len(),
            parts == texts(items@).map_values(|i: Seq<char>| json_string(i)),
            out@ == "["@ + joined(parts, k as nat),
        decreases items.len() - k,
    {
        let quoted = quote(items[k].as_str());
        assert(parts[k as int] == quoted@);
        if k > 0 {
            out.append(",");
        }
        out.append(quoted.as_str());
        assert(out@ =~= "["@ + joined(parts, (k + 1) as nat));
        k = k + 1;
    }
    out.append("]");
    out
}

/// Writes a JSON object; each member's value is given as its JSON text.
pub fn object(members: &Vec<(String, String)>) -> (out: String)
    ensures
        out@ == object_text(member_views(members@)),
{
    let ghost parts = member_views(members@).map_values(
        |m: (Seq<char>, Seq<char>)| member_text(m),
    );
    let mut out = String::from_str("{");
    let mut k: usize = 0;
    while k < members.len()
        invariant
            k <= members.len(),
            parts == member_views(members@).map_values(
                |m: (Seq<char>, Seq<char>)| member_text(m),
            ),
            out@ == "{"@ + joined(parts, k as nat),
        decreases members.len() - k,
    {
        let name = quote(members[k].0.as_str());
        assert(parts[k as int] == name@ + ":"@ + members@[k as int].1@);
        if k > 0 {
            out.append(",");
        }
        out.append(name.as_str());
        out.append(":");
        out.append(members[k].1.as_str());
        assert(out@ =~= "{"@ + joined(parts, (k + 1) as nat));
        k = k + 1;
    }
    out.append("}");
    out
}

} // verus!
