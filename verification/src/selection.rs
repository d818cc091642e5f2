//! The lines offered for selection, `account_id - account_name - role_name`,
//! and how a selected line is read back.

use vstd::prelude::*;
use vstd::string::*;
use crate::errors::{FlowError, FlowErrorView};
use crate::text::{
    chars_of,
    contains,
    find_from,
    first_from,
    lemma_first_from,
    occurs_at,
    occurs_from,
    texts,
};

verus! {

/// What stands between the fields of a line.
pub open spec fn separator() -> Seq<char> {
    " - "@
}

/// The fields of `s` from position `from` on: `s` is cut at each place where
/// `sep` stands, taken from the left, the next one looked for behind the last.
#[verifier::opaque]
pub open spec fn fields_from(s: Seq<char>, sep: Seq<char>, from: int) -> Seq<Seq<char>>
    decreases s.len() - from,
{
    let i = first_from(s, sep, from);
    if sep.len() > 0 && 0 <= from && occurs_from(s, sep, from) && from <= i && i + sep.len()
        <= s.len() {
        seq![s.subrange(from, i)] + fields_from(s, sep, i + sep.len())
    } else {
        seq![s.subrange(from, s.len() as int)]
    }
}

/// The fields of a line.
pub open spec fn fields(s: Seq<char>) -> Seq<Seq<char>> {
    fields_from(s, separator(), 0)
}

/// Where the separator stands at or after `from`, the first field ends at
/// its leftmost place and the others follow behind it.
pub proof fn lemma_fields_cut(s: Seq<char>, sep: Seq<char>, from: int)
    requires
        sep.len() > 0,
        0 <= from,
        occurs_from(s, sep, from),
    ensures
        from <= first_from(s, sep, from),
        first_from(s, sep, from) + sep.len() <= s.len(),
        fields_from(s, sep, from) == seq![s.subrange(from, first_from(s, sep, from))]
            + fields_from(s, sep, first_from(s, sep, from) + sep.len()),
        fields_from(s, sep, from).len() == 1 + fields_from(
            s,
            sep,
            first_from(s, sep, from) + sep.len(),
        ).len(),
        fields_from(s, sep, from)[0] == s.subrange(from, first_from(s, sep, from)),
        fields_from(s, sep, from)[1] == fields_from(s, sep, first_from(s, sep, from) + sep.len())[0],
        fields_from(s, sep, first_from(s, sep, from) + sep.len()).len() >= 2 ==> fields_from(
            s,
            sep,
            from,
        )[2] == fields_from(s, sep, first_from(s, sep, from) + sep.len())[1],
{
    reveal(fields_from);
    lemma_first_from(s, sep, from);
}

/// Where the separator does not stand at or after `from`, one field is left.
pub proof fn lemma_fields_last(s: Seq<char>, sep: Seq<char>, from: int)
    requires
        !occurs_from(s, sep, from),
    ensures
        fields_from(s, sep, from) == seq![s.subrange(from, s.len() as int)],
        fields_from(s, sep, from).len() == 1,
        fields_from(s, sep, from)[0] == s.subrange(from, s.len() as int),
{
    reveal(fields_from);
}

/// A line has at least one field.
pub proof fn lemma_fields_nonempty(s: Seq<char>, sep: Seq<char>, from: int)
    ensures
        fields_from(s, sep, from).len() >= 1,
{
    reveal(fields_from);
}

/// An account and a role in it, as selected.
#[derive(Clone, Debug)]
pub struct Selection {
    pub account_id: String,
    pub role_name: String,
}

/// Where the first of three fields ends and the third begins.
struct Cuts {
    first_end: usize,
    third_start: usize,
}

/// Looks for exactly three fields in `s`: where there are three, gives the
/// end of the first and the start of the third.
#[verifier::spinoff_prover]
fn three_fields(s: &Vec<char>, sep: &Vec<char>) -> (out: Option<Cuts>)
    requires
        sep@.len() > 0,
    ensures
        out is Some <==> fields_from(s@, sep@, 0).len() == 3,
        out is Some ==> out->0.first_end <= out->0.third_start <= s@.len() && fields_from(
            s@,
            sep@,
            0,
        )[0] == s@.subrange(0, out->0.first_end as int) && fields_from(s@, sep@, 0)[2]
            == s@.subrange(out->0.third_start as int, s@.len() as int),
{
    let n: usize = s.len();
    let m: usize = sep.len();
    let first = match find_from(s, sep, 0) {
        Some(i) => i,
        None => {
            proof {
                lemma_fields_last(s@, sep@, 0);
            }
            return None;
        },
    };
    proof {
        lemma_fields_cut(s@, sep@, 0);
    }
    let second = match find_from(s, sep, first + m) {
        Some(i) => i,
        None => {
            proof {
                lemma_fields_last(s@, sep@, first + m);
            }
            return None;
        },
    };
    proof {
        lemma_fields_cut(s@, sep@, first + m);
    }
    match find_from(s, sep, second + m) {
        Some(third) => {
            proof {
                lemma_fields_cut(s@, sep@, second + m);
                lemma_fields_nonempty(s@, sep@, third + m);
            }
            None
        },
        None => {
            proof {
                lemma_fields_last(s@, sep@, second + m);
            }
            Some(Cuts { first_end: first, third_start: second + m })
        },
    }
}

/// Reads a selected line: it must have exactly three fields, of which the
/// first is the account and the third the role.
pub fn parse_selection(line: &str) -> (out: Result<Selection, FlowError>)
    ensures
        out is Ok <==> fields(line@).len() == 3,
        out is Ok ==> out->Ok_0.account_id@ == fields(line@)[0] && out->Ok_0.role_name@ == fields(
            line@,
        )[2],
        out is Err ==> out->Err_0@ == FlowErrorView::MalformedSelection(line@),
{
    let s = chars_of(line);
    let sep = chars_of(" - ");
    proof {
        reveal_strlit(" - ");
    }
    match three_fields(&s, &sep) {
        Some(cuts) => {
            let account_id = String::from_str(line.substring_char(0, cuts.first_end));
            let role_name = String::from_str(line.substring_char(cuts.third_start, s.len()));
            Ok(Selection { account_id, role_name })
        },
        None => Err(FlowError::MalformedSelection(String::from_str(line))),
    }
}

/// The first line from position `from` on that has exactly three fields, or
/// the number of lines where there is none.
pub open spec fn next_valid(lines: Seq<Seq<char>>, from: int) -> int
    decreases lines.len() - from,
{
    if from >= lines.len() {
        lines.len() as int
    } else if fields(lines[from]).len() == 3 {
        from
    } else {
        next_valid(lines, from + 1)
    }
}

/// What the search for the next well-formed line found.
#[derive(Debug)]
pub struct NextSelection {
    /// The line's position, or the number of lines where none was left.
    pub index: usize,
    /// What the line selects.
    pub current: Option<Selection>,
    /// One error for each malformed line that was passed over, in order.
    pub skipped: Vec<FlowError>,
}

/// Looks for the next well-formed line from `from` on, passing over the
/// malformed ones.
pub fn next_selection(selected: &Vec<String>, from: usize) -> (out: NextSelection)
    ensures
        out.index == next_valid(texts(selected@), from as int),
        out.index <= selected@.len(),
        out.current is Some <==> out.index < selected@.len(),
        out.current is Some ==> out.current->0.account_id@ == fields(selected@[out.index as int]@)[0]
            && out.current->0.role_name@ == fields(selected@[out.index as int]@)[2],
        from <= selected@.len() ==> out.skipped@.len() == out.index - from,
        from > selected@.len() ==> out.skipped@.len() == 0,
        forall|j: int|
            0 <= j < out.skipped@.len() ==> (#[trigger] out.skipped@[j])@
                == FlowErrorView::MalformedSelection(selected@[from + j]@),
{
    let ghost lines = texts(selected@);
    let mut skipped: Vec<FlowError> = Vec::new();
    let mut k: usize = from;
    while k < selected.len()
        invariant
            from <= k,
            lines == texts(selected@),
            next_valid(lines, from as int) == next_valid(lines, k as int),
            from <= selected@.len() ==> k <= selected@.len() && skipped@.len() == k - from,
            from > selected@.len() ==> skipped@.len() == 0,
            forall|j: int|
                0 <= j < skipped@.len() ==> (#[trigger] skipped@[j])@
                    == FlowErrorView::MalformedSelection(selected@[from + j]@),
        decreases selected.len() - k,
    {
        assert(lines[k as int] == selected@[k as int]@);
        match parse_selection(selected[k].as_str()) {
            Ok(selection) => {
                return NextSelection { index: k, current: Some(selection), skipped };
            },
            Err(e) => {
                skipped.push(e);
            },
        }
        k = k + 1;
    }
    NextSelection { index: selected.len(), current: None, skipped }
}

/// The line that stands for one role of one account.
pub open spec fn account_role_line(
    account_id: Seq<char>,
    account_name: Seq<char>,
    role_name: Seq<char>,
) -> Seq<char> {
    account_id + separator() + account_name + separator() + role_name
}

pub fn format_account_role(account_id: &str, account_name: &str, role_name: &str) -> (out: String)
    ensures
        out@ == account_role_line(account_id@, account_name@, role_name@),
{
    String::from_str(account_id).concat(" - ").concat(account_name).concat(" - ").concat(role_name)
}

/// `s` ends with a space and a hyphen, which the separator's last space
/// would complete to a separator.
pub open spec fn ends_open(s: Seq<char>) -> bool {
    s.len() >= 2 && s[s.len() - 2] == ' ' && s[s.len() - 1] == '-'
}

/// Behind `from`, `s` holds the field `a` and then a separator; `a` holds no
/// separator and does not end with the beginning of one. Then the first
/// separator from `from` on is the one behind `a`.
proof fn lemma_cut_behind_field(s: Seq<char>, from: int, a: Seq<char>)
    requires
        0 <= from,
        from + a.len() + 3 <= s.len(),
        s.subrange(from, from + a.len()) == a,
        s.subrange(from + a.len(), from + a.len() + 3) == separator(),
        !contains(a, separator()),
        !ends_open(a),
    ensures
        occurs_from(s, separator(), from),
        first_from(s, separator(), from) == from + a.len(),
{
    reveal_strlit(" - ");
    reveal(occurs_at);
    let sep = separator();
    let cut = from + a.len();
    let behind = s.subrange(cut, cut + 3);
    let field = s.subrange(from, cut);
    assert(sep.len() == 3 && sep[0] == ' ' && sep[1] == '-' && sep[2] == ' ');
    assert(behind[0] == s[cut] && behind[1] == s[cut + 1] && behind[2] == s[cut + 2]);
    assert(occurs_at(s, sep, cut));
    assert forall|j: int| from <= j < cut implies !occurs_at(s, sep, j) by {
        reveal(occurs_at);
        if occurs_at(s, sep, j) {
            let t = j - from;
            let hit = s.subrange(j, j + 3);
            assert(hit[0] == s[j] && hit[1] == s[j + 1] && hit[2] == s[j + 2]);
            if t + 3 <= a.len() {
                assert(field[t] == s[j] && field[t + 1] == s[j + 1] && field[t + 2] == s[j + 2]);
                assert(a.subrange(t, t + 3) =~= sep);
                assert(occurs_at(a, sep, t));
            } else if t + 2 == a.len() {
                assert(field[t] == s[j] && field[t + 1] == s[j + 1]);
                assert(a[t] == ' ' && a[t + 1] == '-');
            } else {
                assert(s[j + 1] == behind[0]);
            }
        }
    }
    lemma_first_from(s, sep, from);
}

/// Behind `from`, `s` holds a last field without a separator: no separator
/// stands there.
proof fn lemma_no_cut_in_last_field(s: Seq<char>, from: int, a: Seq<char>)
    requires
        0 <= from <= s.len(),
        s.subrange(from, s.len() as int) == a,
        !contains(a, separator()),
    ensures
        !occurs_from(s, separator(), from),
{
    let sep = separator();
    assert forall|j: int| from <= j implies !occurs_at(s, sep, j) by {
        reveal(occurs_at);
        if occurs_at(s, sep, j) {
            assert(a.subrange(j - from, j - from + sep.len()) =~= s.subrange(j, j + sep.len()));
            assert(occurs_at(a, sep, j - from));
        }
    }
}

/// `s` is made of the fields `a`, `b` and `c` with a separator between each two.
pub open spec fn made_of(s: Seq<char>, a: Seq<char>, b: Seq<char>, c: Seq<char>) -> bool {
    let second: int = a.len() as int + 3;
    let third: int = second + b.len() + 3;
    &&& s.len() == third + c.len()
    &&& s.subrange(0, a.len() as int) == a
    &&& s.subrange(a.len() as int, second) == separator()
    &&& s.subrange(second, second + b.len()) == b
    &&& s.subrange(second + b.len(), third) == separator()
    &&& s.subrange(third, s.len() as int) == c
}

proof fn lemma_line_shape(account_id: Seq<char>, account_name: Seq<char>, role_name: Seq<char>)
    ensures
        made_of(
            account_role_line(account_id, account_name, role_name),
            account_id,
            account_name,
            role_name,
        ),
{
    reveal_strlit(" - ");
    let sep = separator();
    let s = account_role_line(account_id, account_name, role_name);
    let second: int = account_id.len() as int + 3;
    let third: int = second + account_name.len() + 3;
    assert(sep.len() == 3);
    assert(s.subrange(0, account_id.len() as int) =~= account_id);
    assert(s.subrange(account_id.len() as int, second) =~= sep);
    assert(s.subrange(second, second + account_name.len()) =~= account_name);
    assert(s.subrange(second + account_name.len(), third) =~= sep);
    assert(s.subrange(third, s.len() as int) =~= role_name);
}

proof fn lemma_three_fields(s: Seq<char>, a: Seq<char>, b: Seq<char>, c: Seq<char>)
    requires
        made_of(s, a, b, c),
        !contains(a, separator()),
        !contains(b, separator()),
        !contains(c, separator()),
        !ends_open(a),
        !ends_open(b),
    ensures
        fields(s) == seq![a, b, c],
{
    let sep = separator();
    let second: int = a.len() as int + 3;
    let third: int = second + b.len() + 3;
    assert(sep.len() == 3) by {
        reveal_strlit(" - ");
    }
    lemma_cut_behind_field(s, 0, a);
    lemma_fields_cut(s, sep, 0);
    lemma_cut_behind_field(s, second, b);
    lemma_fields_cut(s, sep, second);
    lemma_no_cut_in_last_field(s, third, c);
    lemma_fields_last(s, sep, third);
    let f = fields(s);
    assert(f.len() == 3);
    assert(f[0] == a);
    assert(f[1] == b);
    assert(f[2] == c);
    assert(f =~= seq![a, b, c]);
}

/// A line made of an account, its name and a role reads back as these
/// three fields, provided that none of them holds a separator and that
/// neither the account nor the name ends with a space and a hyphen.
pub proof fn law_line_reads_back(account_id: Seq<char>, account_name: Seq<char>, role_name: Seq<char>)
    requires
        !contains(account_id, separator()),
        !contains(account_name, separator()),
        !contains(role_name, separator()),
        !ends_open(account_id),
        !ends_open(account_name),
    ensures
        fields(account_role_line(account_id, account_name, role_name)) == seq![
            account_id,
            account_name,
            role_name,
        ],
{
    lemma_line_shape(account_id, account_name, role_name);
    lemma_three_fields(
        account_role_line(account_id, account_name, role_name),
        account_id,
        account_name,
        role_name,
    );
}

} // verus!
