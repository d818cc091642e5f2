//! Texts as character sequences: substring search, trimming and numerals.

use vstd::prelude::*;
use vstd::string::*;

verus! {

/// `pat` stands in `s` at position `i`.
#[verifier::opaque]
pub open spec fn occurs_at(s: Seq<char>, pat: Seq<char>, i: int) -> bool {
    &&& 0 <= i
    &&& i + pat.len() <= s.len()
    &&& s.subrange(i, i + pat.len()) == pat
}

/// `pat` stands somewhere in `s`.
pub open spec fn contains(s: Seq<char>, pat: Seq<char>) -> bool {
    exists|i: int| occurs_at(s, pat, i)
}

/// `pat` stands in `s` at some position from `from` on.
pub open spec fn occurs_from(s: Seq<char>, pat: Seq<char>, from: int) -> bool {
    exists|i: int| from <= i && occurs_at(s, pat, i)
}

/// The leftmost position from `from` on at which `pat` stands in `s`.
pub open spec fn first_from(s: Seq<char>, pat: Seq<char>, from: int) -> int {
    choose|i: int|
        from <= i && occurs_at(s, pat, i) && forall|j: int|
            from <= j < i ==> !occurs_at(s, pat, j)
}

/// Where `pat` stands at or after `from`, `first_from` is the leftmost such place.
pub proof fn lemma_first_from(s: Seq<char>, pat: Seq<char>, from: int)
    requires
        occurs_from(s, pat, from),
        0 <= from,
    ensures
        from <= first_from(s, pat, from),
        first_from(s, pat, from) + pat.len() <= s.len(),
        occurs_at(s, pat, first_from(s, pat, from)),
        forall|j: int| from <= j < first_from(s, pat, from) ==> !occurs_at(s, pat, j),
{
    reveal(occurs_at);
    let w = choose|i: int| from <= i && occurs_at(s, pat, i);
    lemma_least(s, pat, from, w);
}

proof fn lemma_least(s: Seq<char>, pat: Seq<char>, from: int, w: int)
    requires
        0 <= from <= w,
        occurs_at(s, pat, w),
    ensures
        exists|i: int|
            from <= i && occurs_at(s, pat, i) && forall|j: int|
                from <= j < i ==> !occurs_at(s, pat, j),
    decreases w - from,
{
    if exists|k: int| from <= k < w && occurs_at(s, pat, k) {
        let k = choose|k: int| from <= k < w && occurs_at(s, pat, k);
        lemma_least(s, pat, from, k);
    } else {
        assert(from <= w && occurs_at(s, pat, w) && forall|j: int|
            from <= j < w ==> !occurs_at(s, pat, j));
    }
}

/// The characters of a string, one by one.
pub fn chars_of(s: &str) -> (out: Vec<char>)
    ensures
        out@ == s@,
{
    let n: usize = s.unicode_len();
    let mut out: Vec<char> = Vec::new();
    let mut i: usize = 0;
    while i < n
        invariant
            n == s@.len(),
            i <= n,
            out@ == s@.subrange(0, i as int),
        decreases n - i,
    {
        out.push(s.get_char(i));
        i = i + 1;
        assert(out@ =~= s@.subrange(0, i as int));
    }
    assert(s@.subrange(0, n as int) =~= s@);
    out
}

/// Tells whether `pat` stands in `s` at position `i`.
pub fn matches_at(s: &Vec<char>, pat: &Vec<char>, i: usize) -> (hit: bool)
    ensures
        hit == occurs_at(s@, pat@, i as int),
{
    proof {
        reveal(occurs_at);
    }
    if pat.len() > s.len() || i > s.len() - pat.len() {
        return false;
    }
    let mut k: usize = 0;
    while k < pat.len()
        invariant
            k <= pat.len(),
            i + pat.len() <= s.len(),
            forall|j: int| 0 <= j < k ==> s@[i + j] == pat@[j],
        decreases pat.len() - k,
    {
        if s[i + k] != pat[k] {
            proof {
                reveal(occurs_at);
            }
            assert(s@.subrange(i as int, i + pat@.len())[k as int] == s@[i + k]);
            return false;
        }
        k = k + 1;
    }
    assert(s@.subrange(i as int, i + pat@.len()) =~= pat@);
    true
}

/// The leftmost position from `from` on at which `pat` stands in `s`, if any.
pub fn find_from(s: &Vec<char>, pat: &Vec<char>, from: usize) -> (found: Option<usize>)
    ensures
        found is Some <==> occurs_from(s@, pat@, from as int),
        found is Some ==> found->0 as int == first_from(s@, pat@, from as int),
{
    let mut i: usize = from;
    while i <= s.len()
        invariant
            from <= i,
            forall|j: int| from <= j < i ==> !occurs_at(s@, pat@, j),
        decreases s.len() + 1 - i,
    {
        if matches_at(s, pat, i) {
            proof {
                lemma_first_from(s@, pat@, from as int);
                let f = first_from(s@, pat@, from as int);
                assert(f == i);
            }
            return Some(i);
        }
        if i == s.len() {
            assert forall|j: int| from <= j implies !occurs_at(s@, pat@, j) by {
                reveal(occurs_at);
                if j > i {
                    assert(j + pat@.len() > s@.len());
                }
            }
            return None;
        }
        i = i + 1;
    }
    assert forall|j: int| from <= j implies !occurs_at(s@, pat@, j) by {
        reveal(occurs_at);
        if j >= i {
            assert(j + pat@.len() > s@.len());
        }
    }
    None
}

/// Tells whether `pat` stands somewhere in `s`.
pub fn contains_text(s: &str, pat: &str) -> (hit: bool)
    ensures
        hit == contains(s@, pat@),
{
    let sv = chars_of(s);
    let pv = chars_of(pat);
    let found = find_from(&sv, &pv, 0);
    proof {
        if contains(s@, pat@) {
            reveal(occurs_at);
            let i = choose|i: int| occurs_at(s@, pat@, i);
            assert(0 <= i && occurs_at(s@, pat@, i));
        }
    }
    found.is_some()
}

/// A text without the white space at its two ends, as `str::trim` of the
/// standard library leaves it.
pub uninterp spec fn trimmed(s: Seq<char>) -> Seq<char>;

/// `str::trim` of the standard library: the result is the argument without
/// its leading and trailing white space, which is what `trimmed` names.
#[verifier::external_body]
pub(crate) fn trim_ends(s: &str) -> (out: &str)
    ensures
        out@ == trimmed(s@),
{
    s.trim()
}

/// The numeral of a digit.
pub open spec fn digit_text(d: nat) -> Seq<char> {
    if d == 0 {
        "0"@
    } else if d == 1 {
        "1"@
    } else if d == 2 {
        "2"@
    } else if d == 3 {
        "3"@
    } else if d == 4 {
        "4"@
    } else if d == 5 {
        "5"@
    } else if d == 6 {
        "6"@
    } else if d == 7 {
        "7"@
    } else if d == 8 {
        "8"@
    } else {
        "9"@
    }
}

/// A number in decimal notation, without leading zeros.
pub open spec fn decimal(n: nat) -> Seq<char>
    decreases n,
{
    if n < 10 {
        digit_text(n)
    } else {
        decimal(n / 10) + digit_text(n % 10)
    }
}

fn digit(d: u16) -> (out: &'static str)
    requires
        d < 10,
    ensures
        out@ == digit_text(d as nat),
{
    if d == 0 {
        "0"
    } else if d == 1 {
        "1"
    } else if d == 2 {
        "2"
    } else if d == 3 {
        "3"
    } else if d == 4 {
        "4"
    } else if d == 5 {
        "5"
    } else if d == 6 {
        "6"
    } else if d == 7 {
        "7"
    } else if d == 8 {
        "8"
    } else {
        "9"
    }
}

/// Writes a port number in decimal notation.
pub fn decimal_text(n: u16) -> (out: String)
    ensures
        out@ == decimal(n as nat),
    decreases n,
{
    if n < 10 {
        String::from_str(digit(n))
    } else {
        decimal_text(n / 10).concat(digit(n % 10))
    }
}

/// The views of a list of texts.
pub open spec fn texts(v: Seq<String>) -> Seq<Seq<char>> {
    v.map_values(|s: String| s@)
}

} // verus!
