//! Small text operations used when reading keywords: character access,
//! removing every occurrence of a pattern, and lower-casing.

use vstd::prelude::*;

verus! {

/// The characters of a string, in order.
pub fn chars_of(s: &str) -> (v: Vec<char>)
    ensures
        v@ == s@,
{
    let n = s.unicode_len();
    let mut v: Vec<char> = Vec::new();
    let mut i: usize = 0;
    while i < n
        invariant
            i <= n,
            n == s@.len(),
            v@ =~= s@.take(i as int),
        decreases n - i,
    {
        v.push(s.get_char(i));
        i += 1;
    }
    v
}

/// The text left after removing every non-overlapping occurrence of `p`,
/// scanning from the left, as `str::replace(p, "")` does for a non-empty `p`.
pub open spec fn removed_all(s: Seq<char>, p: Seq<char>) -> Seq<char>
    decreases s.len(),
{
    if p.len() == 0 || s.len() == 0 {
        s
    } else if s.len() >= p.len() && s.take(p.len() as int) == p {
        removed_all(s.skip(p.len() as int), p)
    } else {
        seq![s[0]] + removed_all(s.skip(1), p)
    }
}

/// Whether `p` occurs in `s` at position `at`.
fn occurs_at(s: &Vec<char>, p: &Vec<char>, at: usize) -> (r: bool)
    requires
        at <= s@.len(),
    ensures
        r == (s@.len() - at >= p@.len() && s@.skip(at as int).take(p@.len() as int) == p@),
{
    if s.len() - at < p.len() {
        return false;
    }
    let mut k: usize = 0;
    while k < p.len()
        invariant
            k <= p@.len(),
            at + p@.len() <= s@.len(),
            s@.len() == s.len(),
            p@.len() == p.len(),
            forall|j: int| 0 <= j < k ==> s@[at + j] == p@[j],
        decreases p.len() - k,
    {
        if s[at + k] != p[k] {
            assert(s@.skip(at as int).take(p@.len() as int)[k as int] != p@[k as int]);
            return false;
        }
        k += 1;
    }
    assert(s@.skip(at as int).take(p@.len() as int) =~= p@);
    true
}

/// Remove every non-overlapping occurrence of `p` from `s`, scanning from the left.
pub fn remove_all(s: &Vec<char>, p: &str) -> (r: Vec<char>)
    ensures
        r@ == removed_all(s@, p@),
{
    let pat = chars_of(p);
    if pat.len() == 0 {
        let mut out: Vec<char> = Vec::new();
        let mut j: usize = 0;
        while j < s.len()
            invariant
                j <= s@.len(),
                out@ =~= s@.take(j as int),
            decreases s.len() - j,
        {
            out.push(s[j]);
            j += 1;
        }
        assert(s@.take(s@.len() as int) =~= s@);
        return out;
    }
    let mut out: Vec<char> = Vec::new();
    let mut i: usize = 0;
    assert(s@.skip(0) =~= s@);
    assert(out@ + removed_all(s@, p@) =~= removed_all(s@, p@));
    while i < s.len()
        invariant
            i <= s@.len(),
            pat@ == p@,
            pat@.len() > 0,
            out@ + removed_all(s@.skip(i as int), p@) == removed_all(s@, p@),
        decreases s.len() - i,
    {
        let ghost rest = s@.skip(i as int);
        if occurs_at(s, &pat, i) {
            assert(rest.skip(p@.len() as int) =~= s@.skip(i + p@.len()));
            i += pat.len();
        } else {
            assert(rest.skip(1) =~= s@.skip(i + 1));
            assert(rest[0] == s@[i as int]);
            let ghost before = out@;
            out.push(s[i]);
            assert(out@ + removed_all(s@.skip(i + 1), p@) =~= before + (seq![rest[0]]
                + removed_all(rest.skip(1), p@)));
            i += 1;
        }
    }
    assert(s@.skip(i as int).len() == 0);
    assert(out@ + removed_all(s@.skip(i as int), p@) =~= out@);
    out
}

/// Calls `String::from_iter` on the characters; claimed: the string holds
/// exactly them, in order.
#[verifier::external_body]
pub(crate) fn string_from_chars(v: &Vec<char>) -> (r: String)
    ensures
        r@ == v@,
{
    String::from_iter(v.iter())
}

/// What `str::to_lowercase` returns for a text.
pub uninterp spec fn lowercase_of(s: Seq<char>) -> Seq<char>;

/// Calls `str::to_lowercase`; its result is named, as a function of the text alone.
#[verifier::external_body]
pub(crate) fn to_lowercase(s: &str) -> (r: String)
    ensures
        r@ == lowercase_of(s@),
{
    s.to_lowercase()
}

/// Whether two texts are equal.
pub fn same_text(a: &str, b: &str) -> (r: bool)
    ensures
        r == (a@ == b@),
{
    String::from_str(a) == String::from_str(b)
}

} // verus!
