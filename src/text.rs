use vstd::prelude::*;
use vstd::std_specs::iter::IteratorSpec;

verus! {

broadcast use {vstd::string::axiom_spec_iter, vstd::string::next_postcondition};

/// Whether `s` holds at least `k` characters; reads at most `k` of them.
pub fn has_min_chars(s: &str, k: usize) -> (r: bool)
    ensures
        r == (s@.len() >= k),
{
    let mut it = s.chars();
    let mut n: usize = 0;
    while n < k
        invariant
            n <= k,
            n <= s@.len(),
            it.remaining() == s@.subrange(n as int, s@.len() as int),
        decreases k - n,
    {
        match it.next() {
            Some(_) => {
                n = n + 1;
            },
            None => {
                return false;
            },
        }
    }
    true
}

/// `p` occurs in `s` starting at index `i`.
pub open spec fn occurs_at(s: Seq<char>, p: Seq<char>, i: int) -> bool {
    0 <= i && i + p.len() <= s.len() && s.subrange(i, i + p.len()) == p
}

/// `p` occurs somewhere in `s`.
pub open spec fn contains_seq(s: Seq<char>, p: Seq<char>) -> bool {
    exists|i: int| occurs_at(s, p, i)
}

/// `s` begins with `p`.
pub open spec fn starts_with_seq(s: Seq<char>, p: Seq<char>) -> bool {
    occurs_at(s, p, 0)
}

/// Relies on `str::strip_prefix`: `Some` of the rest of `s` exactly when `s`
/// begins with `p`.
#[verifier::external_body]
pub(crate) fn strip_prefix_of<'a>(s: &'a str, p: &str) -> (r: Option<&'a str>)
    ensures
        r is Some <==> starts_with_seq(s@, p@),
        r is Some ==> r->0@ == s@.subrange(p@.len() as int, s@.len() as int),
{
    s.strip_prefix(p)
}

/// `s` ends with `p`.
pub open spec fn ends_with_seq(s: Seq<char>, p: Seq<char>) -> bool {
    occurs_at(s, p, s.len() - p.len())
}

/// Relies on `str::ends_with` with a string pattern: whether `s` ends with `p`.
#[verifier::external_body]
pub(crate) fn ends_with_str(s: &str, p: &str) -> (r: bool)
    ensures
        r == ends_with_seq(s@, p@),
{
    s.ends_with(p)
}

/// Relies on `str::contains` with a string pattern: whether `p` occurs in `s`.
#[verifier::external_body]
pub(crate) fn contains_str(s: &str, p: &str) -> (r: bool)
    ensures
        r == contains_seq(s@, p@),
{
    s.contains(p)
}

} // verus!
