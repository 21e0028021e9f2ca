//! Character-level helpers over `str` and `String`.
use vstd::prelude::*;

verus! {

/// Relies on `String::push`: the character is appended at the end.
#[verifier::external_body]
pub(crate) fn push_char(s: &mut String, c: char)
    ensures
        final(s)@ == old(s)@.push(c),
{
    s.push(c);
}

/// The characters of `s`, in order.
pub fn chars_of(s: &str) -> (r: Vec<char>)
    ensures
        r@ == s@,
{
    let mut r: Vec<char> = Vec::new();
    for c in it: s.chars()
        invariant
            it.seq() == s@,
            r@ == it.seq().take(it.index() as int),
    {
        r.push(c);
    }
    r
}

/// The characters `c[from..to]` as a string.
pub(crate) fn string_of(c: &Vec<char>, from: usize, to: usize) -> (r: String)
    requires
        from <= to <= c@.len(),
    ensures
        r@ == c@.subrange(from as int, to as int),
{
    let mut r = String::new();
    let mut k: usize = from;
    while k < to
        invariant
            from <= k <= to <= c@.len(),
            r@ == c@.subrange(from as int, k as int),
        decreases to - k,
    {
        push_char(&mut r, c[k]);
        proof {
            assert(c@.subrange(from as int, k + 1) =~= c@.subrange(from as int, k as int).push(
                c@[k as int],
            ));
        }
        k = k + 1;
    }
    r
}

} // verus!
