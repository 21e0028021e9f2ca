//! The random token that a baseline request puts in place of the
//! placeholder.
use vstd::prelude::*;

verus! {

/// The length of a baseline token; long enough that no wordlist is likely
/// to hold it.
pub const TOKEN_LEN: usize = 15;

/// `c` is an ASCII letter or digit.
pub open spec fn is_alphanumeric(c: char) -> bool {
    ('A' <= c && c <= 'Z') || ('a' <= c && c <= 'z') || ('0' <= c && c <= '9')
}

/// Relies on rand's `Alphanumeric` distribution, sampled from the thread's
/// generator: each item is a byte of `A-Z`, `a-z` or `0-9`, and `take(len)`
/// keeps `len` of them.
#[verifier::external_body]
fn random_alphanumeric(len: usize) -> (r: String)
    ensures
        r@.len() == len,
        forall|i: int| 0 <= i < len ==> is_alphanumeric(#[trigger] r@[i]),
{
    rand::Rng::sample_iter(rand::thread_rng(), &rand::distributions::Alphanumeric).take(len).map(
        char::from,
    ).collect()
}

/// A fresh random token for a baseline request: letters and digits, of
/// length `TOKEN_LEN`. Two calls may give different tokens.
pub fn baseline_token() -> (r: String)
    ensures
        r@.len() == TOKEN_LEN,
        forall|i: int| 0 <= i < TOKEN_LEN ==> is_alphanumeric(#[trigger] r@[i]),
{
    random_alphanumeric(TOKEN_LEN)
}

} // verus!
