//! Random draws: jitter delays, endpoint choice and client-id suffixes.

use vstd::prelude::*;
use rand::Rng;

verus! {

/// An ASCII letter or digit.
pub open spec fn is_alphanumeric(c: char) -> bool {
    ('a' <= c && c <= 'z') || ('A' <= c && c <= 'Z') || ('0' <= c && c <= '9')
}

/// Relies on rand's `Rng::gen_range` on a thread-local generator: the value
/// lies in the half-open range; the range must not be empty.
#[verifier::external_body]
pub(crate) fn random_in_range(lo: u64, hi: u64) -> (r: u64)
    requires
        lo < hi,
    ensures
        lo <= r < hi,
{
    rand::thread_rng().gen_range(lo..hi)
}

/// Relies on rand's `Alphanumeric` distribution, which draws ASCII letters
/// and digits: `len` such characters.
#[verifier::external_body]
pub(crate) fn random_alphanumeric(len: usize) -> (r: String)
    ensures
        r@.len() == len,
        forall|i: int| 0 <= i < len ==> is_alphanumeric(#[trigger] r@[i]),
{
    rand::thread_rng().sample_iter(&rand::distributions::Alphanumeric).take(len).map(char::from).collect()
}

/// A jitter delay in milliseconds, uniform in `[1, max_millis)`.
pub fn shuffle_delay(max_millis: u64) -> (r: u64)
    requires
        max_millis > 1,
    ensures
        1 <= r < max_millis,
{
    random_in_range(1, max_millis)
}

/// An index drawn uniformly below `len`.
pub fn random_index(len: usize) -> (r: usize)
    requires
        len > 0,
    ensures
        r < len,
{
    let x = random_in_range(0, len as u64);
    x as usize
}

} // verus!
