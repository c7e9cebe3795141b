//! Trusted shims around the `rand` crate: every call into the entropy
//! source goes through one of the items here, and everything built on
//! top of them is verified against their contracts.

use vstd::prelude::*;
use rand::Rng;

verus! {

/// `c` is an ASCII letter or an ASCII digit.
pub open spec fn is_alnum_char(c: char) -> bool {
    ||| 'a' <= c && c <= 'z'
    ||| 'A' <= c && c <= 'Z'
    ||| '0' <= c && c <= '9'
}

/// Relies on `rand::random`: draws one `bool` from the `Standard`
/// distribution. Nothing is promised of the outcome.
#[verifier::external_body]
pub(crate) fn rand_bool() -> (r: bool) {
    rand::random::<bool>()
}

/// Relies on `rand::random`: draws one `char` from the `Standard`
/// distribution, a random Unicode scalar value. Nothing more is
/// promised of the outcome.
#[verifier::external_body]
pub(crate) fn rand_char() -> (c: char) {
    rand::random::<char>()
}

/// Relies on `rand::random`: draws one `u16` from the `Standard`
/// distribution, so the outcome is only bounded by the type.
#[verifier::external_body]
pub(crate) fn rand_u16() -> (r: u16) {
    rand::random::<u16>()
}

/// Relies on `Rng::gen_range`: a draw from `lo..hi` lies in `[lo, hi)`.
/// The call panics only on an empty range, which the precondition
/// excludes.
#[verifier::external_body]
pub(crate) fn rand_range_u64(lo: u64, hi: u64) -> (r: u64)
    requires
        lo < hi,
    ensures
        lo <= r < hi,
{
    rand::thread_rng().gen_range(lo..hi)
}

/// Relies on `Rng::gen_range`: a draw from `lo..hi` lies in `[lo, hi)`.
/// The call panics only on an empty range, which the precondition
/// excludes.
#[verifier::external_body]
pub(crate) fn rand_range_i64(lo: i64, hi: i64) -> (r: i64)
    requires
        lo < hi,
    ensures
        lo <= r < hi,
{
    rand::thread_rng().gen_range(lo..hi)
}

/// Relies on rand's `Alphanumeric` distribution: every sampled byte is
/// an ASCII letter or an ASCII digit.
#[verifier::external_body]
pub(crate) fn rand_alnum_char() -> (c: char)
    ensures
        is_alnum_char(c),
{
    char::from(rand::thread_rng().sample(rand::distributions::Alphanumeric))
}

} // verus!
