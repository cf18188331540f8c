use vstd::prelude::*;

verus! {

/// Relies on rand::Rng::gen_range over the thread-local generator: it
/// returns a uniformly distributed value of the half-open range `lo..hi`
/// and panics only when the range is empty.
#[verifier::external_body]
pub(crate) fn rand_u64_range(lo: u64, hi: u64) -> (r: u64)
    requires
        lo < hi,
    ensures
        lo <= r < hi,
{
    rand::Rng::gen_range(&mut rand::thread_rng(), lo..hi)
}

/// Relies on rand::Rng::gen_range over the thread-local generator: it
/// returns a uniformly distributed value of the half-open range `lo..hi`
/// and panics only when the range is empty.
#[verifier::external_body]
pub(crate) fn rand_i64_range(lo: i64, hi: i64) -> (r: i64)
    requires
        lo < hi,
    ensures
        lo <= r < hi,
{
    rand::Rng::gen_range(&mut rand::thread_rng(), lo..hi)
}

} // verus!
