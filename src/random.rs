use vstd::prelude::*;

verus! {

/// Relies on rand::thread_rng and rand::Rng::gen_range: a value drawn from
/// the half-open range `lo..hi`, which must not be empty.
#[verifier::external_body]
fn uniform_below(lo: i64, hi: i64) -> (r: i64)
    requires
        lo < hi,
    ensures
        lo <= r < hi,
{
    rand::Rng::gen_range(&mut rand::thread_rng(), lo..hi)
}

/// A value drawn uniformly from `lo..hi`; `lo` itself when that range is empty.
pub fn draw(lo: i64, hi: i64) -> (r: i64)
    ensures
        lo < hi ==> lo <= r < hi,
        lo >= hi ==> r == lo,
{
    if lo < hi {
        uniform_below(lo, hi)
    } else {
        lo
    }
}

} // verus!
