use vstd::prelude::*;

verus! {

/// Microseconds in one second.
pub const MICROS_PER_SECOND: u64 = 1_000_000;

/// Angle units in one full turn.
pub const TURN: u64 = 1_000_000;

/// Radius of a new particle, in thousandths of a pixel.
pub const INITIAL_RADIUS: u64 = 10_000;

/// Largest target radius a particle can have, in thousandths of a pixel.
pub const MAX_RADIUS_LIMIT: u64 = 512_000;

/// A point or an offset in the plane, in whole pixels.
#[derive(Clone, Copy, Debug, PartialEq, Eq, Structural)]
pub struct Point {
    pub x: i64,
    pub y: i64,
}

/// The product of two `u64` values fits in a `u128`.
pub proof fn lemma_product_fits(a: u64, b: u64)
    ensures
        0 <= (a as int) * (b as int) <= u128::MAX,
{
    assert(0 <= (a as int) * (b as int) <= (u64::MAX as int) * (u64::MAX as int)) by (nonlinear_arith)
        requires
            0 <= a <= u64::MAX,
            0 <= b <= u64::MAX,
    ;
}

} // verus!
