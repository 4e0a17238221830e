//! Fixed-point arithmetic shared by every part of the simulation.
//!
//! A real quantity is held as an `i64` counting millionths: lengths in
//! millionths of an arena unit, speeds in millionths of a unit per second,
//! analog axis values and scale factors in millionths. Elapsed time is a whole
//! number of microseconds, which is the same scale applied to seconds.

use vstd::prelude::*;

verus! {

/// The raw value that stands for `1.0`.
pub const ONE: i64 = 1_000_000;

/// Largest magnitude that a configured length, speed or scale factor may have.
pub const LIMIT: i64 = 1_000_000_000_000;

/// Largest distance that anything moving at up to `LIMIT` covers in one tick,
/// however long the tick: `LIMIT * u32::MAX / ONE`.
pub const MAX_STEP: i64 = 4_294_967_295_000_000;

/// The product of two fixed-point numbers: `a * b / ONE`, rounded toward zero.
pub open spec fn scaled(a: int, b: int) -> int {
    if a * b >= 0 {
        (a * b) / (ONE as int)
    } else {
        -((-(a * b)) / (ONE as int))
    }
}

/// `v` capped at `hi` and then raised to `lo`; `lo` wins where the two cross.
pub open spec fn clamped(v: int, lo: int, hi: int) -> int {
    let capped = if v < hi { v } else { hi };
    if capped > lo { capped } else { lo }
}

/// The magnitude of `v`.
pub open spec fn magnitude(v: int) -> int {
    if v < 0 { -v } else { v }
}

/// A speed of magnitude at most `LIMIT`, held for one tick, covers at most
/// `MAX_STEP`, and never against its own direction.
pub proof fn lemma_step_bounds(v: int, elapsed: int)
    requires
        -LIMIT <= v <= LIMIT,
        0 <= elapsed <= u32::MAX,
    ensures
        -MAX_STEP <= scaled(v, elapsed) <= MAX_STEP,
        v >= 0 ==> scaled(v, elapsed) >= 0,
        v <= 0 ==> scaled(v, elapsed) <= 0,
{
    assert(-(LIMIT * 0xffff_ffff) <= v * elapsed <= LIMIT * 0xffff_ffff) by (nonlinear_arith)
        requires
            -LIMIT <= v <= LIMIT,
            0 <= elapsed <= 0xffff_ffff,
    ;
    assert(v >= 0 ==> v * elapsed >= 0) by (nonlinear_arith)
        requires
            0 <= elapsed,
    ;
    assert(v <= 0 ==> v * elapsed <= 0) by (nonlinear_arith)
        requires
            0 <= elapsed,
    ;
}

/// Computes the fixed-point product of `a` and `b`, wide enough for any pair
/// and with room left to add an `i64` to it.
pub fn scale(a: i64, b: i64) -> (r: i128)
    ensures
        r == scaled(a as int, b as int),
        -0x4000_0000_0000_0000_0000_0000_0000_0000 <= r <= 0x4000_0000_0000_0000_0000_0000_0000_0000,
{
    assert(-0x4000_0000_0000_0000_0000_0000_0000_0000 <= (a as int) * (b as int)
        <= 0x4000_0000_0000_0000_0000_0000_0000_0000) by (nonlinear_arith)
        requires
            -0x8000_0000_0000_0000 <= a <= 0x7fff_ffff_ffff_ffff,
            -0x8000_0000_0000_0000 <= b <= 0x7fff_ffff_ffff_ffff,
    ;
    let wide: i128 = (a as i128) * (b as i128);
    wide / 1_000_000
}

} // verus!
