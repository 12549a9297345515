//! Pixel arithmetic for layout geometry.
//!
//! All geometry is carried in whole logical pixels as `i64`. Stored
//! coordinates and sizes are kept inside `[-MAX_PX, MAX_PX]`; the saturating
//! helpers below clamp into that range, and their contracts say exactly when
//! the result is the true sum or difference.

use vstd::prelude::*;

verus! {

/// Largest coordinate or size the engine stores, in logical pixels.
pub const MAX_PX: i64 = 0x100_0000_0000;

/// Largest length a computed style may hold, in logical pixels.
/// Style lengths are clamped here when values are resolved, so that a
/// box's own edge sums never saturate.
pub const MAX_STYLE_PX: i64 = 0x4000_0000;

pub open spec fn dim_ok(v: int) -> bool {
    -MAX_PX <= v <= MAX_PX
}

pub open spec fn style_px_ok(v: int) -> bool {
    -MAX_STYLE_PX <= v <= MAX_STYLE_PX
}

/// Clamp of an unbounded value into the stored-geometry range.
pub open spec fn clamp_px(v: int) -> int {
    if v < -MAX_PX {
        -MAX_PX as int
    } else if v > MAX_PX {
        MAX_PX as int
    } else {
        v
    }
}

/// Saturating pixel addition.
pub fn px_add(a: i64, b: i64) -> (r: i64)
    requires
        dim_ok(a as int),
        dim_ok(b as int),
    ensures
        r as int == clamp_px(a + b),
        dim_ok(r as int),
        dim_ok(a + b) ==> r as int == a + b,
{
    let s: i64 = a + b;
    if s < -MAX_PX {
        -MAX_PX
    } else if s > MAX_PX {
        MAX_PX
    } else {
        s
    }
}

/// Larger of two pixel values.
pub fn px_max(a: i64, b: i64) -> (r: i64)
    ensures
        r == if a >= b { a } else { b },
{
    if a >= b {
        a
    } else {
        b
    }
}

/// Smaller of two pixel values.
pub fn px_min(a: i64, b: i64) -> (r: i64)
    ensures
        r == if a <= b { a } else { b },
{
    if a <= b {
        a
    } else {
        b
    }
}

/// A value floored at zero.
pub fn px_floor0(a: i64) -> (r: i64)
    ensures
        r == if a >= 0 { a } else { 0i64 },
{
    if a >= 0 {
        a
    } else {
        0
    }
}

/// Clamp a value into `[lo, hi]`; callers must order the bounds.
pub fn px_clamp(v: i64, lo: i64, hi: i64) -> (r: i64)
    requires
        lo <= hi,
    ensures
        r == if v < lo { lo } else if v > hi { hi } else { v },
        lo <= r <= hi,
{
    if v < lo {
        lo
    } else if v > hi {
        hi
    } else {
        v
    }
}

} // verus!
