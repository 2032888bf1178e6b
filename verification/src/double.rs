//! Double-precision values as IEEE 754 bit patterns.
//!
//! The view's real quantities are computed by the caller.  The decisions that
//! the view takes on them (is a value zero, is it negative, does it lie
//! within the zoom bounds) need no arithmetic on reals: they follow from the
//! sign bit and from the remaining 63 bits, read as an unsigned integer, which
//! grow with the absolute value.  This module takes those decisions on the
//! bit patterns.

use vstd::prelude::*;

verus! {

/// The sign bit.
pub const SIGN_BIT: u64 = 0x8000_0000_0000_0000;

/// Bit pattern of positive infinity.  Patterns whose lower 63 bits are
/// greater encode no number.
pub const INFINITY: u64 = 0x7FF0_0000_0000_0000;

/// Bit pattern of -314, the lowest zoom level.
pub const ZOOM_FLOOR: u64 = 0xC073_A000_0000_0000;

/// Bit pattern of 42, the highest zoom level.
pub const ZOOM_CEILING: u64 = 0x4045_0000_0000_0000;

/// Bit pattern of 8, the zoom level of a fresh or reset view.
pub const DEFAULT_ZOOM_LEVEL: u64 = 0x4020_0000_0000_0000;

/// Bit pattern of -7/8, the real part of the centre of a fresh or reset view.
pub const DEFAULT_OFFSET_RE: u64 = 0xBFEC_0000_0000_0000;

/// Bit pattern of zero: the imaginary part of the centre, both cursor
/// coordinates and both components of the pan velocity of a fresh or reset
/// view.
pub const ZERO: u64 = 0;

/// Whether the sign bit is set.
pub open spec fn sign_set(bits: u64) -> bool {
    bits >= SIGN_BIT
}

/// The lower 63 bits: the encoding of the absolute value.
pub open spec fn magnitude(bits: u64) -> u64 {
    if bits >= SIGN_BIT {
        (bits - SIGN_BIT) as u64
    } else {
        bits
    }
}

/// Whether the pattern encodes no number.
pub open spec fn is_nan(bits: u64) -> bool {
    magnitude(bits) > INFINITY
}

/// Whether the pattern encodes zero, of either sign.
pub open spec fn is_zero(bits: u64) -> bool {
    magnitude(bits) == 0
}

/// An integer that orders the patterns of numbers as the numbers themselves
/// are ordered: for two patterns that encode numbers, the first number is
/// less than the second exactly if the first rank is.  Both zeros have rank
/// zero.
pub open spec fn rank(bits: u64) -> int {
    if sign_set(bits) {
        -(magnitude(bits) as int)
    } else {
        magnitude(bits) as int
    }
}

/// Whether the encoded value compares greater than or equal to zero: it is a
/// number, and it is zero or its sign bit is clear.
pub open spec fn non_negative(bits: u64) -> bool {
    !is_nan(bits) && rank(bits) >= 0
}

/// The zoom level that results from a candidate level: the candidate itself
/// where it lies within the bounds or is no number, else the bound that it
/// crossed.
pub open spec fn clamped_level(bits: u64) -> u64 {
    if is_nan(bits) {
        bits
    } else if rank(bits) < rank(ZOOM_FLOOR) {
        ZOOM_FLOOR
    } else if rank(bits) > rank(ZOOM_CEILING) {
        ZOOM_CEILING
    } else {
        bits
    }
}

/// A component of the pan velocity after the step size changed to `step`: a
/// component that is zero or no number stays as it is, any other takes the
/// magnitude of `step` and keeps its own sign.
pub open spec fn rescaled(component: u64, step: u64) -> u64 {
    if is_zero(component) || is_nan(component) {
        component
    } else if sign_set(component) {
        (magnitude(step) + SIGN_BIT) as u64
    } else {
        magnitude(step)
    }
}

/// The lower 63 bits of a pattern.
fn magnitude_of(bits: u64) -> (m: u64)
    ensures
        m == magnitude(bits),
        m < SIGN_BIT,
{
    if bits >= SIGN_BIT {
        bits - SIGN_BIT
    } else {
        bits
    }
}

/// Whether `a` is less than `b`, for two patterns that encode numbers.
fn less(a: u64, b: u64) -> (r: bool)
    ensures
        r == (rank(a) < rank(b)),
{
    let ma = magnitude_of(a);
    let mb = magnitude_of(b);
    if a >= SIGN_BIT {
        if b >= SIGN_BIT {
            mb < ma
        } else {
            ma > 0 || mb > 0
        }
    } else {
        if b >= SIGN_BIT {
            false
        } else {
            ma < mb
        }
    }
}

/// Whether the encoded value compares greater than or equal to zero.
pub fn at_least_zero(bits: u64) -> (r: bool)
    ensures
        r == non_negative(bits),
{
    let m = magnitude_of(bits);
    m <= INFINITY && (bits < SIGN_BIT || m == 0)
}

/// Brings a candidate zoom level within the bounds.
pub fn clamp_level(bits: u64) -> (r: u64)
    ensures
        r == clamped_level(bits),
        !is_nan(bits) ==> rank(ZOOM_FLOOR) <= rank(r) <= rank(ZOOM_CEILING),
{
    if magnitude_of(bits) > INFINITY {
        bits
    } else if less(bits, ZOOM_FLOOR) {
        ZOOM_FLOOR
    } else if less(ZOOM_CEILING, bits) {
        ZOOM_CEILING
    } else {
        bits
    }
}

/// Gives a component of the pan velocity the magnitude of the new step size,
/// keeping its sign.
pub fn rescale(component: u64, step: u64) -> (r: u64)
    ensures
        r == rescaled(component, step),
{
    let m = magnitude_of(component);
    if m == 0 || m > INFINITY {
        component
    } else if component >= SIGN_BIT {
        magnitude_of(step) + SIGN_BIT
    } else {
        magnitude_of(step)
    }
}

/// Whatever the candidate, a clamped zoom level that is a number lies within
/// the bounds, and clamping a level that lies within them changes nothing.
pub proof fn lemma_clamped_level_in_bounds(bits: u64)
    requires
        !is_nan(bits),
    ensures
        !is_nan(clamped_level(bits)),
        rank(ZOOM_FLOOR) <= rank(clamped_level(bits)) <= rank(ZOOM_CEILING),
        rank(ZOOM_FLOOR) <= rank(bits) <= rank(ZOOM_CEILING) ==> clamped_level(bits) == bits,
        clamped_level(clamped_level(bits)) == clamped_level(bits),
{
}

/// A rescaled component that was a number other than zero has the magnitude
/// of the step size and the sign that it had; one that was zero is zero.
pub proof fn lemma_rescaled_keeps_sign(component: u64, step: u64)
    requires
        !is_nan(component),
    ensures
        is_zero(component) ==> rescaled(component, step) == component,
        !is_zero(component) ==> magnitude(rescaled(component, step)) == magnitude(step),
        !is_zero(component) ==> sign_set(rescaled(component, step)) == sign_set(component),
{
}

} // verus!
