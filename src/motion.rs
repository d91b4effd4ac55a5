//! Fixed-point motion accumulation.
//!
//! A pad delta is given in thousandths of a unit and the acceleration in
//! thousandths of a factor, so a scaled delta is an exact integer count of
//! millionths. The accumulator keeps those millionths; what the sink gets is
//! the accumulator truncated toward zero to a whole unit, and the residue
//! stays behind for the next emission.

use vstd::prelude::*;

verus! {

/// Millionths per whole unit of pointer motion.
pub const MOTION_ONE: i64 = 1_000_000;

/// Largest magnitude of the accumulator; it saturates symmetrically there.
pub const ACCUM_LIMIT: i64 = 0x7fff_ffff_ffff_ffff;

/// Largest emitted motion; positive motion saturates there.
pub const EMIT_MAX: i32 = 0x7fff_ffff;

/// Largest magnitude of a negative emitted motion; it saturates at `-EMIT_NEG_LIMIT`,
/// the least value of the sink's range.
pub const EMIT_NEG_LIMIT: i64 = 0x8000_0000;

pub open spec fn abs(x: int) -> int {
    if x >= 0 { x } else { -x }
}

/// A pad delta (thousandths) scaled by the acceleration (thousandths).
pub open spec fn scaled(d: i32, acceleration: u32) -> int {
    d as int * acceleration as int
}

/// `x` saturated to the accumulator's range.
pub open spec fn clamp_accum(x: int) -> int {
    if x > (ACCUM_LIMIT as int) {
        (ACCUM_LIMIT as int)
    } else if x < -((ACCUM_LIMIT as int)) {
        -((ACCUM_LIMIT as int))
    } else {
        x
    }
}

/// Largest magnitude that motion of the sign of `a` may have.
pub open spec fn emit_limit(a: int) -> int {
    if a >= 0 { EMIT_MAX as int } else { EMIT_NEG_LIMIT as int }
}

/// Whole units in `|a|` millionths, saturated to the sink's range.
pub open spec fn whole_units(a: int) -> int {
    if abs(a) / (MOTION_ONE as int) > emit_limit(a) {
        emit_limit(a)
    } else {
        abs(a) / (MOTION_ONE as int)
    }
}

/// The accumulator `a` truncated toward zero to whole units.
pub open spec fn emitted(a: int) -> int {
    if a >= 0 { whole_units(a) } else { -whole_units(a) }
}

/// Whether truncating `a` stays inside the sink's range.
pub open spec fn emit_in_range(a: int) -> bool {
    abs(a) / (MOTION_ONE as int) <= emit_limit(a)
}

/// What truncation toward zero guarantees of every emitted value: it is no
/// larger than the accumulator, never of the opposite sign, and, unless it
/// saturated, leaves less than one whole unit behind.
pub proof fn lemma_emitted(a: int)
    ensures
        abs(emitted(a) * (MOTION_ONE as int)) <= abs(a),
        emitted(a) == 0 || (emitted(a) > 0) == (a > 0),
        i32::MIN as int <= emitted(a) <= i32::MAX as int,
        emit_in_range(a) ==> abs(a - emitted(a) * (MOTION_ONE as int)) < (MOTION_ONE as int),
{
    let m = abs(a);
    let q = m / (MOTION_ONE as int);
    assert(q * (MOTION_ONE as int) <= m && m - q * (MOTION_ONE as int) < (MOTION_ONE as int));
    assert(q >= 0);
}

/// Adds the scaled delta `d` to the accumulator `a`, saturating.
pub fn accumulate(a: i64, d: i32, acceleration: u32) -> (r: i64)
    ensures
        r as int == clamp_accum(a as int + scaled(d, acceleration)),
{
    proof {
        assert(-0x8000_0000 * 0xffff_ffff <= d as int * acceleration as int
            <= 0x7fff_ffff * 0xffff_ffff) by (nonlinear_arith)
            requires
                -0x8000_0000 <= d as int <= 0x7fff_ffff,
                0 <= acceleration as int <= 0xffff_ffff,
        ;
    }
    let s: i128 = a as i128 + (d as i128) * (acceleration as i128);
    if s > ACCUM_LIMIT as i128 {
        ACCUM_LIMIT
    } else if s < -(ACCUM_LIMIT as i128) {
        -ACCUM_LIMIT
    } else {
        s as i64
    }
}

/// Truncates the accumulator `a` toward zero to whole units: floor when
/// positive, ceiling when negative, so that motion has no directional bias.
pub fn truncate_toward_zero(a: i64) -> (r: i32)
    ensures
        r as int == emitted(a as int),
        abs(r as int * (MOTION_ONE as int)) <= abs(a as int),
        r == 0 || (r > 0) == (a > 0),
{
    proof {
        lemma_emitted(a as int);
    }
    let m: u64 = if a >= 0 {
        a as u64
    } else {
        (-(a as i128)) as u64
    };
    let q: u64 = m / (MOTION_ONE as u64);
    let limit: u64 = if a >= 0 {
        EMIT_MAX as u64
    } else {
        EMIT_NEG_LIMIT as u64
    };
    let w: u64 = if q > limit {
        limit
    } else {
        q
    };
    if a >= 0 {
        w as i32
    } else {
        (-(w as i64)) as i32
    }
}

/// Splits the accumulator `a` into the whole units to emit and the residue
/// that stays behind.
pub fn split_accumulator(a: i64) -> (r: (i32, i64))
    ensures
        r.0 as int == emitted(a as int),
        r.1 as int == a as int - r.0 as int * (MOTION_ONE as int),
{
    let i = truncate_toward_zero(a);
    proof {
        lemma_emitted(a as int);
        assert(abs(a as int - i as int * (MOTION_ONE as int)) <= abs(a as int));
    }
    let residue: i64 = a - (i as i64) * MOTION_ONE;
    (i, residue)
}

} // verus!
