use vstd::prelude::*;

verus! {

/// Clamp a mathematical integer into the representable `i64` range.
pub open spec fn sat64(x: int) -> i64 {
    if x > i64::MAX {
        i64::MAX
    } else if x < i64::MIN {
        i64::MIN
    } else {
        x as i64
    }
}

/// Saturating sum of two field values.
pub open spec fn sat_add_spec(a: i64, b: i64) -> i64 {
    sat64(a + b)
}

/// Saturating product of two field values.
pub open spec fn sat_mul_spec(a: i64, b: i64) -> i64 {
    sat64(a * b)
}

/// Saturating absolute value; only `i64::MIN` needs the clamp.
pub open spec fn sat_abs_spec(a: i64) -> i64 {
    if a < 0 {
        sat64(-(a as int))
    } else {
        a
    }
}

/// Arithmetic mean of two values, rounded toward zero.
/// The mean of two representable values is always representable.
pub open spec fn avg_spec(a: i64, b: i64) -> i64 {
    let s = a + b;
    if s >= 0 {
        (s / 2) as i64
    } else {
        (-((-s) / 2)) as i64
    }
}

pub fn sat_add(a: i64, b: i64) -> (r: i64)
    ensures
        r == sat_add_spec(a, b),
{
    let s: i128 = a as i128 + b as i128;
    if s > i64::MAX as i128 {
        i64::MAX
    } else if s < i64::MIN as i128 {
        i64::MIN
    } else {
        s as i64
    }
}

pub fn sat_mul(a: i64, b: i64) -> (r: i64)
    ensures
        r == sat_mul_spec(a, b),
{
    proof {
        // The product of two i64 values fits in i128: its magnitude is at
        // most 2^126.
        assert((a as int) * (b as int) <= 85070591730234615865843651857942052864
            && (a as int) * (b as int) >= -85070591730234615865843651857942052864)
            by (nonlinear_arith)
            requires
                -0x8000_0000_0000_0000 <= a as int <= 0x7fff_ffff_ffff_ffff,
                -0x8000_0000_0000_0000 <= b as int <= 0x7fff_ffff_ffff_ffff,
        ;
    }
    let p: i128 = a as i128 * b as i128;
    if p > i64::MAX as i128 {
        i64::MAX
    } else if p < i64::MIN as i128 {
        i64::MIN
    } else {
        p as i64
    }
}

pub fn sat_abs(a: i64) -> (r: i64)
    ensures
        r == sat_abs_spec(a),
{
    if a == i64::MIN {
        i64::MAX
    } else if a < 0 {
        -a
    } else {
        a
    }
}

pub fn average(a: i64, b: i64) -> (r: i64)
    ensures
        r == avg_spec(a, b),
{
    let s: i128 = a as i128 + b as i128;
    if s >= 0 {
        let h: u128 = (s as u128) / 2;
        h as i64
    } else {
        let m: u128 = ((-s) as u128) / 2;
        let n: i128 = -(m as i128);
        n as i64
    }
}

} // verus!
