//! Checked fixed-point arithmetic on `u128` and `i128`.
use vstd::prelude::*;

use crate::error::EngineError;

verus! {

/// `x` fits in a `u128`.
pub open spec fn fits_u(x: int) -> bool {
    0 <= x <= u128::MAX
}

/// `x` fits in an `i128`.
pub open spec fn fits_i(x: int) -> bool {
    i128::MIN <= x <= i128::MAX
}

pub open spec fn abs(x: int) -> int {
    if x < 0 {
        -x
    } else {
        x
    }
}

/// Division that truncates toward zero: the quotient of the magnitudes,
/// negative when exactly one operand is negative.
pub open spec fn div_tz(a: int, b: int) -> int {
    if (a < 0) == (b < 0) {
        abs(a) / abs(b)
    } else {
        -(abs(a) / abs(b))
    }
}

/// The value a checked unsigned computation yields: `None` stands for a
/// step that overflowed or divided by zero.
pub open spec fn res_u(s: Option<int>) -> Result<u128, EngineError> {
    match s {
        Some(v) => if fits_u(v) {
            Ok(v as u128)
        } else {
            Err(EngineError::Arithmetic)
        },
        None => Err(EngineError::Arithmetic),
    }
}

/// As `res_u`, for signed results.
pub open spec fn res_i(s: Option<int>) -> Result<i128, EngineError> {
    match s {
        Some(v) => if fits_i(v) {
            Ok(v as i128)
        } else {
            Err(EngineError::Arithmetic)
        },
        None => Err(EngineError::Arithmetic),
    }
}

/// `a * b / d` on unsigned values, `None` when the product overflows or `d` is zero.
pub open spec fn mul_div_spec(a: int, b: int, d: int) -> Option<int> {
    if fits_u(a * b) && d != 0 {
        Some(a * b / d)
    } else {
        None
    }
}

/// `a * b / d` on signed values, truncated toward zero, `None` when the
/// product leaves `i128` or `d` is zero.
pub open spec fn mul_div_signed_spec(a: int, b: int, d: int) -> Option<int> {
    if fits_i(a * b) && d != 0 {
        Some(div_tz(a * b, d))
    } else {
        None
    }
}

pub fn add_u(a: u128, b: u128) -> (r: Result<u128, EngineError>)
    ensures
        r == res_u(Some(a + b)),
{
    if a > u128::MAX - b {
        Err(EngineError::Arithmetic)
    } else {
        Ok(a + b)
    }
}

pub fn sub_u(a: u128, b: u128) -> (r: Result<u128, EngineError>)
    ensures
        r == res_u(Some(a - b)),
{
    if a < b {
        Err(EngineError::Arithmetic)
    } else {
        Ok(a - b)
    }
}

pub fn mul_u(a: u128, b: u128) -> (r: Result<u128, EngineError>)
    ensures
        r == res_u(Some(a * b)),
{
    match a.checked_mul(b) {
        Some(v) => Ok(v),
        None => Err(EngineError::Arithmetic),
    }
}

/// `a * b / d`, rounded down.
pub fn mul_div(a: u128, b: u128, d: u128) -> (r: Result<u128, EngineError>)
    ensures
        r == res_u(mul_div_spec(a as int, b as int, d as int)),
{
    let p = mul_u(a, b)?;
    if d == 0 {
        return Err(EngineError::Arithmetic);
    }
    proof {
        assert(0 <= p / d <= p) by (nonlinear_arith)
            requires
                d > 0,
                p >= 0,
        ;
    }
    Ok(p / d)
}

pub fn add_i(a: i128, b: i128) -> (r: Result<i128, EngineError>)
    ensures
        r == res_i(Some(a + b)),
{
    match a.checked_add(b) {
        Some(v) => Ok(v),
        None => Err(EngineError::Arithmetic),
    }
}

pub fn sub_i(a: i128, b: i128) -> (r: Result<i128, EngineError>)
    ensures
        r == res_i(Some(a - b)),
{
    match a.checked_sub(b) {
        Some(v) => Ok(v),
        None => Err(EngineError::Arithmetic),
    }
}

/// The magnitude of `a`.
pub fn abs_i(a: i128) -> (r: u128)
    ensures
        r == abs(a as int),
{
    if a < 0 {
        ((-(a + 1)) as u128) + 1
    } else {
        a as u128
    }
}

/// `v` with the given sign, as a signed value.
pub fn signed(negative: bool, v: u128) -> (r: Result<i128, EngineError>)
    ensures
        r == res_i(Some(
            if negative {
                -v
            } else {
                v as int
            },
        )),
{
    if v > i128::MAX as u128 {
        if negative && v == i128::MAX as u128 + 1 {
            Ok(i128::MIN)
        } else {
            Err(EngineError::Arithmetic)
        }
    } else if negative {
        Ok(-(v as i128))
    } else {
        Ok(v as i128)
    }
}

/// Signed `a * b / d`, the division truncating toward zero.
pub fn mul_div_signed(a: i128, b: i128, d: i128) -> (r: Result<i128, EngineError>)
    ensures
        r == res_i(mul_div_signed_spec(a as int, b as int, d as int)),
{
    let p = match a.checked_mul(b) {
        Some(v) => v,
        None => {
            return Err(EngineError::Arithmetic);
        },
    };
    if d == 0 {
        return Err(EngineError::Arithmetic);
    }
    let pm = abs_i(p);
    let dm = abs_i(d);
    let q = pm / dm;
    proof {
        assert(0 <= pm / dm <= pm) by (nonlinear_arith)
            requires
                dm > 0,
                pm >= 0,
        ;
    }
    signed((p < 0) != (d < 0), q)
}

} // verus!
