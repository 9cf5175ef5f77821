use vstd::prelude::*;

use crate::error::CosmoError;
use crate::fixed::{
    fx_add, fx_div, fx_div_int, fx_mul, fx_scale, fx_sqrt, fx_sub, iabs, res_v, spec_add,
    spec_div, spec_div_int, spec_mul, spec_scale, spec_sqrt, spec_sub, Fx, SCALE,
};

verus! {

/// ln 2 in raw units.
pub const LN2_RAW: i128 = 6_931_471_805_599;

/// ln 10 in raw units.
pub const LN10_RAW: i128 = 23_025_850_929_940;

/// pi in raw units.
pub const PI_RAW: i128 = 31_415_926_535_898;

/// 2*pi in raw units.
pub const TWO_PI_RAW: i128 = 62_831_853_071_796;

/// Largest power-of-two exponent attempted by `exp` before reporting
/// `Overflow` outright: 2^128 exceeds the raw range whatever the mantissa.
pub const EXP_MAX_POW: u128 = 127;

/// Repeated doubling: `s * 2^k`, stopping at the first overflow.
pub open spec fn spec_pow2_scale(s: int, k: int) -> Result<int, CosmoError>
    decreases k,
{
    if k <= 0 {
        Ok(s)
    } else {
        match spec_scale(s, 2) {
            Ok(d) => spec_pow2_scale(d, k - 1),
            Err(e) => Err(e),
        }
    }
}

/// Taylor tail of `exp` from term index `j` (exclusive of the accumulated
/// part): `term` holds `r^j / j!`, `acc` the partial sum through `j`.
pub open spec fn spec_exp_series(r: int, term: int, acc: int, j: int, n: int) -> Result<
    int,
    CosmoError,
>
    decreases n - j,
{
    if j >= n {
        Ok(acc)
    } else {
        match spec_mul(term, r) {
            Err(e) => Err(e),
            Ok(t1) => match spec_div_int(t1, j + 1) {
                Err(e) => Err(e),
                Ok(t) => match spec_add(acc, t) {
                    Err(e) => Err(e),
                    Ok(a2) => spec_exp_series(r, t, a2, j + 1, n),
                },
            },
        }
    }
}

/// `exp` of a non-negative value: split off the power of two,
/// `exp(x) = 2^(x div ln 2) * exp(x mod ln 2)`, and sum the Taylor series of
/// the remainder.
pub open spec fn spec_exp_core(x: int) -> Result<int, CosmoError> {
    let k = x / (LN2_RAW as int);
    if k > EXP_MAX_POW {
        Err(CosmoError::Overflow)
    } else {
        let r = x % (LN2_RAW as int);
        match spec_exp_series(r, SCALE as int, SCALE as int, 0, 20) {
            Err(e) => Err(e),
            Ok(s) => spec_pow2_scale(s, k),
        }
    }
}

/// The exponential function; a negative argument goes through
/// `exp(x) = 1 / exp(-x)`.
pub open spec fn spec_exp(x: int) -> Result<int, CosmoError> {
    if x < 0 {
        match spec_scale(x, -1) {
            Err(e) => Err(e),
            Ok(nx) => match spec_exp_core(nx) {
                Err(e) => Err(e),
                Ok(p) => spec_div(SCALE as int, p),
            },
        }
    } else {
        spec_exp_core(x)
    }
}

/// Halve `m` until it is below 2.0, counting the halvings.
pub open spec fn spec_norm_down(m: int) -> (int, int)
    decreases m,
{
    if m >= 2 * (SCALE as int) {
        let (m2, k) = spec_norm_down(m / 2);
        (m2, k + 1)
    } else {
        (m, 0)
    }
}

/// Double `m` until it reaches 1.0, counting the doublings.
pub open spec fn spec_norm_up(m: int) -> (int, int)
    decreases (SCALE as int) - m,
{
    if 1 <= m && 2 * m < SCALE {
        let (m2, k) = spec_norm_up(2 * m);
        (m2, k + 1)
    } else if 1 <= m && m < SCALE {
        (2 * m, 1)
    } else {
        (m, 0)
    }
}

/// Odd-power series of `atanh`: `u` holds `t^j`, `acc` the partial sum of
/// `t^i / i` over odd `i < j`.
pub open spec fn spec_atanh_series(t2: int, u: int, acc: int, j: int, n: int) -> Result<
    int,
    CosmoError,
>
    decreases n - j + 1,
{
    if j >= n {
        Ok(acc)
    } else {
        match spec_div_int(u, j) {
            Err(e) => Err(e),
            Ok(term) => match spec_add(acc, term) {
                Err(e) => Err(e),
                Ok(a2) => match spec_mul(u, t2) {
                    Err(e) => Err(e),
                    Ok(u2) => spec_atanh_series(t2, u2, a2, j + 2, n),
                },
            },
        }
    }
}

/// The natural logarithm: normalize into [1, 2) by powers of two, expand
/// `ln m = 2 atanh((m-1)/(m+1))`, and add back the power-of-two part.
/// Non-positive input is a `DomainError`.
pub open spec fn spec_ln(x: int) -> Result<int, CosmoError> {
    if x <= 0 {
        Err(CosmoError::DomainError)
    } else {
        let (m1, kd) = spec_norm_down(x);
        let (m2, ku) = spec_norm_up(m1);
        match spec_div(m2 - SCALE, m2 + SCALE) {
            Err(e) => Err(e),
            Ok(t) => match spec_mul(t, t) {
                Err(e) => Err(e),
                Ok(t2) => match spec_atanh_series(t2, t, 0, 1, 31) {
                    Err(e) => Err(e),
                    Ok(a) => match spec_scale(a, 2) {
                        Err(e) => Err(e),
                        Ok(l) => match spec_scale(LN2_RAW as int, kd - ku) {
                            Err(e) => Err(e),
                            Ok(kl) => spec_add(l, kl),
                        },
                    },
                },
            },
        }
    }
}

/// The base-10 logarithm, `ln x / ln 10`.
pub open spec fn spec_log10(x: int) -> Result<int, CosmoError> {
    match spec_ln(x) {
        Err(e) => Err(e),
        Ok(l) => spec_div(l, LN10_RAW as int),
    }
}

/// The whole part of a raw value in raw units: `|v|` rounded down to a
/// multiple of `SCALE`, with the sign of `v`.
pub open spec fn spec_trunc_whole(v: int) -> Result<int, CosmoError> {
    let w = (iabs(v) / (SCALE as int)) * (SCALE as int);
    if w > i128::MAX {
        Err(CosmoError::Overflow)
    } else if v < 0 {
        Ok(-w)
    } else {
        Ok(w)
    }
}

/// Alternating odd-power series of `sin`: `u` holds the signed term of index
/// `j`, `acc` the partial sum through `j`.
pub open spec fn spec_sin_series(y2: int, u: int, acc: int, j: int, n: int) -> Result<
    int,
    CosmoError,
>
    decreases n - j + 1,
{
    if j >= n {
        Ok(acc)
    } else {
        match spec_mul(u, y2) {
            Err(e) => Err(e),
            Ok(t1) => match spec_div_int(t1, j + 1) {
                Err(e) => Err(e),
                Ok(t2) => match spec_div_int(t2, j + 2) {
                    Err(e) => Err(e),
                    Ok(t3) => match spec_scale(t3, -1) {
                        Err(e) => Err(e),
                        Ok(u2) => match spec_add(acc, u2) {
                            Err(e) => Err(e),
                            Ok(a2) => spec_sin_series(y2, u2, a2, j + 2, n),
                        },
                    },
                },
            },
        }
    }
}

/// Argument reduction for `sin`: subtract the whole multiples of 2*pi and
/// fold the remainder into [-pi, pi].
pub open spec fn spec_sin_reduce(x: int) -> Result<int, CosmoError> {
    match spec_div(x, TWO_PI_RAW as int) {
        Err(e) => Err(e),
        Ok(z) => match spec_trunc_whole(z) {
            Err(e) => Err(e),
            Ok(ki) => match spec_mul(ki, TWO_PI_RAW as int) {
                Err(e) => Err(e),
                Ok(p) => match spec_sub(x, p) {
                    Err(e) => Err(e),
                    Ok(y) => if y > PI_RAW {
                        spec_sub(y, TWO_PI_RAW as int)
                    } else if y < -PI_RAW {
                        spec_add(y, TWO_PI_RAW as int)
                    } else {
                        Ok(y)
                    },
                },
            },
        },
    }
}

/// The sine, by reduction into [-pi, pi] and the alternating Taylor series.
pub open spec fn spec_sin(x: int) -> Result<int, CosmoError> {
    match spec_sin_reduce(x) {
        Err(e) => Err(e),
        Ok(y) => match spec_mul(y, y) {
            Err(e) => Err(e),
            Ok(y2) => spec_sin_series(y2, y, y, 1, 25),
        },
    }
}

/// The hyperbolic sine, `(exp(x) - exp(-x)) / 2`.
pub open spec fn spec_sinh(x: int) -> Result<int, CosmoError> {
    match spec_exp(x) {
        Err(e) => Err(e),
        Ok(a) => match spec_scale(x, -1) {
            Err(e) => Err(e),
            Ok(nx) => match spec_exp(nx) {
                Err(e) => Err(e),
                Ok(b) => match spec_sub(a, b) {
                    Err(e) => Err(e),
                    Ok(d) => spec_div_int(d, 2),
                },
            },
        },
    }
}

/// The inverse hyperbolic sine, `ln(x + sqrt(x^2 + 1))`.
pub open spec fn spec_asinh(x: int) -> Result<int, CosmoError> {
    match spec_mul(x, x) {
        Err(e) => Err(e),
        Ok(x2) => match spec_add(x2, SCALE as int) {
            Err(e) => Err(e),
            Ok(s1) => match spec_sqrt(s1) {
                Err(e) => Err(e),
                Ok(s) => match spec_add(x, s) {
                    Err(e) => Err(e),
                    Ok(a) => spec_ln(a),
                },
            },
        },
    }
}

/// Taylor tail of `exp`, mirroring [`spec_exp_series`].
fn exp_series(r: Fx, term: Fx, acc: Fx, j: u64, n: u64) -> (out: Result<Fx, CosmoError>)
    ensures
        res_v(out) == spec_exp_series(r@, term@, acc@, j as int, n as int),
    decreases n - j,
{
    if j >= n {
        Ok(acc)
    } else {
        match fx_mul(term, r) {
            Err(e) => Err(e),
            Ok(t1) => match fx_div_int(t1, (j + 1) as i128) {
                Err(e) => Err(e),
                Ok(t) => match fx_add(acc, t) {
                    Err(e) => Err(e),
                    Ok(a2) => exp_series(r, t, a2, j + 1, n),
                },
            },
        }
    }
}

/// Repeated doubling, mirroring [`spec_pow2_scale`].
fn pow2_scale(s: Fx, k: u64) -> (out: Result<Fx, CosmoError>)
    ensures
        res_v(out) == spec_pow2_scale(s@, k as int),
    decreases k,
{
    if k == 0 {
        Ok(s)
    } else {
        match fx_scale(s, 2) {
            Ok(d) => pow2_scale(d, k - 1),
            Err(e) => Err(e),
        }
    }
}

/// `exp` of a non-negative value, mirroring [`spec_exp_core`].
fn exp_core(x: Fx) -> (out: Result<Fx, CosmoError>)
    requires
        x@ >= 0,
    ensures
        res_v(out) == spec_exp_core(x@),
{
    let xr = x.raw();
    let k = (xr as u128) / (LN2_RAW as u128);
    if k > EXP_MAX_POW {
        return Err(CosmoError::Overflow);
    }
    let r = Fx::from_raw(((xr as u128) % (LN2_RAW as u128)) as i128);
    let one = Fx::from_raw(SCALE);
    match exp_series(r, one, one, 0, 20) {
        Err(e) => Err(e),
        Ok(s) => pow2_scale(s, k as u64),
    }
}

/// The exponential function, mirroring [`spec_exp`].
pub fn fx_exp(x: Fx) -> (out: Result<Fx, CosmoError>)
    ensures
        res_v(out) == spec_exp(x@),
{
    if x.is_neg() {
        match fx_scale(x, -1) {
            Err(e) => Err(e),
            Ok(nx) => match exp_core(nx) {
                Err(e) => Err(e),
                Ok(p) => fx_div(Fx::from_raw(SCALE), p),
            },
        }
    } else {
        exp_core(x)
    }
}

/// Halvings into [0, 2), mirroring [`spec_norm_down`].
fn norm_down(m: Fx) -> (out: (Fx, i128))
    requires
        m@ >= 1,
    ensures
        (out.0@, out.1 as int) == spec_norm_down(m@),
        out.0@ >= 1,
        out.0@ < 2 * SCALE,
        0 <= out.1 <= m@,
    decreases m@,
{
    let mr = m.raw();
    if mr >= 2 * SCALE {
        let (m2, k) = norm_down(Fx::from_raw(((mr as u128) / 2) as i128));
        (m2, k + 1)
    } else {
        (m, 0)
    }
}

/// Doublings into [1, 2), mirroring [`spec_norm_up`].
fn norm_up(m: Fx) -> (out: (Fx, i128))
    requires
        1 <= m@ < 2 * SCALE,
    ensures
        (out.0@, out.1 as int) == spec_norm_up(m@),
        1 <= out.0@ < 2 * SCALE,
        0 <= out.1,
        m@ >= SCALE ==> out.1 == 0,
        m@ < SCALE ==> out.1 <= SCALE - m@ + 1,
    decreases SCALE - m@,
{
    let mr = m.raw();
    if 2 * mr < SCALE {
        let (m2, k) = norm_up(Fx::from_raw(2 * mr));
        (m2, k + 1)
    } else if mr < SCALE {
        (Fx::from_raw(2 * mr), 1)
    } else {
        (m, 0)
    }
}

/// Odd-power series of `atanh`, mirroring [`spec_atanh_series`].
fn atanh_series(t2: Fx, u: Fx, acc: Fx, j: u64, n: u64) -> (out: Result<Fx, CosmoError>)
    requires
        j >= 1,
        n <= 1000,
    ensures
        res_v(out) == spec_atanh_series(t2@, u@, acc@, j as int, n as int),
    decreases n - j + 1,
{
    if j >= n {
        Ok(acc)
    } else {
        match fx_div_int(u, j as i128) {
            Err(e) => Err(e),
            Ok(term) => match fx_add(acc, term) {
                Err(e) => Err(e),
                Ok(a2) => match fx_mul(u, t2) {
                    Err(e) => Err(e),
                    Ok(u2) => atanh_series(t2, u2, a2, j + 2, n),
                },
            },
        }
    }
}

/// The natural logarithm, mirroring [`spec_ln`].
pub fn fx_ln(x: Fx) -> (out: Result<Fx, CosmoError>)
    ensures
        res_v(out) == spec_ln(x@),
{
    if x.raw() <= 0 {
        return Err(CosmoError::DomainError);
    }
    let (m1, kd) = norm_down(x);
    let (m2, ku) = norm_up(m1);
    match fx_div(Fx::from_raw(m2.raw() - SCALE), Fx::from_raw(m2.raw() + SCALE)) {
        Err(e) => Err(e),
        Ok(t) => match fx_mul(t, t) {
            Err(e) => Err(e),
            Ok(t2) => match atanh_series(t2, t, Fx::from_raw(0), 1, 31) {
                Err(e) => Err(e),
                Ok(a) => match fx_scale(a, 2) {
                    Err(e) => Err(e),
                    Ok(l) => match fx_scale(Fx::from_raw(LN2_RAW), kd - ku) {
                        Err(e) => Err(e),
                        Ok(kl) => fx_add(l, kl),
                    },
                },
            },
        },
    }
}

/// The base-10 logarithm, mirroring [`spec_log10`].
pub fn fx_log10(x: Fx) -> (out: Result<Fx, CosmoError>)
    ensures
        res_v(out) == spec_log10(x@),
{
    match fx_ln(x) {
        Err(e) => Err(e),
        Ok(l) => fx_div(l, Fx::from_raw(LN10_RAW)),
    }
}

/// The whole part of a raw value, mirroring [`spec_trunc_whole`].
fn trunc_whole(x: Fx) -> (out: Result<Fx, CosmoError>)
    ensures
        res_v(out) == spec_trunc_whole(x@),
{
    let xr = x.raw();
    let m: u128 = if xr >= 0 {
        xr as u128
    } else {
        let w: i128 = -(xr + 1);
        (w as u128) + 1
    };
    let q = (m / (SCALE as u128)) * (SCALE as u128);
    if q > i128::MAX as u128 {
        Err(CosmoError::Overflow)
    } else if xr < 0 {
        Ok(Fx::from_raw(-(q as i128)))
    } else {
        Ok(Fx::from_raw(q as i128))
    }
}

/// Alternating series of `sin`, mirroring [`spec_sin_series`].
fn sin_series(y2: Fx, u: Fx, acc: Fx, j: u64, n: u64) -> (out: Result<Fx, CosmoError>)
    requires
        j >= 1,
        n <= 1000,
    ensures
        res_v(out) == spec_sin_series(y2@, u@, acc@, j as int, n as int),
    decreases n - j + 1,
{
    if j >= n {
        Ok(acc)
    } else {
        match fx_mul(u, y2) {
            Err(e) => Err(e),
            Ok(t1) => match fx_div_int(t1, (j + 1) as i128) {
                Err(e) => Err(e),
                Ok(t2) => match fx_div_int(t2, (j + 2) as i128) {
                    Err(e) => Err(e),
                    Ok(t3) => match fx_scale(t3, -1) {
                        Err(e) => Err(e),
                        Ok(u2) => match fx_add(acc, u2) {
                            Err(e) => Err(e),
                            Ok(a2) => sin_series(y2, u2, a2, j + 2, n),
                        },
                    },
                },
            },
        }
    }
}

/// Argument reduction for `sin`, mirroring [`spec_sin_reduce`].
fn sin_reduce(x: Fx) -> (out: Result<Fx, CosmoError>)
    ensures
        res_v(out) == spec_sin_reduce(x@),
{
    match fx_div(x, Fx::from_raw(TWO_PI_RAW)) {
        Err(e) => Err(e),
        Ok(z) => match trunc_whole(z) {
            Err(e) => Err(e),
            Ok(ki) => match fx_mul(ki, Fx::from_raw(TWO_PI_RAW)) {
                Err(e) => Err(e),
                Ok(p) => match fx_sub(x, p) {
                    Err(e) => Err(e),
                    Ok(y) => if y.raw() > PI_RAW {
                        fx_sub(y, Fx::from_raw(TWO_PI_RAW))
                    } else if y.raw() < -PI_RAW {
                        fx_add(y, Fx::from_raw(TWO_PI_RAW))
                    } else {
                        Ok(y)
                    },
                },
            },
        },
    }
}

/// The sine, mirroring [`spec_sin`].
pub fn fx_sin(x: Fx) -> (out: Result<Fx, CosmoError>)
    ensures
        res_v(out) == spec_sin(x@),
{
    match sin_reduce(x) {
        Err(e) => Err(e),
        Ok(y) => match fx_mul(y, y) {
            Err(e) => Err(e),
            Ok(y2) => sin_series(y2, y, y, 1, 25),
        },
    }
}

/// The hyperbolic sine, mirroring [`spec_sinh`].
pub fn fx_sinh(x: Fx) -> (out: Result<Fx, CosmoError>)
    ensures
        res_v(out) == spec_sinh(x@),
{
    match fx_exp(x) {
        Err(e) => Err(e),
        Ok(a) => match fx_scale(x, -1) {
            Err(e) => Err(e),
            Ok(nx) => match fx_exp(nx) {
                Err(e) => Err(e),
                Ok(b) => match fx_sub(a, b) {
                    Err(e) => Err(e),
                    Ok(d) => fx_div_int(d, 2),
                },
            },
        },
    }
}

/// The inverse hyperbolic sine, mirroring [`spec_asinh`].
pub fn fx_asinh(x: Fx) -> (out: Result<Fx, CosmoError>)
    ensures
        res_v(out) == spec_asinh(x@),
{
    match fx_mul(x, x) {
        Err(e) => Err(e),
        Ok(x2) => match fx_add(x2, Fx::from_raw(SCALE)) {
            Err(e) => Err(e),
            Ok(s1) => match fx_sqrt(s1) {
                Err(e) => Err(e),
                Ok(s) => match fx_add(x, s) {
                    Err(e) => Err(e),
                    Ok(a) => fx_ln(a),
                },
            },
        },
    }
}

} // verus!
