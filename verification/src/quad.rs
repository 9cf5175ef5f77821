use vstd::prelude::*;

use crate::error::CosmoError;
use crate::expansion::{e_func, spec_e_func};
use crate::fixed::{
    fx_abs, fx_add, fx_div, fx_div_int, fx_mul, fx_scale, fx_sub, res_v, spec_abs, spec_add,
    spec_div, spec_div_int, spec_mul, spec_scale, spec_sub, Fx, SCALE,
};
use crate::params::CosmologyParameters;

verus! {

/// The two integrands of the engine, both built on the expansion rate.
#[derive(Clone, Copy, Debug, PartialEq, Eq, Structural)]
pub enum Integrand {
    /// `1 / E(z)`: integrated for the comoving distance.
    Distance,
    /// `1 / ((1+z) E(z))`: integrated for lookback time and age.
    Time,
}

/// One evaluation of an integrand at redshift `z`, over raw values.
pub open spec fn spec_integrand(kind: Integrand, z: int, om: int, ok: int, ol: int) -> Result<
    int,
    CosmoError,
> {
    match spec_e_func(z, om, ok, ol) {
        Err(e) => Err(e),
        Ok(e) => match kind {
            Integrand::Distance => spec_div(SCALE as int, e),
            Integrand::Time => match spec_add(z, SCALE as int) {
                Err(er) => Err(er),
                Ok(opz) => match spec_mul(e, opz) {
                    Err(er) => Err(er),
                    Ok(d) => spec_div(SCALE as int, d),
                },
            },
        },
    }
}

/// Evaluates an integrand, mirroring [`spec_integrand`].
pub fn integrand(kind: Integrand, z: Fx, params: CosmologyParameters) -> (out: Result<
    Fx,
    CosmoError,
>)
    ensures
        res_v(out) == spec_integrand(kind, z@, params.omega_m@, params.omega_k@, params.omega_l@),
{
    match e_func(z, params) {
        Err(e) => Err(e),
        Ok(e) => match kind {
            Integrand::Distance => fx_div(Fx::from_raw(SCALE), e),
            Integrand::Time => match fx_add(z, Fx::from_raw(SCALE)) {
                Err(er) => Err(er),
                Ok(opz) => match fx_mul(e, opz) {
                    Err(er) => Err(er),
                    Ok(d) => fx_div(Fx::from_raw(SCALE), d),
                },
            },
        },
    }
}

/// The point halfway from `a` to `b`: `a + (b - a) / 2` in checked
/// fixed-point steps.
pub open spec fn spec_midpoint(a: int, b: int) -> Result<int, CosmoError> {
    match spec_sub(b, a) {
        Err(e) => Err(e),
        Ok(d) => match spec_div_int(d, 2) {
            Err(e) => Err(e),
            Ok(d2) => spec_add(a, d2),
        },
    }
}

/// Computes the midpoint, mirroring [`spec_midpoint`].
pub(crate) fn fx_midpoint(a: Fx, b: Fx) -> (out: Result<Fx, CosmoError>)
    ensures
        res_v(out) == spec_midpoint(a@, b@),
{
    match fx_sub(b, a) {
        Err(e) => Err(e),
        Ok(d) => match fx_div_int(d, 2) {
            Err(e) => Err(e),
            Ok(d2) => fx_add(a, d2),
        },
    }
}

/// The single-interval Simpson estimate `((flo + 4 fmid + fhi) * h) / 6`,
/// the division by six taken last so that only one truncation is incurred.
pub open spec fn spec_simpson1(flo: int, fmid: int, fhi: int, h: int) -> Result<int, CosmoError> {
    match spec_scale(fmid, 4) {
        Err(e) => Err(e),
        Ok(m4) => match spec_add(flo, m4) {
            Err(e) => Err(e),
            Ok(s) => match spec_add(s, fhi) {
                Err(e) => Err(e),
                Ok(sum) => match spec_mul(sum, h) {
                    Err(e) => Err(e),
                    Ok(p) => spec_div_int(p, 6),
                },
            },
        },
    }
}

/// Computes the single-interval Simpson estimate, mirroring
/// [`spec_simpson1`].
fn simpson1(flo: Fx, fmid: Fx, fhi: Fx, h: Fx) -> (out: Result<Fx, CosmoError>)
    ensures
        res_v(out) == spec_simpson1(flo@, fmid@, fhi@, h@),
{
    match fx_scale(fmid, 4) {
        Err(e) => Err(e),
        Ok(m4) => match fx_add(flo, m4) {
            Err(e) => Err(e),
            Ok(s) => match fx_add(s, fhi) {
                Err(e) => Err(e),
                Ok(sum) => match fx_mul(sum, h) {
                    Err(e) => Err(e),
                    Ok(p) => fx_div_int(p, 6),
                },
            },
        },
    }
}

/// The composite two-subinterval Simpson estimate
/// `((flo + 4 f1 + 2 fmid + 4 f3 + fhi) * h) / 12`, the division taken
/// last.
pub open spec fn spec_simpson2(flo: int, f1: int, fmid: int, f3: int, fhi: int, h: int) -> Result<
    int,
    CosmoError,
> {
    match spec_scale(f1, 4) {
        Err(e) => Err(e),
        Ok(a4) => match spec_scale(fmid, 2) {
            Err(e) => Err(e),
            Ok(m2) => match spec_scale(f3, 4) {
                Err(e) => Err(e),
                Ok(b4) => match spec_add(flo, a4) {
                    Err(e) => Err(e),
                    Ok(s1) => match spec_add(s1, m2) {
                        Err(e) => Err(e),
                        Ok(s2) => match spec_add(s2, b4) {
                            Err(e) => Err(e),
                            Ok(s3) => match spec_add(s3, fhi) {
                                Err(e) => Err(e),
                                Ok(sum) => match spec_mul(sum, h) {
                                    Err(e) => Err(e),
                                    Ok(p) => spec_div_int(p, 12),
                                },
                            },
                        },
                    },
                },
            },
        },
    }
}

/// Computes the composite Simpson estimate, mirroring [`spec_simpson2`].
fn simpson2(flo: Fx, f1: Fx, fmid: Fx, f3: Fx, fhi: Fx, h: Fx) -> (out: Result<Fx, CosmoError>)
    ensures
        res_v(out) == spec_simpson2(flo@, f1@, fmid@, f3@, fhi@, h@),
{
    match fx_scale(f1, 4) {
        Err(e) => Err(e),
        Ok(a4) => match fx_scale(fmid, 2) {
            Err(e) => Err(e),
            Ok(m2) => match fx_scale(f3, 4) {
                Err(e) => Err(e),
                Ok(b4) => match fx_add(flo, a4) {
                    Err(e) => Err(e),
                    Ok(s1) => match fx_add(s1, m2) {
                        Err(e) => Err(e),
                        Ok(s2) => match fx_add(s2, b4) {
                            Err(e) => Err(e),
                            Ok(s3) => match fx_add(s3, fhi) {
                                Err(e) => Err(e),
                                Ok(sum) => match fx_mul(sum, h) {
                                    Err(e) => Err(e),
                                    Ok(p) => fx_div_int(p, 12),
                                },
                            },
                        },
                    },
                },
            },
        },
    }
}

/// One node of the adaptive subdivision over `[lo, hi]` with precomputed
/// endpoint and midpoint integrand values: evaluate the two quarter points,
/// fail with `IntegrationError` once the width is at or below `min_h`,
/// accept the composite estimate when the two Simpson estimates agree within
/// the pro-rated tolerance `epsd * (hi - lo)`, and otherwise recurse into
/// the two halves and sum.
pub open spec fn spec_quad_rec(
    kind: Integrand,
    om: int,
    ok: int,
    ol: int,
    lo: int,
    flo: int,
    mid: int,
    fmid: int,
    hi: int,
    fhi: int,
    min_h: int,
    epsd: int,
) -> Result<int, CosmoError>
    decreases hi - lo,
{
    if !(min_h >= 4 && lo <= mid <= hi && mid - lo == (hi - lo) / 2) {
        Err(CosmoError::IntegrationError)
    } else {
        match spec_midpoint(lo, mid) {
            Err(e) => Err(e),
            Ok(ml) => match spec_midpoint(mid, hi) {
                Err(e) => Err(e),
                Ok(mr) => match spec_integrand(kind, ml, om, ok, ol) {
                    Err(e) => Err(e),
                    Ok(f1) => match spec_integrand(kind, mr, om, ok, ol) {
                        Err(e) => Err(e),
                        Ok(f3) => match spec_sub(hi, lo) {
                            Err(e) => Err(e),
                            Ok(h) => if h <= min_h {
                                Err(CosmoError::IntegrationError)
                            } else {
                                match spec_simpson1(flo, fmid, fhi, h) {
                                    Err(e) => Err(e),
                                    Ok(s1) => match spec_simpson2(flo, f1, fmid, f3, fhi, h) {
                                        Err(e) => Err(e),
                                        Ok(s2) => match spec_mul(epsd, h) {
                                            Err(e) => Err(e),
                                            Ok(eps) => match spec_sub(s1, s2) {
                                                Err(e) => Err(e),
                                                Ok(d) => match spec_abs(d) {
                                                    Err(e) => Err(e),
                                                    Ok(ad) => if ad < eps {
                                                        Ok(s2)
                                                    } else {
                                                        match spec_quad_rec(
                                                            kind,
                                                            om,
                                                            ok,
                                                            ol,
                                                            lo,
                                                            flo,
                                                            ml,
                                                            f1,
                                                            mid,
                                                            fmid,
                                                            min_h,
                                                            epsd,
                                                        ) {
                                                            Err(e) => Err(e),
                                                            Ok(left) => match spec_quad_rec(
                                                                kind,
                                                                om,
                                                                ok,
                                                                ol,
                                                                mid,
                                                                fmid,
                                                                mr,
                                                                f3,
                                                                hi,
                                                                fhi,
                                                                min_h,
                                                                epsd,
                                                            ) {
                                                                Err(e) => Err(e),
                                                                Ok(right) => spec_add(left, right),
                                                            },
                                                        }
                                                    },
                                                },
                                            },
                                        },
                                    },
                                }
                            },
                        },
                    },
                },
            },
        }
    }
}

/// One node of the adaptive subdivision, mirroring [`spec_quad_rec`].
#[verifier::rlimit(60)]
fn quad_rec(
    kind: Integrand,
    params: CosmologyParameters,
    lo: Fx,
    flo: Fx,
    mid: Fx,
    fmid: Fx,
    hi: Fx,
    fhi: Fx,
    min_h: Fx,
    epsd: Fx,
) -> (out: Result<Fx, CosmoError>)
    requires
        min_h@ >= 4,
        lo@ <= mid@ <= hi@,
        mid@ - lo@ == (hi@ - lo@) / 2,
    ensures
        res_v(out) == spec_quad_rec(
            kind,
            params.omega_m@,
            params.omega_k@,
            params.omega_l@,
            lo@,
            flo@,
            mid@,
            fmid@,
            hi@,
            fhi@,
            min_h@,
            epsd@,
        ),
    decreases hi@ - lo@,
{
    match fx_midpoint(lo, mid) {
        Err(e) => Err(e),
        Ok(ml) => match fx_midpoint(mid, hi) {
            Err(e) => Err(e),
            Ok(mr) => match integrand(kind, ml, params) {
                Err(e) => Err(e),
                Ok(f1) => match integrand(kind, mr, params) {
                    Err(e) => Err(e),
                    Ok(f3) => match fx_sub(hi, lo) {
                        Err(e) => Err(e),
                        Ok(h) => if h.raw() <= min_h.raw() {
                            Err(CosmoError::IntegrationError)
                        } else {
                            match simpson1(flo, fmid, fhi, h) {
                                Err(e) => Err(e),
                                Ok(s1) => match simpson2(flo, f1, fmid, f3, fhi, h) {
                                    Err(e) => Err(e),
                                    Ok(s2) => match fx_mul(epsd, h) {
                                        Err(e) => Err(e),
                                        Ok(eps) => match fx_sub(s1, s2) {
                                            Err(e) => Err(e),
                                            Ok(d) => match fx_abs(d) {
                                                Err(e) => Err(e),
                                                Ok(ad) => if ad.raw() < eps.raw() {
                                                    Ok(s2)
                                                } else {
                                                    match quad_rec(
                                                        kind,
                                                        params,
                                                        lo,
                                                        flo,
                                                        ml,
                                                        f1,
                                                        mid,
                                                        fmid,
                                                        min_h,
                                                        epsd,
                                                    ) {
                                                        Err(e) => Err(e),
                                                        Ok(left) => match quad_rec(
                                                            kind,
                                                            params,
                                                            mid,
                                                            fmid,
                                                            mr,
                                                            f3,
                                                            hi,
                                                            fhi,
                                                            min_h,
                                                            epsd,
                                                        ) {
                                                            Err(e) => Err(e),
                                                            Ok(right) => fx_add(left, right),
                                                        },
                                                    }
                                                },
                                            },
                                        },
                                    },
                                },
                            }
                        },
                    },
                },
            },
        },
    }
}

/// The definite integral of an engine integrand over `[a, b]` by adaptive
/// Simpson quadrature: a pro-rated tolerance `2 * tol * (width / (b - a))`
/// governs acceptance of each subinterval, and reaching a subinterval of
/// width `min_h` before the tolerance is met is an `IntegrationError`, not a
/// best-effort answer. A non-positive tolerance or a minimum width below
/// four raw units is an `InvalidArgument`.
pub open spec fn spec_adaptive_simpson(
    kind: Integrand,
    om: int,
    ok: int,
    ol: int,
    a: int,
    b: int,
    min_h: int,
    tol: int,
) -> Result<int, CosmoError> {
    if min_h < 4 || tol <= 0 {
        Err(CosmoError::InvalidArgument)
    } else {
        match spec_sub(b, a) {
            Err(e) => Err(e),
            Ok(w) => match spec_scale(tol, 2) {
                Err(e) => Err(e),
                Ok(t2) => match spec_div(t2, w) {
                    Err(e) => Err(e),
                    Ok(epsd) => match spec_integrand(kind, a, om, ok, ol) {
                        Err(e) => Err(e),
                        Ok(fa) => match spec_midpoint(a, b) {
                            Err(e) => Err(e),
                            Ok(mid) => match spec_integrand(kind, mid, om, ok, ol) {
                                Err(e) => Err(e),
                                Ok(fm) => match spec_integrand(kind, b, om, ok, ol) {
                                    Err(e) => Err(e),
                                    Ok(fb) => if w <= min_h {
                                        Err(CosmoError::IntegrationError)
                                    } else {
                                        spec_quad_rec(
                                            kind,
                                            om,
                                            ok,
                                            ol,
                                            a,
                                            fa,
                                            mid,
                                            fm,
                                            b,
                                            fb,
                                            min_h,
                                            epsd,
                                        )
                                    },
                                },
                            },
                        },
                    },
                },
            },
        }
    }
}

/// Integrates an engine integrand over `[a, b]`, mirroring
/// [`spec_adaptive_simpson`].
pub fn adaptive_simpson(
    kind: Integrand,
    params: CosmologyParameters,
    a: Fx,
    b: Fx,
    min_h: Fx,
    tol: Fx,
) -> (out: Result<Fx, CosmoError>)
    ensures
        res_v(out) == spec_adaptive_simpson(
            kind,
            params.omega_m@,
            params.omega_k@,
            params.omega_l@,
            a@,
            b@,
            min_h@,
            tol@,
        ),
{
    if min_h.raw() < 4 || tol.raw() <= 0 {
        return Err(CosmoError::InvalidArgument);
    }
    match fx_sub(b, a) {
        Err(e) => Err(e),
        Ok(w) => match fx_scale(tol, 2) {
            Err(e) => Err(e),
            Ok(t2) => match fx_div(t2, w) {
                Err(e) => Err(e),
                Ok(epsd) => match integrand(kind, a, params) {
                    Err(e) => Err(e),
                    Ok(fa) => match fx_midpoint(a, b) {
                        Err(e) => Err(e),
                        Ok(mid) => match integrand(kind, mid, params) {
                            Err(e) => Err(e),
                            Ok(fm) => match integrand(kind, b, params) {
                                Err(e) => Err(e),
                                Ok(fb) => if w.raw() <= min_h.raw() {
                                    Err(CosmoError::IntegrationError)
                                } else {
                                    quad_rec(kind, params, a, fa, mid, fm, b, fb, min_h, epsd)
                                },
                            },
                        },
                    },
                },
            },
        },
    }
}

} // verus!
