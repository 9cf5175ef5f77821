use vstd::prelude::*;

use crate::error::CosmoError;
use crate::fixed::{
    fx_abs, fx_add, fx_div, fx_div_int, fx_mul, fx_scale, fx_sub, res_v, spec_abs, spec_add,
    spec_div, spec_div_int, spec_mul, spec_scale, spec_sub, Fx,
};
use crate::params::CosmologyParameters;
use crate::quad::{fx_midpoint, spec_midpoint};
use crate::time::{spec_universe_age, spec_universe_age_now, universe_age, universe_age_now};

verus! {

/// Lower end of the fixed root bracket: redshift 10^-9, in raw units.
pub const BRACKET_LO_RAW: i128 = 10_000;

/// Upper end of the fixed root bracket: redshift 1500, in raw units.
pub const BRACKET_HI_RAW: i128 = 15_000_000_000_000_000;

/// Convergence tolerance of the root search, for both axes (10^-8), in raw
/// units.
pub const BRENT_EPS_RAW: i128 = 100_000;

/// Bound on the number of root-search iterations. The search converges
/// superlinearly while the interpolation step is meaningful; once the
/// residual approaches the granularity of the fixed-point representation
/// the search degrades to bisection, which needs a few tens of halvings of
/// the bracket, so the bound is set well above that.
pub const BRENT_MAX_ITER: u32 = 60;

/// The residual whose root is sought: `age(z) - target`, in Gyr over raw
/// values.
pub open spec fn spec_age_delta(z: int, target: int, om: int, ok: int, ol: int, h0: int) -> Result<
    int,
    CosmoError,
> {
    match spec_universe_age(z, om, ok, ol, h0) {
        Err(e) => Err(e),
        Ok(a) => spec_sub(a, target),
    }
}

/// Evaluates the residual, mirroring [`spec_age_delta`].
fn age_delta(z: Fx, target: Fx, params: CosmologyParameters) -> (out: Result<Fx, CosmoError>)
    ensures
        res_v(out) == spec_age_delta(
            z@,
            target@,
            params.omega_m@,
            params.omega_k@,
            params.omega_l@,
            params.h0@,
        ),
{
    match universe_age(z, params) {
        Err(e) => Err(e),
        Ok(a) => fx_sub(a, target),
    }
}

/// The candidate point of one root-search step: inverse quadratic
/// interpolation through the three samples when all residuals differ from
/// `yc`, the secant through `(a, ya)` and `(b, yb)` otherwise. Any failure
/// (a zero denominator or an out-of-range intermediate) makes the caller
/// take the bisection step instead.
pub open spec fn spec_interp_step(a: int, ya: int, b: int, yb: int, c: int, yc: int) -> Result<
    int,
    CosmoError,
> {
    if ya != yc && yb != yc {
        match spec_mul(a, yb) {
            Err(e) => Err(e),
            Ok(n1a) => match spec_mul(n1a, yc) {
                Err(e) => Err(e),
                Ok(n1) => match spec_sub(ya, yb) {
                    Err(e) => Err(e),
                    Ok(dab) => match spec_sub(ya, yc) {
                        Err(e) => Err(e),
                        Ok(dac) => match spec_mul(dab, dac) {
                            Err(e) => Err(e),
                            Ok(d1) => match spec_div(n1, d1) {
                                Err(e) => Err(e),
                                Ok(t1) => match spec_mul(b, ya) {
                                    Err(e) => Err(e),
                                    Ok(n2a) => match spec_mul(n2a, yc) {
                                        Err(e) => Err(e),
                                        Ok(n2) => match spec_sub(yb, ya) {
                                            Err(e) => Err(e),
                                            Ok(dba) => match spec_sub(yb, yc) {
                                                Err(e) => Err(e),
                                                Ok(dbc) => match spec_mul(dba, dbc) {
                                                    Err(e) => Err(e),
                                                    Ok(d2) => match spec_div(n2, d2) {
                                                        Err(e) => Err(e),
                                                        Ok(t2) => match spec_mul(c, ya) {
                                                            Err(e) => Err(e),
                                                            Ok(n3a) => match spec_mul(n3a, yb) {
                                                                Err(e) => Err(e),
                                                                Ok(n3) => match spec_sub(yc, ya) {
                                                                    Err(e) => Err(e),
                                                                    Ok(dca) => match spec_sub(yc, yb) {
                                                                        Err(e) => Err(e),
                                                                        Ok(dcb) => match spec_mul(dca, dcb) {
                                                                            Err(e) => Err(e),
                                                                            Ok(d3) => match spec_div(n3, d3) {
                                                                                Err(e) => Err(e),
                                                                                Ok(t3) => match spec_add(t1, t2) {
                                                                                    Err(e) => Err(e),
                                                                                    Ok(t12) => spec_add(t12, t3),
                                                                                },
                                                                            },
                                                                        },
                                                                    },
                                                                },
                                                            },
                                                        },
                                                    },
                                                },
                                            },
                                        },
                                    },
                                },
                            },
                        },
                    },
                },
            },
        }
    } else {
        match spec_sub(b, a) {
            Err(e) => Err(e),
            Ok(d) => match spec_mul(yb, d) {
                Err(e) => Err(e),
                Ok(n) => match spec_sub(yb, ya) {
                    Err(e) => Err(e),
                    Ok(dy) => match spec_div(n, dy) {
                        Err(e) => Err(e),
                        Ok(q) => spec_sub(b, q),
                    },
                },
            },
        }
    }
}

/// Computes the candidate point, mirroring [`spec_interp_step`].
fn interp_step(a: Fx, ya: Fx, b: Fx, yb: Fx, c: Fx, yc: Fx) -> (out: Result<Fx, CosmoError>)
    ensures
        res_v(out) == spec_interp_step(a@, ya@, b@, yb@, c@, yc@),
{
    if ya.raw() != yc.raw() && yb.raw() != yc.raw() {
        match fx_mul(a, yb) {
            Err(e) => Err(e),
            Ok(n1a) => match fx_mul(n1a, yc) {
                Err(e) => Err(e),
                Ok(n1) => match fx_sub(ya, yb) {
                    Err(e) => Err(e),
                    Ok(dab) => match fx_sub(ya, yc) {
                        Err(e) => Err(e),
                        Ok(dac) => match fx_mul(dab, dac) {
                            Err(e) => Err(e),
                            Ok(d1) => match fx_div(n1, d1) {
                                Err(e) => Err(e),
                                Ok(t1) => match fx_mul(b, ya) {
                                    Err(e) => Err(e),
                                    Ok(n2a) => match fx_mul(n2a, yc) {
                                        Err(e) => Err(e),
                                        Ok(n2) => match fx_sub(yb, ya) {
                                            Err(e) => Err(e),
                                            Ok(dba) => match fx_sub(yb, yc) {
                                                Err(e) => Err(e),
                                                Ok(dbc) => match fx_mul(dba, dbc) {
                                                    Err(e) => Err(e),
                                                    Ok(d2) => match fx_div(n2, d2) {
                                                        Err(e) => Err(e),
                                                        Ok(t2) => match fx_mul(c, ya) {
                                                            Err(e) => Err(e),
                                                            Ok(n3a) => match fx_mul(n3a, yb) {
                                                                Err(e) => Err(e),
                                                                Ok(n3) => match fx_sub(yc, ya) {
                                                                    Err(e) => Err(e),
                                                                    Ok(dca) => match fx_sub(
                                                                        yc,
                                                                        yb,
                                                                    ) {
                                                                        Err(e) => Err(e),
                                                                        Ok(dcb) => match fx_mul(
                                                                            dca,
                                                                            dcb,
                                                                        ) {
                                                                            Err(e) => Err(e),
                                                                            Ok(d3) => match fx_div(
                                                                                n3,
                                                                                d3,
                                                                            ) {
                                                                                Err(e) => Err(e),
                                                                                Ok(t3) => match fx_add(
                                                                                    t1,
                                                                                    t2,
                                                                                ) {
                                                                                    Err(e) => Err(
                                                                                        e,
                                                                                    ),
                                                                                    Ok(
                                                                                        t12,
                                                                                    ) => fx_add(
                                                                                        t12,
                                                                                        t3,
                                                                                    ),
                                                                                },
                                                                            },
                                                                        },
                                                                    },
                                                                },
                                                            },
                                                        },
                                                    },
                                                },
                                            },
                                        },
                                    },
                                },
                            },
                        },
                    },
                },
            },
        }
    } else {
        match fx_sub(b, a) {
            Err(e) => Err(e),
            Ok(d) => match fx_mul(yb, d) {
                Err(e) => Err(e),
                Ok(n) => match fx_sub(yb, ya) {
                    Err(e) => Err(e),
                    Ok(dy) => match fx_div(n, dy) {
                        Err(e) => Err(e),
                        Ok(q) => fx_sub(b, q),
                    },
                },
            },
        }
    }
}

/// Whether the candidate `s` must be replaced by the bisection point: it
/// falls outside the interval between `b` and `(3a+b)/4`, it moves less
/// than half the previous step, or the bracket has already converged.
/// A failure of this evaluation (an interpolation candidate so far outside
/// the bracket that a product leaves the representation) makes the caller
/// take the bisection step as well.
pub open spec fn spec_bisect_cond(
    s: int,
    a: int,
    b: int,
    c: int,
    d: int,
    flag: bool,
) -> Result<bool, CosmoError> {
    match spec_scale(a, 3) {
        Err(e) => Err(e),
        Ok(a3) => match spec_add(a3, b) {
            Err(e) => Err(e),
            Ok(q4) => match spec_div_int(q4, 4) {
                Err(e) => Err(e),
                Ok(q) => match spec_sub(s, b) {
                    Err(e) => Err(e),
                    Ok(sb) => match spec_sub(s, q) {
                        Err(e) => Err(e),
                        Ok(sq) => match spec_mul(sb, sq) {
                            Err(e) => Err(e),
                            Ok(p1) => match spec_abs(sb) {
                                Err(e) => Err(e),
                                Ok(asb) => match spec_sub(b, c) {
                                    Err(e) => Err(e),
                                    Ok(bc) => match spec_abs(bc) {
                                        Err(e) => Err(e),
                                        Ok(abc) => match spec_div_int(abc, 2) {
                                            Err(e) => Err(e),
                                            Ok(hbc) => match spec_sub(c, d) {
                                                Err(e) => Err(e),
                                                Ok(cd) => match spec_abs(cd) {
                                                    Err(e) => Err(e),
                                                    Ok(acd) => match spec_div_int(acd, 2) {
                                                        Err(e) => Err(e),
                                                        Ok(hcd) => Ok(
                                                            (p1 > 0) || (flag && asb >= hbc) || (
                                                            !flag && asb >= hcd) || (flag && abc
                                                                < BRENT_EPS_RAW) || (!flag && acd
                                                                < BRENT_EPS_RAW),
                                                        ),
                                                    },
                                                },
                                            },
                                        },
                                    },
                                },
                            },
                        },
                    },
                },
            },
        },
    }
}

/// Evaluates the bisection conditions, mirroring [`spec_bisect_cond`].
fn bisect_cond(s: Fx, a: Fx, b: Fx, c: Fx, d: Fx, flag: bool) -> (out: Result<bool, CosmoError>)
    ensures
        out is Ok ==> spec_bisect_cond(s@, a@, b@, c@, d@, flag) == Ok::<bool, CosmoError>(
            out->Ok_0,
        ),
        out is Err ==> spec_bisect_cond(s@, a@, b@, c@, d@, flag) == Err::<bool, CosmoError>(
            out->Err_0,
        ),
{
    match fx_scale(a, 3) {
        Err(e) => Err(e),
        Ok(a3) => match fx_add(a3, b) {
            Err(e) => Err(e),
            Ok(q4) => match fx_div_int(q4, 4) {
                Err(e) => Err(e),
                Ok(q) => match fx_sub(s, b) {
                    Err(e) => Err(e),
                    Ok(sb) => match fx_sub(s, q) {
                        Err(e) => Err(e),
                        Ok(sq) => match fx_mul(sb, sq) {
                            Err(e) => Err(e),
                            Ok(p1) => match fx_abs(sb) {
                                Err(e) => Err(e),
                                Ok(asb) => match fx_sub(b, c) {
                                    Err(e) => Err(e),
                                    Ok(bc) => match fx_abs(bc) {
                                        Err(e) => Err(e),
                                        Ok(abc) => match fx_div_int(abc, 2) {
                                            Err(e) => Err(e),
                                            Ok(hbc) => match fx_sub(c, d) {
                                                Err(e) => Err(e),
                                                Ok(cd) => match fx_abs(cd) {
                                                    Err(e) => Err(e),
                                                    Ok(acd) => match fx_div_int(acd, 2) {
                                                        Err(e) => Err(e),
                                                        Ok(hcd) => Ok(
                                                            (p1.raw() > 0) || (flag && asb.raw()
                                                                >= hbc.raw()) || (!flag
                                                                && asb.raw() >= hcd.raw()) || (
                                                            flag && abc.raw() < BRENT_EPS_RAW) || (
                                                            !flag && acd.raw() < BRENT_EPS_RAW),
                                                        ),
                                                    },
                                                },
                                            },
                                        },
                                    },
                                },
                            },
                        },
                    },
                },
            },
        },
    }
}

/// One round of the bracketed search, recursing until a root is found, the
/// bracket converges, or the iteration bound is reached (in which case the
/// fallback value 0 is returned). The three samples `(a, ya)`, `(b, yb)`,
/// `(c, yc)` and the previous point `d` evolve as in the Brent scheme:
/// interpolate or bisect, evaluate the residual at the candidate, keep the
/// half-bracket with the sign change, and order the endpoints so that `b`
/// holds the smaller residual. Any arithmetic failure while choosing the
/// candidate degrades to the bisection step; only failures of the residual
/// itself propagate.
pub open spec fn spec_brent_loop(
    target: int,
    om: int,
    ok: int,
    ol: int,
    h0: int,
    a: int,
    ya: int,
    b: int,
    yb: int,
    c: int,
    yc: int,
    d: int,
    flag: bool,
    iter: int,
) -> Result<int, CosmoError>
    decreases BRENT_MAX_ITER - iter,
{
    match spec_abs(ya) {
        Err(e) => Err(e),
        Ok(aya) => if aya < BRENT_EPS_RAW {
            Ok(a)
        } else {
            match spec_abs(yb) {
                Err(e) => Err(e),
                Ok(ayb) => if ayb < BRENT_EPS_RAW {
                    Ok(b)
                } else {
                    match spec_sub(a, b) {
                        Err(e) => Err(e),
                        Ok(ab) => match spec_abs(ab) {
                            Err(e) => Err(e),
                            Ok(aab) => if aab < BRENT_EPS_RAW {
                                Ok(c)
                            } else {
                                let cand = spec_interp_step(a, ya, b, yb, c, yc);
                                match (match cand {
                                    Err(_) => match spec_midpoint(a, b) {
                                        Err(e) => Err(e),
                                        Ok(m) => Ok((m, true)),
                                    },
                                    Ok(s0) => match spec_bisect_cond(s0, a, b, c, d, flag) {
                                        Err(_) => match spec_midpoint(a, b) {
                                            Err(e) => Err(e),
                                            Ok(m) => Ok((m, true)),
                                        },
                                        Ok(cond) => if cond {
                                            match spec_midpoint(a, b) {
                                                Err(e) => Err(e),
                                                Ok(m) => Ok((m, true)),
                                            }
                                        } else {
                                            Ok((s0, false))
                                        },
                                    },
                                }) {
                                    Err(e) => Err(e),
                                    Ok((s, flag2)) => match spec_age_delta(
                                        s,
                                        target,
                                        om,
                                        ok,
                                        ol,
                                        h0,
                                    ) {
                                        Err(e) => Err(e),
                                        Ok(ys) => match spec_mul(ya, ys) {
                                            Err(e) => Err(e),
                                            Ok(pr) => {
                                                let (na0, nya0, nb0, nyb0) = if pr < 0 {
                                                    (a, ya, s, ys)
                                                } else {
                                                    (s, ys, b, yb)
                                                };
                                                match spec_abs(nya0) {
                                                    Err(e) => Err(e),
                                                    Ok(a0) => match spec_abs(nyb0) {
                                                        Err(e) => Err(e),
                                                        Ok(a1) => {
                                                            let (na, nya, nb, nyb) = if a0 > a1 {
                                                                (na0, nya0, nb0, nyb0)
                                                            } else {
                                                                (nb0, nyb0, na0, nya0)
                                                            };
                                                            if iter + 1 >= BRENT_MAX_ITER {
                                                                Ok(0)
                                                            } else {
                                                                spec_brent_loop(
                                                                    target,
                                                                    om,
                                                                    ok,
                                                                    ol,
                                                                    h0,
                                                                    na,
                                                                    nya,
                                                                    nb,
                                                                    nyb,
                                                                    b,
                                                                    yb,
                                                                    c,
                                                                    flag2,
                                                                    iter + 1,
                                                                )
                                                            }
                                                        },
                                                    },
                                                }
                                            },
                                        },
                                    },
                                }
                            },
                        },
                    }
                },
            }
        },
    }
}

/// One round of the bracketed search, mirroring [`spec_brent_loop`].
#[verifier::rlimit(60)]
fn brent_loop(
    target: Fx,
    params: CosmologyParameters,
    a: Fx,
    ya: Fx,
    b: Fx,
    yb: Fx,
    c: Fx,
    yc: Fx,
    d: Fx,
    flag: bool,
    iter: u32,
) -> (out: Result<Fx, CosmoError>)
    requires
        iter <= BRENT_MAX_ITER,
    ensures
        res_v(out) == spec_brent_loop(
            target@,
            params.omega_m@,
            params.omega_k@,
            params.omega_l@,
            params.h0@,
            a@,
            ya@,
            b@,
            yb@,
            c@,
            yc@,
            d@,
            flag,
            iter as int,
        ),
    decreases BRENT_MAX_ITER - iter,
{
    match fx_abs(ya) {
        Err(e) => Err(e),
        Ok(aya) => if aya.raw() < BRENT_EPS_RAW {
            Ok(a)
        } else {
            match fx_abs(yb) {
                Err(e) => Err(e),
                Ok(ayb) => if ayb.raw() < BRENT_EPS_RAW {
                    Ok(b)
                } else {
                    match fx_sub(a, b) {
                        Err(e) => Err(e),
                        Ok(ab) => match fx_abs(ab) {
                            Err(e) => Err(e),
                            Ok(aab) => if aab.raw() < BRENT_EPS_RAW {
                                Ok(c)
                            } else {
                                let picked: Result<(Fx, bool), CosmoError> = match interp_step(
                                    a,
                                    ya,
                                    b,
                                    yb,
                                    c,
                                    yc,
                                ) {
                                    Err(_) => match fx_midpoint(a, b) {
                                        Err(e) => Err(e),
                                        Ok(m) => Ok((m, true)),
                                    },
                                    Ok(s0) => match bisect_cond(s0, a, b, c, d, flag) {
                                        Err(_) => match fx_midpoint(a, b) {
                                            Err(e) => Err(e),
                                            Ok(m) => Ok((m, true)),
                                        },
                                        Ok(cond) => if cond {
                                            match fx_midpoint(a, b) {
                                                Err(e) => Err(e),
                                                Ok(m) => Ok((m, true)),
                                            }
                                        } else {
                                            Ok((s0, false))
                                        },
                                    },
                                };
                                match picked {
                                    Err(e) => Err(e),
                                    Ok((s, flag2)) => match age_delta(s, target, params) {
                                        Err(e) => Err(e),
                                        Ok(ys) => match fx_mul(ya, ys) {
                                            Err(e) => Err(e),
                                            Ok(pr) => {
                                                let (na0, nya0, nb0, nyb0) = if pr.raw() < 0 {
                                                    (a, ya, s, ys)
                                                } else {
                                                    (s, ys, b, yb)
                                                };
                                                match fx_abs(nya0) {
                                                    Err(e) => Err(e),
                                                    Ok(a0) => match fx_abs(nyb0) {
                                                        Err(e) => Err(e),
                                                        Ok(a1) => {
                                                            let (na, nya, nb, nyb) = if a0.raw()
                                                                > a1.raw() {
                                                                (na0, nya0, nb0, nyb0)
                                                            } else {
                                                                (nb0, nyb0, na0, nya0)
                                                            };
                                                            if iter + 1 >= BRENT_MAX_ITER {
                                                                Ok(Fx::from_raw(0))
                                                            } else {
                                                                brent_loop(
                                                                    target,
                                                                    params,
                                                                    na,
                                                                    nya,
                                                                    nb,
                                                                    nyb,
                                                                    b,
                                                                    yb,
                                                                    c,
                                                                    flag2,
                                                                    iter + 1,
                                                                )
                                                            }
                                                        },
                                                    },
                                                }
                                            },
                                        },
                                    },
                                }
                            },
                        },
                    }
                },
            }
        },
    }
}

/// The redshift whose universe age equals `target`, over raw values: after
/// the age now is computed, a target above it or below zero is an
/// `InvalidArgument`; otherwise the residual is searched for a root over
/// the fixed bracket. A bracket without a sign change, or a search that
/// exhausts its iteration bound, yields the recoverable fallback value 0
/// rather than a failure.
pub open spec fn spec_inverse_age(target: int, om: int, ok: int, ol: int, h0: int) -> Result<
    int,
    CosmoError,
> {
    match spec_universe_age_now(om, ok, ol, h0) {
        Err(e) => Err(e),
        Ok(an) => if target > an {
            Err(CosmoError::InvalidArgument)
        } else if target < 0 {
            Err(CosmoError::InvalidArgument)
        } else {
            match spec_age_delta(BRACKET_LO_RAW as int, target, om, ok, ol, h0) {
                Err(e) => Err(e),
                Ok(ylo) => match spec_age_delta(BRACKET_HI_RAW as int, target, om, ok, ol, h0) {
                    Err(e) => Err(e),
                    Ok(yhi) => match spec_abs(ylo) {
                        Err(e) => Err(e),
                        Ok(alo) => match spec_abs(yhi) {
                            Err(e) => Err(e),
                            Ok(ahi) => {
                                let (a, ya, b, yb) = if alo > ahi {
                                    (BRACKET_LO_RAW as int, ylo, BRACKET_HI_RAW as int, yhi)
                                } else {
                                    (BRACKET_HI_RAW as int, yhi, BRACKET_LO_RAW as int, ylo)
                                };
                                match spec_mul(ya, yb) {
                                    Err(e) => Err(e),
                                    Ok(pr) => if pr > 0 {
                                        Ok(0)
                                    } else {
                                        spec_brent_loop(
                                            target,
                                            om,
                                            ok,
                                            ol,
                                            h0,
                                            a,
                                            ya,
                                            b,
                                            yb,
                                            a,
                                            ya,
                                            a,
                                            true,
                                            0,
                                        )
                                    },
                                }
                            },
                        },
                    },
                },
            }
        },
    }
}

/// The redshift at which the universe has the given age in Gyr, mirroring
/// [`spec_inverse_age`]. A target age above the current age of the
/// universe, or a negative target age, is an `InvalidArgument`; an
/// unbracketed or unconverged search degrades to the fallback value 0.
pub fn inverse_age(target: Fx, params: CosmologyParameters) -> (out: Result<Fx, CosmoError>)
    ensures
        res_v(out) == spec_inverse_age(
            target@,
            params.omega_m@,
            params.omega_k@,
            params.omega_l@,
            params.h0@,
        ),
        (spec_universe_age_now(params.omega_m@, params.omega_k@, params.omega_l@, params.h0@)
            matches Ok(an) && target@ > an) ==> out == Err::<Fx, CosmoError>(
            CosmoError::InvalidArgument,
        ),
        (spec_universe_age_now(params.omega_m@, params.omega_k@, params.omega_l@, params.h0@) is Ok
            && target@ < 0) ==> out == Err::<Fx, CosmoError>(CosmoError::InvalidArgument),
{
    match universe_age_now(params) {
        Err(e) => Err(e),
        Ok(an) => if target.raw() > an.raw() {
            Err(CosmoError::InvalidArgument)
        } else if target.raw() < 0 {
            Err(CosmoError::InvalidArgument)
        } else {
            match age_delta(Fx::from_raw(BRACKET_LO_RAW), target, params) {
                Err(e) => Err(e),
                Ok(ylo) => match age_delta(Fx::from_raw(BRACKET_HI_RAW), target, params) {
                    Err(e) => Err(e),
                    Ok(yhi) => match fx_abs(ylo) {
                        Err(e) => Err(e),
                        Ok(alo) => match fx_abs(yhi) {
                            Err(e) => Err(e),
                            Ok(ahi) => {
                                let (a, ya, b, yb) = if alo.raw() > ahi.raw() {
                                    (Fx::from_raw(BRACKET_LO_RAW), ylo, Fx::from_raw(
                                        BRACKET_HI_RAW,
                                    ), yhi)
                                } else {
                                    (Fx::from_raw(BRACKET_HI_RAW), yhi, Fx::from_raw(
                                        BRACKET_LO_RAW,
                                    ), ylo)
                                };
                                match fx_mul(ya, yb) {
                                    Err(e) => Err(e),
                                    Ok(pr) => if pr.raw() > 0 {
                                        Ok(Fx::from_raw(0))
                                    } else {
                                        brent_loop(
                                            target,
                                            params,
                                            a,
                                            ya,
                                            b,
                                            yb,
                                            a,
                                            ya,
                                            a,
                                            true,
                                            0,
                                        )
                                    },
                                }
                            },
                        },
                    },
                },
            }
        },
    }
}

} // verus!
