use vstd::prelude::*;

use crate::error::CosmoError;
use crate::fixed::{
    fx_abs, fx_add, fx_div, fx_div_int, fx_mul, fx_scale, fx_sqrt, fx_sub, res_v, spec_abs,
    spec_add, spec_div, spec_div_int, spec_mul, spec_scale, spec_sqrt, spec_sub, Fx, SCALE,
};
use crate::params::{spec_curvature, CosmologyParameters, Curvature};
use crate::quad::{adaptive_simpson, spec_adaptive_simpson, Integrand};
use crate::transcend::{fx_log10, fx_sin, fx_sinh, spec_log10, spec_sin, spec_sinh, PI_RAW};

verus! {

/// The speed of light in km/s, in raw units.
pub const SPEED_OF_LIGHT_RAW: i128 = 2_997_924_580_000_000_000;

/// Absolute tolerance of the comoving-distance integral, in raw units
/// (10^-5).
pub const DIST_TOL_RAW: i128 = 100_000_000;

/// Minimum subinterval width of the comoving-distance integral, in raw
/// units (10^-7).
pub const DIST_MIN_H_RAW: i128 = 1_000_000;

/// The distance-modulus offset 25 mag, in raw units.
pub const DIST_MOD_OFFSET_RAW: i128 = 250_000_000_000_000;

/// The Hubble distance `c / H0` in Mpc over raw values; a zero Hubble
/// constant is a `DomainError`.
pub open spec fn spec_hubble_distance(h0: int) -> Result<int, CosmoError> {
    spec_div(SPEED_OF_LIGHT_RAW as int, h0)
}

/// Hubble time multiplied by the speed of light: `c / H0` in Mpc,
/// mirroring [`spec_hubble_distance`].
pub fn hubble_distance(h0: Fx) -> (out: Result<Fx, CosmoError>)
    ensures
        res_v(out) == spec_hubble_distance(h0@),
{
    fx_div(Fx::from_raw(SPEED_OF_LIGHT_RAW), h0)
}

/// The comoving distance `D_C(z) = D_H * integral of 1/E over [0, z]` in
/// Mpc, over raw values. Zero redshift is exactly zero, without invoking the
/// integrator; for any other redshift a failure of the integral (including
/// a redshift too close to zero to resolve) propagates.
pub open spec fn spec_comoving_distance(z: int, om: int, ok: int, ol: int, h0: int) -> Result<
    int,
    CosmoError,
> {
    if z == 0 {
        Ok(0)
    } else {
        match spec_adaptive_simpson(
            Integrand::Distance,
            om,
            ok,
            ol,
            0,
            z,
            DIST_MIN_H_RAW as int,
            DIST_TOL_RAW as int,
        ) {
            Err(e) => Err(e),
            Ok(integ) => match spec_hubble_distance(h0) {
                Err(e) => Err(e),
                Ok(dh) => spec_mul(dh, integ),
            },
        }
    }
}

/// Calculates the comoving distance in Mpc for a single redshift value,
/// mirroring [`spec_comoving_distance`]. At `z == 0` the result is exactly
/// `Ok(0)`.
pub fn comoving_distance(z: Fx, params: CosmologyParameters) -> (out: Result<Fx, CosmoError>)
    ensures
        res_v(out) == spec_comoving_distance(
            z@,
            params.omega_m@,
            params.omega_k@,
            params.omega_l@,
            params.h0@,
        ),
        z@ == 0 ==> res_v(out) == Ok::<int, CosmoError>(0),
{
    if z.raw() == 0 {
        return Ok(Fx::from_raw(0));
    }
    match adaptive_simpson(
        Integrand::Distance,
        params,
        Fx::from_raw(0),
        z,
        Fx::from_raw(DIST_MIN_H_RAW),
        Fx::from_raw(DIST_TOL_RAW),
    ) {
        Err(e) => Err(e),
        Ok(integ) => match hubble_distance(params.h0) {
            Err(e) => Err(e),
            Ok(dh) => fx_mul(dh, integ),
        },
    }
}

/// The transverse comoving distance over raw values, branching on the sign
/// of the curvature density:
/// open, `D_H/sqrt(omega_k) * sinh(sqrt(omega_k) * D_C/D_H)`;
/// closed, `D_H/sqrt(|omega_k|) * sin(sqrt(|omega_k|) * D_C/D_H)`;
/// flat, exactly `D_C`.
pub open spec fn spec_comoving_trans_distance(
    z: int,
    om: int,
    ok: int,
    ol: int,
    h0: int,
) -> Result<int, CosmoError> {
    match spec_comoving_distance(z, om, ok, ol, h0) {
        Err(e) => Err(e),
        Ok(co) => match spec_hubble_distance(h0) {
            Err(e) => Err(e),
            Ok(dh) => match spec_curvature(ok) {
                Curvature::Flat => Ok(co),
                Curvature::Open => match spec_sqrt(ok) {
                    Err(e) => Err(e),
                    Ok(sk) => match spec_div(SCALE as int, sk) {
                        Err(e) => Err(e),
                        Ok(inv) => match spec_div(co, dh) {
                            Err(e) => Err(e),
                            Ok(ratio) => match spec_mul(sk, ratio) {
                                Err(e) => Err(e),
                                Ok(arg) => match spec_sinh(arg) {
                                    Err(e) => Err(e),
                                    Ok(sh) => match spec_mul(dh, inv) {
                                        Err(e) => Err(e),
                                        Ok(t) => spec_mul(t, sh),
                                    },
                                },
                            },
                        },
                    },
                },
                Curvature::Closed => match spec_abs(ok) {
                    Err(e) => Err(e),
                    Ok(ak) => match spec_sqrt(ak) {
                        Err(e) => Err(e),
                        Ok(sk) => match spec_div(SCALE as int, sk) {
                            Err(e) => Err(e),
                            Ok(inv) => match spec_div(co, dh) {
                                Err(e) => Err(e),
                                Ok(ratio) => match spec_mul(sk, ratio) {
                                    Err(e) => Err(e),
                                    Ok(arg) => match spec_sin(arg) {
                                        Err(e) => Err(e),
                                        Ok(sn) => match spec_mul(dh, inv) {
                                            Err(e) => Err(e),
                                            Ok(t) => spec_mul(t, sn),
                                        },
                                    },
                                },
                            },
                        },
                    },
                },
            },
        },
    }
}

/// Comoving transverse distance in Mpc, mirroring
/// [`spec_comoving_trans_distance`]. In a flat universe it equals the
/// comoving distance exactly, no trigonometric transform being applied.
pub fn comoving_trans_distance(z: Fx, params: CosmologyParameters) -> (out: Result<Fx, CosmoError>)
    ensures
        res_v(out) == spec_comoving_trans_distance(
            z@,
            params.omega_m@,
            params.omega_k@,
            params.omega_l@,
            params.h0@,
        ),
{
    let co = match comoving_distance(z, params) {
        Err(e) => {
            return Err(e);
        },
        Ok(v) => v,
    };
    let dh = match hubble_distance(params.h0) {
        Err(e) => {
            return Err(e);
        },
        Ok(v) => v,
    };
    match params.curvature() {
        Curvature::Flat => Ok(co),
        Curvature::Open => match fx_sqrt(params.omega_k) {
            Err(e) => Err(e),
            Ok(sk) => match fx_div(Fx::from_raw(SCALE), sk) {
                Err(e) => Err(e),
                Ok(inv) => match fx_div(co, dh) {
                    Err(e) => Err(e),
                    Ok(ratio) => match fx_mul(sk, ratio) {
                        Err(e) => Err(e),
                        Ok(arg) => match fx_sinh(arg) {
                            Err(e) => Err(e),
                            Ok(sh) => match fx_mul(dh, inv) {
                                Err(e) => Err(e),
                                Ok(t) => fx_mul(t, sh),
                            },
                        },
                    },
                },
            },
        },
        Curvature::Closed => match fx_abs(params.omega_k) {
            Err(e) => Err(e),
            Ok(ak) => match fx_sqrt(ak) {
                Err(e) => Err(e),
                Ok(sk) => match fx_div(Fx::from_raw(SCALE), sk) {
                    Err(e) => Err(e),
                    Ok(inv) => match fx_div(co, dh) {
                        Err(e) => Err(e),
                        Ok(ratio) => match fx_mul(sk, ratio) {
                            Err(e) => Err(e),
                            Ok(arg) => match fx_sin(arg) {
                                Err(e) => Err(e),
                                Ok(sn) => match fx_mul(dh, inv) {
                                    Err(e) => Err(e),
                                    Ok(t) => fx_mul(t, sn),
                                },
                            },
                        },
                    },
                },
            },
        },
    }
}

/// In a flat universe the transverse comoving distance equals the comoving
/// distance exactly for every redshift on which it is defined: no
/// trigonometric transform is applied when `omega_k == 0`.
pub proof fn lemma_flat_transverse_equals_comoving(z: int, om: int, ol: int, h0: int)
    requires
        spec_comoving_trans_distance(z, om, 0, ol, h0) is Ok,
    ensures
        spec_comoving_trans_distance(z, om, 0, ol, h0) == spec_comoving_distance(
            z,
            om,
            0,
            ol,
            h0,
        ),
{
}

/// The distance modulus `5 log10(D_M (1+z)) + 25` over raw values, where
/// `D_M (1+z)` is the luminosity distance in Mpc. A non-positive luminosity
/// distance (in particular `z == 0`) is a `DomainError`, never a silent
/// non-value.
pub open spec fn spec_dist_mod(z: int, om: int, ok: int, ol: int, h0: int) -> Result<
    int,
    CosmoError,
> {
    match spec_comoving_trans_distance(z, om, ok, ol, h0) {
        Err(e) => Err(e),
        Ok(dm) => match spec_add(z, SCALE as int) {
            Err(e) => Err(e),
            Ok(opz) => match spec_mul(dm, opz) {
                Err(e) => Err(e),
                Ok(ld) => match spec_log10(ld) {
                    Err(e) => Err(e),
                    Ok(lg) => match spec_scale(lg, 5) {
                        Err(e) => Err(e),
                        Ok(t5) => spec_add(t5, DIST_MOD_OFFSET_RAW as int),
                    },
                },
            },
        },
    }
}

/// Distance modulus in mag, mirroring [`spec_dist_mod`].
pub fn dist_mod(z: Fx, params: CosmologyParameters) -> (out: Result<Fx, CosmoError>)
    ensures
        res_v(out) == spec_dist_mod(
            z@,
            params.omega_m@,
            params.omega_k@,
            params.omega_l@,
            params.h0@,
        ),
{
    match comoving_trans_distance(z, params) {
        Err(e) => Err(e),
        Ok(dm) => match fx_add(z, Fx::from_raw(SCALE)) {
            Err(e) => Err(e),
            Ok(opz) => match fx_mul(dm, opz) {
                Err(e) => Err(e),
                Ok(ld) => match fx_log10(ld) {
                    Err(e) => Err(e),
                    Ok(lg) => match fx_scale(lg, 5) {
                        Err(e) => Err(e),
                        Ok(t5) => fx_add(t5, Fx::from_raw(DIST_MOD_OFFSET_RAW)),
                    },
                },
            },
        },
    }
}

/// The comoving volume in Mpc^3 over raw values, branching on the curvature
/// sign:
/// flat, the Euclidean ball `(4/3) pi D_M^3`;
/// closed, `(4 pi D_H^3 / (2 omega_k)) * ((D_M/D_H) sqrt(1 + omega_k
/// (D_M/D_H)^2) - asinh(sin(|omega_k|) (D_M/D_H)) / sqrt(|omega_k|))`;
/// open, `D_H / sqrt(omega_k) * sinh(sqrt(omega_k) D_M / D_H)`.
/// The closed and open forms are written exactly as stated here, including
/// the sine of `|omega_k|` in the closed branch; they are deliberately not
/// corrected against textbook derivations.
pub open spec fn spec_comoving_volume(z: int, om: int, ok: int, ol: int, h0: int) -> Result<
    int,
    CosmoError,
> {
    match spec_hubble_distance(h0) {
        Err(e) => Err(e),
        Ok(dh) => match spec_comoving_trans_distance(z, om, ok, ol, h0) {
            Err(e) => Err(e),
            Ok(dm) => match spec_curvature(ok) {
                Curvature::Flat => match spec_scale(PI_RAW as int, 4) {
                    Err(e) => Err(e),
                    Ok(p4) => match spec_div_int(p4, 3) {
                        Err(e) => Err(e),
                        Ok(c43) => match spec_mul(dm, dm) {
                            Err(e) => Err(e),
                            Ok(d2) => match spec_mul(d2, dm) {
                                Err(e) => Err(e),
                                Ok(d3) => spec_mul(c43, d3),
                            },
                        },
                    },
                },
                Curvature::Closed => match spec_div(dm, dh) {
                    Err(e) => Err(e),
                    Ok(ratio) => match spec_mul(ratio, ratio) {
                        Err(e) => Err(e),
                        Ok(r2) => match spec_mul(ok, r2) {
                            Err(e) => Err(e),
                            Ok(t1) => match spec_add(SCALE as int, t1) {
                                Err(e) => Err(e),
                                Ok(rad) => match spec_sqrt(rad) {
                                    Err(e) => Err(e),
                                    Ok(sq) => match spec_mul(ratio, sq) {
                                        Err(e) => Err(e),
                                        Ok(term1) => match spec_abs(ok) {
                                            Err(e) => Err(e),
                                            Ok(ak) => match spec_sqrt(ak) {
                                                Err(e) => Err(e),
                                                Ok(sak) => match spec_div(SCALE as int, sak) {
                                                    Err(e) => Err(e),
                                                    Ok(inv) => match spec_sin(ak) {
                                                        Err(e) => Err(e),
                                                        Ok(sn) => match spec_mul(sn, ratio) {
                                                            Err(e) => Err(e),
                                                            Ok(sarg) => match crate::transcend::spec_asinh(sarg) {
                                                                Err(e) => Err(e),
                                                                Ok(ash) => match spec_mul(inv, ash) {
                                                                    Err(e) => Err(e),
                                                                    Ok(term2) => match spec_sub(term1, term2) {
                                                                        Err(e) => Err(e),
                                                                        Ok(brack) => match spec_mul(dh, dh) {
                                                                            Err(e) => Err(e),
                                                                            Ok(h2) => match spec_mul(h2, dh) {
                                                                                Err(e) => Err(e),
                                                                                Ok(h3) => match spec_scale(PI_RAW as int, 4) {
                                                                                    Err(e) => Err(e),
                                                                                    Ok(p4) => match spec_mul(p4, h3) {
                                                                                        Err(e) => Err(e),
                                                                                        Ok(num) => match spec_scale(ok, 2) {
                                                                                            Err(e) => Err(e),
                                                                                            Ok(den) => match spec_div(num, den) {
                                                                                                Err(e) => Err(e),
                                                                                                Ok(pref) => spec_mul(pref, brack),
                                                                                            },
                                                                                        },
                                                                                    },
                                                                                },
                                                                            },
                                                                        },
                                                                    },
                                                                },
                                                            },
                                                        },
                                                    },
                                                },
                                            },
                                        },
                                    },
                                },
                            },
                        },
                    },
                },
                Curvature::Open => match spec_sqrt(ok) {
                    Err(e) => Err(e),
                    Ok(sk) => match spec_div(SCALE as int, sk) {
                        Err(e) => Err(e),
                        Ok(inv) => match spec_mul(sk, dm) {
                            Err(e) => Err(e),
                            Ok(t) => match spec_div(t, dh) {
                                Err(e) => Err(e),
                                Ok(arg) => match spec_sinh(arg) {
                                    Err(e) => Err(e),
                                    Ok(sh) => match spec_mul(dh, inv) {
                                        Err(e) => Err(e),
                                        Ok(a) => spec_mul(a, sh),
                                    },
                                },
                            },
                        },
                    },
                },
            },
        },
    }
}

/// Comoving volume in Mpc^3, mirroring [`spec_comoving_volume`].
pub fn comoving_volume(z: Fx, params: CosmologyParameters) -> (out: Result<Fx, CosmoError>)
    ensures
        res_v(out) == spec_comoving_volume(
            z@,
            params.omega_m@,
            params.omega_k@,
            params.omega_l@,
            params.h0@,
        ),
{
    let dh = match hubble_distance(params.h0) {
        Err(e) => {
            return Err(e);
        },
        Ok(v) => v,
    };
    let dm = match comoving_trans_distance(z, params) {
        Err(e) => {
            return Err(e);
        },
        Ok(v) => v,
    };
    match params.curvature() {
        Curvature::Flat => match fx_scale(Fx::from_raw(PI_RAW), 4) {
            Err(e) => Err(e),
            Ok(p4) => match fx_div_int(p4, 3) {
                Err(e) => Err(e),
                Ok(c43) => match fx_mul(dm, dm) {
                    Err(e) => Err(e),
                    Ok(d2) => match fx_mul(d2, dm) {
                        Err(e) => Err(e),
                        Ok(d3) => fx_mul(c43, d3),
                    },
                },
            },
        },
        Curvature::Closed => match fx_div(dm, dh) {
            Err(e) => Err(e),
            Ok(ratio) => match fx_mul(ratio, ratio) {
                Err(e) => Err(e),
                Ok(r2) => match fx_mul(params.omega_k, r2) {
                    Err(e) => Err(e),
                    Ok(t1) => match fx_add(Fx::from_raw(SCALE), t1) {
                        Err(e) => Err(e),
                        Ok(rad) => match fx_sqrt(rad) {
                            Err(e) => Err(e),
                            Ok(sq) => match fx_mul(ratio, sq) {
                                Err(e) => Err(e),
                                Ok(term1) => match fx_abs(params.omega_k) {
                                    Err(e) => Err(e),
                                    Ok(ak) => match fx_sqrt(ak) {
                                        Err(e) => Err(e),
                                        Ok(sak) => match fx_div(Fx::from_raw(SCALE), sak) {
                                            Err(e) => Err(e),
                                            Ok(inv) => match fx_sin(ak) {
                                                Err(e) => Err(e),
                                                Ok(sn) => match fx_mul(sn, ratio) {
                                                    Err(e) => Err(e),
                                                    Ok(sarg) => match crate::transcend::fx_asinh(
                                                        sarg,
                                                    ) {
                                                        Err(e) => Err(e),
                                                        Ok(ash) => match fx_mul(inv, ash) {
                                                            Err(e) => Err(e),
                                                            Ok(term2) => match fx_sub(
                                                                term1,
                                                                term2,
                                                            ) {
                                                                Err(e) => Err(e),
                                                                Ok(brack) => match fx_mul(dh, dh) {
                                                                    Err(e) => Err(e),
                                                                    Ok(h2) => match fx_mul(h2, dh) {
                                                                        Err(e) => Err(e),
                                                                        Ok(h3) => match fx_scale(
                                                                            Fx::from_raw(PI_RAW),
                                                                            4,
                                                                        ) {
                                                                            Err(e) => Err(e),
                                                                            Ok(p4) => match fx_mul(
                                                                                p4,
                                                                                h3,
                                                                            ) {
                                                                                Err(e) => Err(e),
                                                                                Ok(num) => match fx_scale(
                                                                                    params.omega_k,
                                                                                    2,
                                                                                ) {
                                                                                    Err(e) => Err(
                                                                                        e,
                                                                                    ),
                                                                                    Ok(den) => match fx_div(
                                                                                        num,
                                                                                        den,
                                                                                    ) {
                                                                                        Err(e) => Err(
                                                                                            e,
                                                                                        ),
                                                                                        Ok(
                                                                                            pref,
                                                                                        ) => fx_mul(
                                                                                            pref,
                                                                                            brack,
                                                                                        ),
                                                                                    },
                                                                                },
                                                                            },
                                                                        },
                                                                    },
                                                                },
                                                            },
                                                        },
                                                    },
                                                },
                                            },
                                        },
                                    },
                                },
                            },
                        },
                    },
                },
            },
        },
        Curvature::Open => match fx_sqrt(params.omega_k) {
            Err(e) => Err(e),
            Ok(sk) => match fx_div(Fx::from_raw(SCALE), sk) {
                Err(e) => Err(e),
                Ok(inv) => match fx_mul(sk, dm) {
                    Err(e) => Err(e),
                    Ok(t) => match fx_div(t, dh) {
                        Err(e) => Err(e),
                        Ok(arg) => match fx_sinh(arg) {
                            Err(e) => Err(e),
                            Ok(sh) => match fx_mul(dh, inv) {
                                Err(e) => Err(e),
                                Ok(a) => fx_mul(a, sh),
                            },
                        },
                    },
                },
            },
        },
    }
}

} // verus!
