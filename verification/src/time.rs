use vstd::prelude::*;

use crate::error::CosmoError;
use crate::fixed::{fx_div, fx_mul, fx_scale, fx_sub, res_v, spec_div, spec_mul, spec_scale,
    spec_sub, Fx};
use crate::params::CosmologyParameters;
use crate::quad::{adaptive_simpson, spec_adaptive_simpson, Integrand};

verus! {

/// Absolute tolerance of the time integrals, in raw units (10^-7).
pub const TIME_TOL_RAW: i128 = 1_000_000;

/// Minimum subinterval width of the time integrals, in raw units (10^-10);
/// a redshift at or below this threshold has lookback time exactly zero.
pub const TIME_MIN_H_RAW: i128 = 1_000;

/// Upper integration bound standing in for infinity in the age integral:
/// redshift 1200, past which the integrand decays below the tolerance.
pub const AGE_UPPER_RAW: i128 = 12_000_000_000_000_000;

/// Kilometres per megaparsec divided by (seconds per year times 10^9):
/// `3.08568025e19 / 31556926 / 1e9 = 3.08568025e10 / 31556926`, the
/// numerator of the gigayear conversion factor, in raw units.
pub const GYR_NUM_RAW: i128 = 308_568_025_000_000_000_000_000;

/// Seconds per year, as the exact integer factor of the gigayear
/// conversion.
pub const SECONDS_PER_YEAR: i128 = 31_556_926;

/// The factor turning the dimensionless time integral into gigayears for a
/// Hubble constant in km/s/Mpc: `3.08568025e19 / (H0 * 31556926) / 1e9`.
/// A zero Hubble constant is a `DomainError`.
pub open spec fn spec_gyr_factor(h0: int) -> Result<int, CosmoError> {
    match spec_scale(h0, SECONDS_PER_YEAR as int) {
        Err(e) => Err(e),
        Ok(den) => spec_div(GYR_NUM_RAW as int, den),
    }
}

/// Computes the gigayear conversion factor, mirroring [`spec_gyr_factor`].
fn gyr_factor(h0: Fx) -> (out: Result<Fx, CosmoError>)
    ensures
        res_v(out) == spec_gyr_factor(h0@),
{
    match fx_scale(h0, SECONDS_PER_YEAR) {
        Err(e) => Err(e),
        Ok(den) => fx_div(Fx::from_raw(GYR_NUM_RAW), den),
    }
}

/// The lookback time `t_L(z) = K * integral of 1/((1+z') E(z')) over
/// [0, z]` in Gyr, over raw values. A redshift at or below the minimum step
/// threshold is exactly zero, without invoking the integrator.
pub open spec fn spec_look_back_time(z: int, om: int, ok: int, ol: int, h0: int) -> Result<
    int,
    CosmoError,
> {
    if z <= TIME_MIN_H_RAW {
        Ok(0)
    } else {
        match spec_adaptive_simpson(
            Integrand::Time,
            om,
            ok,
            ol,
            0,
            z,
            TIME_MIN_H_RAW as int,
            TIME_TOL_RAW as int,
        ) {
            Err(e) => Err(e),
            Ok(integ) => match spec_gyr_factor(h0) {
                Err(e) => Err(e),
                Ok(k) => spec_mul(k, integ),
            },
        }
    }
}

/// Lookback time in Gyr, mirroring [`spec_look_back_time`].
pub fn look_back_time(z: Fx, params: CosmologyParameters) -> (out: Result<Fx, CosmoError>)
    ensures
        res_v(out) == spec_look_back_time(
            z@,
            params.omega_m@,
            params.omega_k@,
            params.omega_l@,
            params.h0@,
        ),
{
    if z.raw() <= TIME_MIN_H_RAW {
        return Ok(Fx::from_raw(0));
    }
    match adaptive_simpson(
        Integrand::Time,
        params,
        Fx::from_raw(0),
        z,
        Fx::from_raw(TIME_MIN_H_RAW),
        Fx::from_raw(TIME_TOL_RAW),
    ) {
        Err(e) => Err(e),
        Ok(integ) => match gyr_factor(params.h0) {
            Err(e) => Err(e),
            Ok(k) => fx_mul(k, integ),
        },
    }
}

/// The age of the universe at redshift zero in Gyr, over raw values: the
/// same integrand as the lookback time, integrated from 0 to the fixed
/// upper bound standing in for infinity.
pub open spec fn spec_universe_age_now(om: int, ok: int, ol: int, h0: int) -> Result<
    int,
    CosmoError,
> {
    match spec_adaptive_simpson(
        Integrand::Time,
        om,
        ok,
        ol,
        0,
        AGE_UPPER_RAW as int,
        TIME_MIN_H_RAW as int,
        TIME_TOL_RAW as int,
    ) {
        Err(e) => Err(e),
        Ok(integ) => match spec_gyr_factor(h0) {
            Err(e) => Err(e),
            Ok(k) => spec_mul(k, integ),
        },
    }
}

/// Universe age at `z = 0` in Gyr, mirroring [`spec_universe_age_now`].
pub fn universe_age_now(params: CosmologyParameters) -> (out: Result<Fx, CosmoError>)
    ensures
        res_v(out) == spec_universe_age_now(
            params.omega_m@,
            params.omega_k@,
            params.omega_l@,
            params.h0@,
        ),
{
    match adaptive_simpson(
        Integrand::Time,
        params,
        Fx::from_raw(0),
        Fx::from_raw(AGE_UPPER_RAW),
        Fx::from_raw(TIME_MIN_H_RAW),
        Fx::from_raw(TIME_TOL_RAW),
    ) {
        Err(e) => Err(e),
        Ok(integ) => match gyr_factor(params.h0) {
            Err(e) => Err(e),
            Ok(k) => fx_mul(k, integ),
        },
    }
}

/// The age of the universe at redshift `z` in Gyr, over raw values: the age
/// now minus the lookback time, both failures propagating unchanged.
pub open spec fn spec_universe_age(z: int, om: int, ok: int, ol: int, h0: int) -> Result<
    int,
    CosmoError,
> {
    match spec_universe_age_now(om, ok, ol, h0) {
        Err(e) => Err(e),
        Ok(a) => match spec_look_back_time(z, om, ok, ol, h0) {
            Err(e) => Err(e),
            Ok(l) => spec_sub(a, l),
        },
    }
}

/// Universe age at a particular redshift in Gyr, mirroring
/// [`spec_universe_age`].
pub fn universe_age(z: Fx, params: CosmologyParameters) -> (out: Result<Fx, CosmoError>)
    ensures
        res_v(out) == spec_universe_age(
            z@,
            params.omega_m@,
            params.omega_k@,
            params.omega_l@,
            params.h0@,
        ),
{
    match universe_age_now(params) {
        Err(e) => Err(e),
        Ok(a) => match look_back_time(z, params) {
            Err(e) => Err(e),
            Ok(l) => fx_sub(a, l),
        },
    }
}

} // verus!
