use cosmoxide::error::CosmoError;
use cosmoxide::fixed::{fx_sqrt, Fx};
use cosmoxide::params::CosmologyParameters;
use cosmoxide::quad::{adaptive_simpson, Integrand};
use cosmoxide::transcend::{fx_asinh, fx_exp, fx_ln, fx_log10, fx_sin, fx_sinh};

fn fx(v: f64) -> Fx {
    Fx::from_raw((v * 1e13).round() as i128)
}

fn val(x: Fx) -> f64 {
    x.raw() as f64 / 1e13
}

#[test]
fn sqrt_of_four_is_exact() {
    assert_eq!(fx_sqrt(fx(4.0)).unwrap().raw(), 20_000_000_000_000);
}

#[test]
fn sqrt_of_two_truncates_to_the_representation() {
    assert_eq!(fx_sqrt(fx(2.0)).unwrap().raw(), 14_142_135_623_730);
}

#[test]
fn sqrt_of_negative_fails() {
    assert_eq!(fx_sqrt(fx(-1.0)), Err(CosmoError::DomainError));
}

#[test]
fn exp_of_zero_is_exactly_one() {
    assert_eq!(fx_exp(fx(0.0)).unwrap().raw(), 10_000_000_000_000);
}

#[test]
fn exp_of_one_is_eulers_number() {
    let v = val(fx_exp(fx(1.0)).unwrap());
    assert!((v - 2.718281828459).abs() < 1e-9, "got {}", v);
}

#[test]
fn exp_of_minus_one_is_reciprocal() {
    let v = val(fx_exp(fx(-1.0)).unwrap());
    assert!((v - 0.367879441171).abs() < 1e-9, "got {}", v);
}

#[test]
fn exp_of_large_value_overflows() {
    assert_eq!(fx_exp(fx(100.0)), Err(CosmoError::Overflow));
}

#[test]
fn ln_of_one_is_exactly_zero() {
    assert_eq!(fx_ln(fx(1.0)).unwrap().raw(), 0);
}

#[test]
fn ln_of_ten_matches() {
    let v = val(fx_ln(fx(10.0)).unwrap());
    assert!((v - 2.302585092994).abs() < 1e-9, "got {}", v);
}

#[test]
fn ln_of_small_value_matches() {
    let v = val(fx_ln(fx(0.001)).unwrap());
    assert!((v - (-6.907755278982)).abs() < 1e-9, "got {}", v);
}

#[test]
fn ln_of_zero_fails() {
    assert_eq!(fx_ln(fx(0.0)), Err(CosmoError::DomainError));
    assert_eq!(fx_ln(fx(-2.0)), Err(CosmoError::DomainError));
}

#[test]
fn log10_of_thousand_is_three() {
    let v = val(fx_log10(fx(1000.0)).unwrap());
    assert!((v - 3.0).abs() < 1e-9, "got {}", v);
}

#[test]
fn sin_of_zero_is_exactly_zero() {
    assert_eq!(fx_sin(fx(0.0)).unwrap().raw(), 0);
}

#[test]
fn sin_of_one_matches() {
    let v = val(fx_sin(fx(1.0)).unwrap());
    assert!((v - 0.841470984808).abs() < 1e-9, "got {}", v);
}

#[test]
fn sin_reduces_large_arguments() {
    let v = val(fx_sin(fx(7.0)).unwrap());
    assert!((v - 0.656986598719).abs() < 1e-8, "got {}", v);
}

#[test]
fn sin_of_negative_matches() {
    let v = val(fx_sin(fx(-1.0)).unwrap());
    assert!((v - (-0.841470984808)).abs() < 1e-9, "got {}", v);
}

#[test]
fn sinh_of_one_matches() {
    let v = val(fx_sinh(fx(1.0)).unwrap());
    assert!((v - 1.175201193644).abs() < 1e-9, "got {}", v);
}

#[test]
fn asinh_of_one_matches() {
    let v = val(fx_asinh(fx(1.0)).unwrap());
    assert!((v - 0.881373587020).abs() < 1e-9, "got {}", v);
}

#[test]
fn asinh_of_negative_matches() {
    let v = val(fx_asinh(fx(-0.5)).unwrap());
    assert!((v - (-0.481211825060)).abs() < 1e-8, "got {}", v);
}

#[test]
fn integrator_on_constant_integrand_is_near_exact() {
    // With omega_l = 1 alone, E(z) = 1 and the distance integrand is the
    // constant 1, so the integral over [0, 1] is 1.
    let p = CosmologyParameters::new(fx(0.0), fx(0.0), fx(1.0), fx(70.0));
    let v = val(
        adaptive_simpson(
            Integrand::Distance,
            p,
            fx(0.0),
            fx(1.0),
            Fx::from_raw(1_000_000),
            Fx::from_raw(100_000_000),
        )
        .unwrap(),
    );
    assert!((v - 1.0).abs() < 1e-9, "got {}", v);
}

#[test]
fn integrator_rejects_non_positive_tolerance() {
    let p = CosmologyParameters::new(fx(0.0), fx(0.0), fx(1.0), fx(70.0));
    let r = adaptive_simpson(
        Integrand::Distance,
        p,
        fx(0.0),
        fx(1.0),
        Fx::from_raw(1_000_000),
        Fx::from_raw(0),
    );
    assert_eq!(r, Err(CosmoError::InvalidArgument));
}

#[test]
fn integrator_rejects_tiny_minimum_step() {
    let p = CosmologyParameters::new(fx(0.0), fx(0.0), fx(1.0), fx(70.0));
    let r = adaptive_simpson(
        Integrand::Distance,
        p,
        fx(0.0),
        fx(1.0),
        Fx::from_raw(2),
        Fx::from_raw(100_000_000),
    );
    assert_eq!(r, Err(CosmoError::InvalidArgument));
}
