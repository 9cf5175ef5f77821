use cosmoxide::error::CosmoError;
use cosmoxide::fixed::Fx;
use cosmoxide::inverse::inverse_age;
use cosmoxide::params::CosmologyParameters;
use cosmoxide::time::{universe_age, universe_age_now};

fn fx(v: f64) -> Fx {
    Fx::from_raw((v * 1e13).round() as i128)
}

fn val(x: Fx) -> f64 {
    x.raw() as f64 / 1e13
}

fn std_params() -> CosmologyParameters {
    CosmologyParameters::new(fx(0.3), fx(0.0), fx(0.7), fx(70.0))
}

fn roundtrip(z: f64) {
    let p = std_params();
    let age = universe_age(fx(z), p).unwrap();
    let back = val(inverse_age(age, p).unwrap());
    assert!((back - z).abs() <= 1e-6, "z {} came back as {}", z, back);
}

#[test]
fn inverse_age_of_negative_target_is_invalid() {
    assert_eq!(inverse_age(fx(-1.0), std_params()), Err(CosmoError::InvalidArgument));
}

#[test]
fn inverse_age_above_age_now_is_invalid() {
    let p = std_params();
    let now = universe_age_now(p).unwrap();
    let too_old = Fx::from_raw(now.raw() + 10_000_000_000_000);
    assert_eq!(inverse_age(too_old, p), Err(CosmoError::InvalidArgument));
}

#[test]
fn inverse_age_of_age_now_degrades_to_zero() {
    // The residual has no sign change over the bracket when the target is
    // the present age: the solver returns the documented fallback 0.
    let p = std_params();
    let now = universe_age_now(p).unwrap();
    assert_eq!(inverse_age(now, p).unwrap().raw(), 0);
}

#[test]
fn inverse_age_roundtrip_at_half() {
    roundtrip(0.5);
}

#[test]
fn inverse_age_roundtrip_at_one() {
    roundtrip(1.0);
}

#[test]
fn inverse_age_roundtrip_at_two() {
    roundtrip(2.0);
}

#[test]
fn inverse_age_roundtrip_at_five() {
    roundtrip(5.0);
}

#[test]
fn inverse_age_roundtrip_at_ten() {
    roundtrip(10.0);
}

#[test]
fn inverse_age_roundtrip_at_zero() {
    roundtrip(0.0);
}
