use cosmoxide::distance::{
    comoving_distance, comoving_trans_distance, comoving_volume, dist_mod, hubble_distance,
};
use cosmoxide::error::CosmoError;
use cosmoxide::expansion::e_func;
use cosmoxide::fixed::Fx;
use cosmoxide::params::CosmologyParameters;
use cosmoxide::time::{look_back_time, universe_age, universe_age_now};

fn fx(v: f64) -> Fx {
    Fx::from_raw((v * 1e13).round() as i128)
}

fn val(x: Fx) -> f64 {
    x.raw() as f64 / 1e13
}

fn std_params() -> CosmologyParameters {
    CosmologyParameters::new(fx(0.3), fx(0.0), fx(0.7), fx(70.0))
}

fn open_params() -> CosmologyParameters {
    CosmologyParameters::new(fx(0.3), fx(0.1), fx(0.6), fx(70.0))
}

fn closed_params() -> CosmologyParameters {
    CosmologyParameters::new(fx(0.3), fx(-0.1), fx(0.8), fx(70.0))
}

#[test]
fn hubble_distance_is_exact() {
    let d = hubble_distance(fx(70.0)).unwrap();
    assert_eq!(d.raw(), 42_827_494_000_000_000);
}

#[test]
fn hubble_distance_zero_h0_fails() {
    assert_eq!(hubble_distance(fx(0.0)), Err(CosmoError::DomainError));
}

#[test]
fn e_func_at_zero_redshift_is_one_when_flat() {
    let e = e_func(fx(0.0), std_params()).unwrap();
    assert_eq!(e.raw(), 10_000_000_000_000);
}

#[test]
fn e_func_matter_only_is_exact() {
    // E(3) = sqrt(1 * 4^3) = 8 exactly for a pure-matter universe.
    let p = CosmologyParameters::new(fx(1.0), fx(0.0), fx(0.0), fx(70.0));
    let e = e_func(fx(3.0), p).unwrap();
    assert_eq!(e.raw(), 80_000_000_000_000);
}

#[test]
fn e_func_is_monotone_in_redshift() {
    let p = std_params();
    let e0 = e_func(fx(0.0), p).unwrap().raw();
    let e1 = e_func(fx(0.5), p).unwrap().raw();
    let e2 = e_func(fx(1.0), p).unwrap().raw();
    let e3 = e_func(fx(2.0), p).unwrap().raw();
    assert!(e0 <= e1 && e1 <= e2 && e2 <= e3, "{} {} {} {}", e0, e1, e2, e3);
}

#[test]
fn e_func_negative_radicand_fails() {
    let p = CosmologyParameters::new(fx(0.0), fx(0.0), fx(-1.0), fx(70.0));
    assert_eq!(e_func(fx(1.0), p), Err(CosmoError::DomainError));
}

#[test]
fn e_func_huge_redshift_overflows() {
    let p = std_params();
    let z = Fx::from_raw(1_000_000_000_000_000_000_000_000_000_000);
    assert_eq!(e_func(z, p), Err(CosmoError::Overflow));
}

#[test]
fn comoving_distance_zero_redshift_is_exactly_zero() {
    assert_eq!(comoving_distance(fx(0.0), std_params()).unwrap().raw(), 0);
    assert_eq!(comoving_distance(fx(0.0), open_params()).unwrap().raw(), 0);
    assert_eq!(comoving_distance(fx(0.0), closed_params()).unwrap().raw(), 0);
}

#[test]
fn comoving_distance_standard_scenario() {
    let v = val(comoving_distance(fx(1.0), std_params()).unwrap());
    assert!((v - 3303.83).abs() < 1.0, "got {}", v);
}

#[test]
fn comoving_distance_tiny_redshift_fails_to_converge() {
    // A redshift below the minimum step width cannot be resolved.
    let z = Fx::from_raw(500_000);
    assert_eq!(comoving_distance(z, std_params()), Err(CosmoError::IntegrationError));
}

#[test]
fn comoving_distance_negative_redshift_fails() {
    assert_eq!(comoving_distance(fx(-0.5), std_params()), Err(CosmoError::IntegrationError));
}

#[test]
fn flat_transverse_distance_equals_comoving_distance() {
    let p = std_params();
    for z in [0.25f64, 0.5, 1.0, 2.0] {
        let co = comoving_distance(fx(z), p).unwrap();
        let tr = comoving_trans_distance(fx(z), p).unwrap();
        assert_eq!(co.raw(), tr.raw());
    }
}

#[test]
fn open_transverse_distance_standard_scenario() {
    let v = val(comoving_trans_distance(fx(1.0), open_params()).unwrap());
    assert!((v - 3239.92).abs() < 1.5, "got {}", v);
}

#[test]
fn closed_transverse_distance_standard_scenario() {
    let v = val(comoving_trans_distance(fx(1.0), closed_params()).unwrap());
    assert!((v - 3373.05).abs() < 1.5, "got {}", v);
}

#[test]
fn dist_mod_standard_scenario() {
    let v = val(dist_mod(fx(1.0), std_params()).unwrap());
    assert!((v - 44.100).abs() < 0.05, "got {}", v);
}

#[test]
fn dist_mod_zero_redshift_is_domain_error() {
    // The luminosity distance D_M * (1+z) is zero at z = 0, so the
    // logarithm fails rather than returning a silent non-value.
    assert_eq!(dist_mod(fx(0.0), std_params()), Err(CosmoError::DomainError));
    assert_eq!(dist_mod(fx(0.0), open_params()), Err(CosmoError::DomainError));
}

#[test]
fn comoving_volume_flat_standard_scenario() {
    let v = val(comoving_volume(fx(1.0), std_params()).unwrap());
    assert!((v - 1.510571e11).abs() < 5e8, "got {}", v);
}

#[test]
fn comoving_volume_open_branch_is_the_hyperbolic_form() {
    // The open branch is the hyperbolic-sine closed form as written
    // (dimensionally a distance, not a volume).
    let v = val(comoving_volume(fx(1.0), open_params()).unwrap());
    assert!((v - 3270.91).abs() < 1.5, "got {}", v);
}

#[test]
fn comoving_volume_closed_branch_follows_the_stated_form() {
    // The closed branch applies the sine of |omega_k| where a square root
    // might be expected; the expression is evaluated as written, and its
    // value at these parameters is negative.
    let v = val(comoving_volume(fx(1.0), closed_params()).unwrap());
    assert!((v - (-2.538845e12)).abs() < 2e9, "got {}", v);
}

#[test]
fn look_back_time_standard_scenario() {
    let v = val(look_back_time(fx(1.0), std_params()).unwrap());
    assert!((v - 7.7155).abs() < 0.05, "got {}", v);
}

#[test]
fn look_back_time_below_threshold_is_zero() {
    assert_eq!(look_back_time(Fx::from_raw(1_000), std_params()).unwrap().raw(), 0);
    assert_eq!(look_back_time(fx(0.0), std_params()).unwrap().raw(), 0);
    assert_eq!(look_back_time(fx(-1.0), std_params()).unwrap().raw(), 0);
}

#[test]
fn universe_age_now_standard_scenario() {
    let v = val(universe_age_now(std_params()).unwrap());
    assert!((v - 13.4669).abs() < 0.05, "got {}", v);
}

#[test]
fn universe_age_standard_scenario() {
    let v = val(universe_age(fx(1.0), std_params()).unwrap());
    assert!((v - 5.7514).abs() < 0.05, "got {}", v);
}

#[test]
fn error_descriptions_name_each_failure() {
    assert_eq!(CosmoError::DomainError.describe(), "domain error");
    assert_eq!(CosmoError::IntegrationError.describe(), "integration did not converge");
    assert_eq!(CosmoError::InvalidArgument.describe(), "invalid argument");
    assert_eq!(CosmoError::Overflow.describe(), "value out of representable range");
}

#[test]
fn universe_age_at_zero_equals_age_now() {
    let p = std_params();
    let now = universe_age_now(p).unwrap();
    let at0 = universe_age(fx(0.0), p).unwrap();
    assert_eq!(now.raw(), at0.raw());
}
