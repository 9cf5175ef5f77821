use cosmoxide::batch::{
    comoving_distances, comoving_transverse_distances, comoving_volumes, dist_mods, inverse_ages,
    universe_ages,
};
use cosmoxide::distance::{comoving_distance, comoving_trans_distance, comoving_volume, dist_mod};
use cosmoxide::error::CosmoError;
use cosmoxide::fixed::Fx;
use cosmoxide::params::CosmologyParameters;
use cosmoxide::time::universe_age;

fn fx(v: f64) -> Fx {
    Fx::from_raw((v * 1e13).round() as i128)
}

fn val(x: Fx) -> f64 {
    x.raw() as f64 / 1e13
}

fn std_params() -> CosmologyParameters {
    CosmologyParameters::new(fx(0.3), fx(0.0), fx(0.7), fx(70.0))
}

#[test]
fn batch_comoving_distances_preserve_order() {
    let p = std_params();
    let zs = vec![fx(0.5), fx(1.0), fx(2.0)];
    let batch = comoving_distances(zs.clone(), p).unwrap();
    assert_eq!(batch.len(), 3);
    for (z, d) in zs.iter().zip(batch.iter()) {
        assert_eq!(d.raw(), comoving_distance(*z, p).unwrap().raw());
    }
    // The scalar results differ pairwise, so order preservation is visible.
    assert!(batch[0].raw() < batch[1].raw() && batch[1].raw() < batch[2].raw());
}

#[test]
fn batch_comoving_distances_of_empty_input() {
    let out = comoving_distances(vec![], std_params()).unwrap();
    assert_eq!(out.len(), 0);
}

#[test]
fn batch_fails_whole_on_earliest_error() {
    let p = std_params();
    // The middle redshift is below the integrator's minimum step width.
    let zs = vec![fx(1.0), Fx::from_raw(500_000), fx(2.0)];
    assert_eq!(comoving_distances(zs, p), Err(CosmoError::IntegrationError));
}

#[test]
fn batch_transverse_distances_match_scalar() {
    let p = CosmologyParameters::new(fx(0.3), fx(0.1), fx(0.6), fx(70.0));
    let zs = vec![fx(0.5), fx(1.5)];
    let batch = comoving_transverse_distances(zs.clone(), p).unwrap();
    for (z, d) in zs.iter().zip(batch.iter()) {
        assert_eq!(d.raw(), comoving_trans_distance(*z, p).unwrap().raw());
    }
}

#[test]
fn batch_dist_mods_match_scalar() {
    let p = std_params();
    let zs = vec![fx(0.5), fx(1.0)];
    let batch = dist_mods(zs.clone(), p).unwrap();
    for (z, d) in zs.iter().zip(batch.iter()) {
        assert_eq!(d.raw(), dist_mod(*z, p).unwrap().raw());
    }
}

#[test]
fn batch_volumes_match_scalar() {
    let p = std_params();
    let zs = vec![fx(0.5), fx(1.0)];
    let batch = comoving_volumes(zs.clone(), p).unwrap();
    for (z, d) in zs.iter().zip(batch.iter()) {
        assert_eq!(d.raw(), comoving_volume(*z, p).unwrap().raw());
    }
}

#[test]
fn batch_universe_ages_match_scalar() {
    let p = std_params();
    let zs = vec![fx(0.0), fx(1.0)];
    let batch = universe_ages(zs.clone(), p).unwrap();
    for (z, d) in zs.iter().zip(batch.iter()) {
        assert_eq!(d.raw(), universe_age(*z, p).unwrap().raw());
    }
}

#[test]
fn batch_inverse_ages_roundtrip() {
    let p = std_params();
    let ages = vec![
        universe_age(fx(1.0), p).unwrap(),
        universe_age(fx(3.0), p).unwrap(),
    ];
    let zs = inverse_ages(ages, p).unwrap();
    assert!((val(zs[0]) - 1.0).abs() <= 1e-6, "got {}", val(zs[0]));
    assert!((val(zs[1]) - 3.0).abs() <= 1e-6, "got {}", val(zs[1]));
}

#[test]
fn batch_inverse_ages_fail_whole_on_invalid_target() {
    let p = std_params();
    let ages = vec![fx(5.0), fx(-1.0)];
    assert_eq!(inverse_ages(ages, p), Err(CosmoError::InvalidArgument));
}
