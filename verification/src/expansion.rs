use vstd::prelude::*;

use crate::error::CosmoError;
use crate::fixed::{
    fx_add, fx_mul, fx_sqrt, lemma_isqrt_monotone, res_v, spec_add, spec_mul, spec_sqrt, Fx,
    SCALE,
};
use crate::params::CosmologyParameters;
use vstd::arithmetic::div_mod::lemma_div_is_ordered;

verus! {

/// The dimensionless expansion rate
/// `E(z) = sqrt(omega_m (1+z)^3 + omega_k (1+z)^2 + omega_l)`,
/// over raw fixed-point values. A negative radicand is a `DomainError`.
pub open spec fn spec_e_func(z: int, om: int, ok: int, ol: int) -> Result<int, CosmoError> {
    match spec_add(z, SCALE as int) {
        Err(e) => Err(e),
        Ok(opz) => match spec_mul(opz, opz) {
            Err(e) => Err(e),
            Ok(s2) => match spec_mul(s2, opz) {
                Err(e) => Err(e),
                Ok(s3) => match spec_mul(om, s3) {
                    Err(e) => Err(e),
                    Ok(t1) => match spec_mul(ok, s2) {
                        Err(e) => Err(e),
                        Ok(t2) => match spec_add(t1, t2) {
                            Err(e) => Err(e),
                            Ok(t12) => match spec_add(t12, ol) {
                                Err(e) => Err(e),
                                Ok(rad) => spec_sqrt(rad),
                            },
                        },
                    },
                },
            },
        },
    }
}

/// Evaluates the dimensionless expansion rate E(z), mirroring
/// [`spec_e_func`]. Fails with `DomainError` exactly when the radicand is
/// negative.
pub fn e_func(z: Fx, params: CosmologyParameters) -> (out: Result<Fx, CosmoError>)
    ensures
        res_v(out) == spec_e_func(z@, params.omega_m@, params.omega_k@, params.omega_l@),
{
    let one = Fx::from_raw(SCALE);
    match fx_add(z, one) {
        Err(e) => Err(e),
        Ok(opz) => match fx_mul(opz, opz) {
            Err(e) => Err(e),
            Ok(s2) => match fx_mul(s2, opz) {
                Err(e) => Err(e),
                Ok(s3) => match fx_mul(params.omega_m, s3) {
                    Err(e) => Err(e),
                    Ok(t1) => match fx_mul(params.omega_k, s2) {
                        Err(e) => Err(e),
                        Ok(t2) => match fx_add(t1, t2) {
                            Err(e) => Err(e),
                            Ok(t12) => match fx_add(t12, params.omega_l) {
                                Err(e) => Err(e),
                                Ok(rad) => fx_sqrt(rad),
                            },
                        },
                    },
                },
            },
        },
    }
}

/// The truncated fixed-point product is monotone over non-negative operands.
proof fn lemma_mul_monotone(a1: int, b1: int, a2: int, b2: int)
    requires
        0 <= a1 <= a2,
        0 <= b1 <= b2,
        spec_mul(a1, b1) is Ok,
        spec_mul(a2, b2) is Ok,
    ensures
        0 <= spec_mul(a1, b1)->Ok_0 <= spec_mul(a2, b2)->Ok_0,
{
    assert(a1 * b1 <= a2 * b2) by (nonlinear_arith)
        requires
            0 <= a1 <= a2,
            0 <= b1 <= b2,
    ;
    assert(a1 * b1 >= 0) by (nonlinear_arith)
        requires
            0 <= a1,
            0 <= b1,
    ;
    lemma_div_is_ordered(a1 * b1, a2 * b2, SCALE as int);
    vstd::arithmetic::div_mod::lemma_div_pos_is_pos(a1 * b1, SCALE as int);
}

/// The fixed-point square root is monotone over non-negative operands.
proof fn lemma_sqrt_monotone(a1: int, a2: int)
    requires
        0 <= a1 <= a2,
        spec_sqrt(a1) is Ok,
        spec_sqrt(a2) is Ok,
    ensures
        0 <= spec_sqrt(a1)->Ok_0 <= spec_sqrt(a2)->Ok_0,
{
    lemma_isqrt_monotone((a1 * (SCALE as int)) as nat, (a2 * (SCALE as int)) as nat);
}

/// The expansion rate is monotone non-decreasing in the redshift whenever
/// the densities are non-negative and neither redshift lies below -1: for
/// `z1 <= z2` on which `E` is defined, `E(z1) <= E(z2)`.
pub proof fn lemma_e_func_monotone(z1: int, z2: int, om: int, ok: int, ol: int)
    requires
        0 <= om,
        0 <= ok,
        0 <= ol,
        -(SCALE as int) <= z1 <= z2,
        spec_e_func(z1, om, ok, ol) is Ok,
        spec_e_func(z2, om, ok, ol) is Ok,
    ensures
        spec_e_func(z1, om, ok, ol)->Ok_0 <= spec_e_func(z2, om, ok, ol)->Ok_0,
{
    let opz1 = z1 + SCALE as int;
    let opz2 = z2 + SCALE as int;
    let s2a = spec_mul(opz1, opz1)->Ok_0;
    let s2b = spec_mul(opz2, opz2)->Ok_0;
    lemma_mul_monotone(opz1, opz1, opz2, opz2);
    let s3a = spec_mul(s2a, opz1)->Ok_0;
    let s3b = spec_mul(s2b, opz2)->Ok_0;
    lemma_mul_monotone(s2a, opz1, s2b, opz2);
    lemma_mul_monotone(om, s3a, om, s3b);
    lemma_mul_monotone(ok, s2a, ok, s2b);
    let rad1 = spec_mul(om, s3a)->Ok_0 + spec_mul(ok, s2a)->Ok_0 + ol;
    let rad2 = spec_mul(om, s3b)->Ok_0 + spec_mul(ok, s2b)->Ok_0 + ol;
    lemma_sqrt_monotone(rad1, rad2);
}

} // verus!
