use vstd::prelude::*;

use crate::fixed::Fx;

verus! {

/// The density and expansion parameters of an FLRW model: matter density
/// `omega_m`, curvature density `omega_k`, dark-energy density `omega_l`,
/// and the Hubble constant `h0` in km/s/Mpc.
///
/// The bundle is passed by value into every computation and enforces no
/// internal invariant: flatness (`omega_m + omega_k + omega_l == 1`) is a
/// policy decision left to callers, and the engine tolerates non-flat input.
#[derive(Clone, Copy, Debug, PartialEq, Eq, Structural)]
pub struct CosmologyParameters {
    pub omega_m: Fx,
    pub omega_k: Fx,
    pub omega_l: Fx,
    pub h0: Fx,
}

/// The sign of the curvature density, as a tagged three-way dispatch.
#[derive(Clone, Copy, Debug, PartialEq, Eq, Structural)]
pub enum Curvature {
    /// `omega_k == 0`.
    Flat,
    /// `omega_k > 0`.
    Open,
    /// `omega_k < 0`.
    Closed,
}

/// The curvature branch selected by a curvature density.
pub open spec fn spec_curvature(ok: int) -> Curvature {
    if ok > 0 {
        Curvature::Open
    } else if ok < 0 {
        Curvature::Closed
    } else {
        Curvature::Flat
    }
}

impl CosmologyParameters {
    /// The parameter bundle with the four densities in raw fixed-point units.
    pub fn new(omega_m: Fx, omega_k: Fx, omega_l: Fx, h0: Fx) -> (p: CosmologyParameters)
        ensures
            p.omega_m == omega_m,
            p.omega_k == omega_k,
            p.omega_l == omega_l,
            p.h0 == h0,
    {
        CosmologyParameters { omega_m, omega_k, omega_l, h0 }
    }

    /// The curvature branch of this parameter set.
    pub fn curvature(&self) -> (c: Curvature)
        ensures
            c == spec_curvature(self.omega_k@),
    {
        if self.omega_k.is_neg() {
            Curvature::Closed
        } else if self.omega_k.raw() == 0 {
            Curvature::Flat
        } else {
            Curvature::Open
        }
    }
}

} // verus!
