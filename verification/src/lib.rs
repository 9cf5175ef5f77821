//! Distances, volumes and time intervals in a homogeneous, isotropic (FLRW)
//! cosmological model, computed from a redshift and four density/expansion
//! parameters, together with the inverse problem of recovering a redshift
//! from a desired age.
//!
//! Every quantity is held in a fixed-point representation ([`fixed::Fx`],
//! 10^-13 resolution) so that each computation is an exact, deterministic
//! function of its inputs, specified by a spec-level twin and verified
//! against it.

pub mod batch;
pub mod distance;
pub mod error;
pub mod expansion;
pub mod fixed;
pub mod inverse;
pub mod params;
pub mod quad;
pub mod time;
pub mod transcend;
