use vstd::prelude::*;

verus! {

/// Failure of a cosmological computation.
///
/// Every function of the engine is total over its inputs and reports a typed
/// failure instead of panicking or propagating a silent non-value.
#[derive(Clone, Copy, Debug, PartialEq, Eq, Structural)]
pub enum CosmoError {
    /// A mathematically invalid operand: a negative radicand under a square
    /// root, a non-positive argument to a logarithm, or a zero divisor
    /// (such as a zero Hubble constant).
    DomainError,
    /// Adaptive quadrature reached the minimum subinterval width before the
    /// local error estimate met the tolerance.
    IntegrationError,
    /// A caller error: the target handed to an inverse solve lies outside
    /// the attainable range of the forward quantity.
    InvalidArgument,
    /// An intermediate value left the representable fixed-point range.
    Overflow,
}

impl CosmoError {
    /// A short human-readable name for the failure.
    pub fn describe(&self) -> (r: &'static str)
        ensures
            r@ =~= match self {
                CosmoError::DomainError => "domain error"@,
                CosmoError::IntegrationError => "integration did not converge"@,
                CosmoError::InvalidArgument => "invalid argument"@,
                CosmoError::Overflow => "value out of representable range"@,
            },
    {
        match self {
            CosmoError::DomainError => "domain error",
            CosmoError::IntegrationError => "integration did not converge",
            CosmoError::InvalidArgument => "invalid argument",
            CosmoError::Overflow => "value out of representable range",
        }
    }
}

} // verus!
