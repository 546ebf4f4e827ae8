//! The phase-function samplers a batch can be drawn with, and how each one
//! lays out a sampled angle in the local scattering frame.

use vstd::prelude::*;

verus! {

/// Which phase function a batch is sampled from.
#[derive(Clone, Copy, Debug, PartialEq, Eq, Structural)]
pub enum PhaseFunctionKind {
    /// Henyey-Greenstein, drawn through a tangent mapping of the uniform value.
    HenyeyGreenstein,
    /// Henyey-Greenstein, drawn through its inverse cumulative distribution.
    HenyeyGreensteinInverse,
    /// Unpolarised Rayleigh scattering.
    Rayleigh,
}

impl PhaseFunctionKind {
    /// The sampler yields a deflection measured from the incident direction,
    /// so its cosine goes on the frame's first axis rather than its forward one.
    pub open spec fn cosine_first(self) -> bool {
        self is Rayleigh
    }
}

/// Places a sampled cosine and sine on the axes of the local frame whose
/// second axis is the incident ("forward") direction: `(sin, cos)` for the
/// Henyey-Greenstein samplers, `(cos, sin)` for Rayleigh.
pub fn local_direction<T: Copy>(kind: PhaseFunctionKind, cos_t: T, sin_t: T) -> (r: (T, T))
    ensures
        kind.cosine_first() ==> r == (cos_t, sin_t),
        !kind.cosine_first() ==> r == (sin_t, cos_t),
{
    match kind {
        PhaseFunctionKind::Rayleigh => (cos_t, sin_t),
        PhaseFunctionKind::HenyeyGreenstein | PhaseFunctionKind::HenyeyGreensteinInverse => (
            sin_t,
            cos_t,
        ),
    }
}

} // verus!
