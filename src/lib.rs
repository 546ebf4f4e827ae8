//! Planning and assembly of sample batches for phase-function scattering
//! visualisation, and the local-frame conventions of the samplers.

pub mod batch;
pub mod phase;
