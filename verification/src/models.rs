//! Markers of the model layer: the mode a model runs in and the numeric
//! backends it can run on.

use vstd::prelude::*;

verus! {

/// Whether a model is being trained or only evaluated.
#[derive(Clone, Copy, Debug, PartialEq, Eq, Structural)]
pub enum ModelMode {
    Training,
    Inference,
}

/// Marker of the backend that computes on dense matrices.
#[derive(Clone, Copy, Debug)]
pub struct NalgebraBackend;

/// Marker of the backend that computes on tensors with automatic
/// differentiation.
#[derive(Clone, Copy, Debug)]
pub struct TorchBackend;

} // verus!
