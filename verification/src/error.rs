//! The ways in which an operation of the renderer can fail.

use vstd::prelude::*;
use crate::scalar::Scalar;

verus! {

/// Why the renderer refused an operation.
#[derive(Debug, Clone, PartialEq, Eq)]
pub enum ElectronBeamError {
    /// What was asked for does not belong to the configured mode.
    InvalidMode(String),
    /// The level lies below zero or above one.
    InvalidLevel(Scalar),
    /// The resampler could not do its work.
    ImageError(String),
    /// No source picture has been prepared.
    NotPrepared,
}

} // verus!
