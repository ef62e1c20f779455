//! Core of a rate-gated nonlinear model-predictive controller.
//!
//! The controller keeps a fixed-dimension tracking error, a sample-rate gate
//! that decides when a new constrained solve is due, per-axis output limits
//! that every emitted control component must satisfy, and a versioned
//! encoding of its mutable state for checkpoint and restore.
//!
//! All scalar quantities (setpoints, measurements, errors, outputs, limits,
//! solver tolerance) are carried as raw IEEE 754 binary64 bit patterns in
//! `u64` values; durations are nanosecond counts in `u64`. The numeric work
//! itself — the caller-supplied dynamics and cost functions and the
//! constrained solver they are handed to — runs on the host side, which
//! feeds its results back through the functions of this crate.

#![allow(unused_imports)]
use vstd::prelude::*;

pub mod codec;
pub mod controller;
pub mod scalar;
pub mod task;

verus! {

/// Errors surfaced by the controller core.
#[derive(Debug, Clone, Copy, PartialEq, Eq, Structural)]
pub enum MpcError {
    /// The configuration is unusable: no cost function was supplied, or the
    /// configured vectors disagree in dimension, or a limit pair is inverted,
    /// or the sample period is zero.
    ConfigurationError,
    /// A per-tick input vector does not have the configured dimension; the
    /// tick is aborted and the previous output is retained.
    DimensionMismatch,
    /// A persisted state image could not be decoded, or decodes to a state
    /// of the wrong dimension.
    SerializationError,
}

} // verus!
