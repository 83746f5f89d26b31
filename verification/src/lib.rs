//! State engine of a two-dimensional gravitational simulation.
//!
//! The engine owns the bodies, the snapshot that a reset restores, the
//! running flag and the drag selection, and it says how each interaction
//! signal and each physics step changes them. Every number in a body is a
//! single-precision value held by its bit pattern: the engine stores, copies
//! and classifies such values, and leaves the arithmetic on them to the
//! caller.

pub mod body;
pub mod laws;
pub mod model;
pub mod pairing;
pub mod scalar;
pub mod state;
