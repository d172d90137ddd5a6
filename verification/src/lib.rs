//! A verified harness for single-shot, on-device neural-network inference.
//!
//! The harness models the contract between a fixed-size, caller-provided
//! tensor arena and an inference runtime: how the arena must be sized for a
//! model's storage requirements, the construct / set-input / invoke / read
//! protocol of an inference session, and the validation of produced output
//! against reference values within a tolerance.
//!
//! Numeric tensor elements are carried as fixed-point integers (scaled
//! values), so that every comparison the harness makes is exact.

pub mod arena;
pub mod engine;
pub mod error;
pub mod harness;
pub mod model;
pub mod resolver;
pub mod validate;
