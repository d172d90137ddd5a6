//! The model handle: a validated, read-only view over a serialized
//! computation graph.
//!
//! The blob's wire format belongs to the external inference runtime; the
//! harness records what its own decisions depend on — the verdict of the
//! runtime's structural validation, the storage configuration the graph
//! implies, and the operator identifiers the graph references.

use vstd::prelude::*;
use crate::arena::ModelConfig;

verus! {

/// A read-only view over one serialized model, formed once at startup
/// and never mutated for the process lifetime.
pub struct ModelHandle {
    /// Whether the blob passed the runtime's structural validation.
    pub structurally_valid: bool,
    /// The storage configuration of the model's graph.
    pub config: ModelConfig,
    /// The operator identifiers the graph references; every one must be
    /// resolvable to a kernel before a session can be constructed.
    pub required_ops: Vec<u16>,
}

impl ModelHandle {
    /// Forms a handle from the structural-validation verdict, the
    /// storage configuration and the referenced operator identifiers.
    pub fn new(structurally_valid: bool, config: ModelConfig, required_ops: Vec<u16>) -> (r:
        ModelHandle)
        ensures
            r.structurally_valid == structurally_valid,
            r.config == config,
            r.required_ops@ == required_ops@,
    {
        ModelHandle { structurally_valid, config, required_ops }
    }
}

} // verus!
