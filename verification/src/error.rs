//! The error taxonomy of the harness.
//!
//! Every failure surfaces to the top-level run function as one tagged
//! result; none is silently swallowed, and none is retried — each failure
//! is a stop condition for the single-shot session.

use vstd::prelude::*;

verus! {

/// Failure to bind model, resolver and arena into a session. Always
/// fatal: the model and the arena size are both fixed ahead of time, so
/// there is no retry path.
#[derive(Clone, Copy, PartialEq, Eq, Structural, Debug)]
pub enum ConstructionError {
    /// The model blob failed structural validation.
    MalformedModel,
    /// The resolver is missing an operator the model graph references.
    UnresolvedOperator,
    /// The arena is smaller than the model's storage requirement.
    ArenaTooSmall,
}

/// Failure to write caller-supplied data into an input tensor.
#[derive(Clone, Copy, PartialEq, Eq, Structural, Debug)]
pub enum InputError {
    /// No input tensor exists at the given index.
    NoSuchTensor,
    /// The data length differs from the tensor's expected flattened
    /// element count.
    LengthMismatch,
}

/// Failure of the single synchronous execution pass.
#[derive(Clone, Copy, PartialEq, Eq, Structural, Debug)]
pub enum InvocationError {
    /// Invocation was attempted before any input had been set.
    InputNotSet,
    /// An operator kernel reported an execution fault.
    KernelFault,
}

/// Numeric output outside tolerance of the expected reference. Distinct
/// from the setup failures above: it indicates a correctness regression,
/// not a resource failure.
#[derive(Clone, Copy, PartialEq, Eq, Structural, Debug)]
pub enum ValidationError {
    /// The first compared pair whose absolute difference reached the
    /// tolerance, with the two values.
    Mismatch { index: usize, expected: i64, actual: i64 },
}

/// The single tagged result type every failure of the harness surfaces
/// as.
#[derive(Clone, Copy, PartialEq, Eq, Structural, Debug)]
pub enum Error {
    /// Binding model, resolver and arena failed.
    Construction(ConstructionError),
    /// Writing an input tensor failed.
    Input(InputError),
    /// The execution pass failed.
    Invocation(InvocationError),
    /// The output did not match the expected reference.
    Validation(ValidationError),
    /// Writing a progress or result line to the caller-provided sink
    /// failed.
    Io,
}

impl From<ConstructionError> for Error {
    fn from(e: ConstructionError) -> (r: Error) {
        Error::Construction(e)
    }
}

impl vstd::std_specs::convert::FromSpecImpl<ConstructionError> for Error {
    open spec fn obeys_from_spec() -> bool {
        true
    }

    open spec fn from_spec(e: ConstructionError) -> Error {
        Error::Construction(e)
    }
}

impl From<InputError> for Error {
    fn from(e: InputError) -> (r: Error) {
        Error::Input(e)
    }
}

impl vstd::std_specs::convert::FromSpecImpl<InputError> for Error {
    open spec fn obeys_from_spec() -> bool {
        true
    }

    open spec fn from_spec(e: InputError) -> Error {
        Error::Input(e)
    }
}

impl From<InvocationError> for Error {
    fn from(e: InvocationError) -> (r: Error) {
        Error::Invocation(e)
    }
}

impl vstd::std_specs::convert::FromSpecImpl<InvocationError> for Error {
    open spec fn obeys_from_spec() -> bool {
        true
    }

    open spec fn from_spec(e: InvocationError) -> Error {
        Error::Invocation(e)
    }
}

impl From<ValidationError> for Error {
    fn from(e: ValidationError) -> (r: Error) {
        Error::Validation(e)
    }
}

impl vstd::std_specs::convert::FromSpecImpl<ValidationError> for Error {
    open spec fn obeys_from_spec() -> bool {
        true
    }

    open spec fn from_spec(e: ValidationError) -> Error {
        Error::Validation(e)
    }
}

} // verus!
