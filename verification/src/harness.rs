//! The top-level run protocol of the single-shot harness: bind a
//! session, write the input, execute once, read the output back and
//! validate it against the expected reference.
//!
//! Every failure surfaces here as one tagged `Error`; the first failing
//! stage stops the run, and nothing is retried. The caller decides what
//! a failure means for the process — halt, loop or exit with a status.

use vstd::prelude::*;
use crate::arena::ModelConfig;
use crate::arena::TensorArena;
use crate::engine::construct_error;
use crate::engine::construct_ok;
use crate::engine::copy_values;
use crate::engine::Engine;
use crate::engine::KernelOutcome;
use crate::error::Error;
use crate::error::InputError;
use crate::error::InvocationError;
use crate::error::ValidationError;
use crate::model::ModelHandle;
use crate::resolver::OpResolver;
use crate::validate::all_within_tolerance;
use crate::validate::compared_len;
use crate::validate::validate;
use crate::validate::within_tolerance;

verus! {

/// Whether the external runtime's reported outcome is an output of the
/// model's output element count.
pub open spec fn kernel_output_ok(cfg: ModelConfig, kernel: KernelOutcome) -> bool {
    kernel matches KernelOutcome::Output(v) && v@.len() == cfg.output_elements
}

/// The elements an outcome reports; empty for a fault.
pub open spec fn kernel_values(kernel: KernelOutcome) -> Seq<i64> {
    match kernel {
        KernelOutcome::Output(v) => v@,
        KernelOutcome::Fault => Seq::empty(),
    }
}

/// Whether a whole run passes: the session can be constructed, the
/// input has the expected length, the execution pass produced a
/// well-shaped output, and every compared pair of expected and produced
/// elements is within tolerance.
pub open spec fn run_ok(
    model: ModelHandle,
    resolver: OpResolver,
    arena_len: nat,
    input: Seq<i64>,
    kernel: KernelOutcome,
    expected: Seq<i64>,
    tolerance: i64,
) -> bool {
    &&& construct_ok(model, resolver, arena_len)
    &&& input.len() == model.config.input_elements
    &&& kernel_output_ok(model.config, kernel)
    &&& all_within_tolerance(expected, kernel_values(kernel), tolerance)
}

/// Runs the whole protocol once: construct a session over `arena`,
/// write `input` into the input tensor, execute the graph with the
/// runtime's reported `kernel` outcome, read the output back and
/// validate it against `expected` within `tolerance`.
///
/// Returns the produced output elements on success. The first failing
/// stage determines the error: construction, then input, then
/// invocation, then validation.
pub fn run(
    model: &ModelHandle,
    resolver: &OpResolver,
    arena: TensorArena,
    input: &Vec<i64>,
    kernel: KernelOutcome,
    expected: &Vec<i64>,
    tolerance: i64,
) -> (r: Result<Vec<i64>, Error>)
    ensures
        r is Ok <==> run_ok(
            *model,
            *resolver,
            arena.spec_len(),
            input@,
            kernel,
            expected@,
            tolerance,
        ),
        r matches Ok(out) ==> out@ == kernel_values(kernel),
        !construct_ok(*model, *resolver, arena.spec_len()) ==> r == Err::<Vec<i64>, Error>(
            Error::Construction(construct_error(*model, *resolver, arena.spec_len())),
        ),
        construct_ok(*model, *resolver, arena.spec_len()) && input@.len()
            != model.config.input_elements ==> r == Err::<Vec<i64>, Error>(
            Error::Input(InputError::LengthMismatch),
        ),
        construct_ok(*model, *resolver, arena.spec_len()) && input@.len()
            == model.config.input_elements && !kernel_output_ok(model.config, kernel) ==> r
            == Err::<Vec<i64>, Error>(Error::Invocation(InvocationError::KernelFault)),
        construct_ok(*model, *resolver, arena.spec_len()) && input@.len()
            == model.config.input_elements && kernel_output_ok(model.config, kernel)
            && !all_within_tolerance(expected@, kernel_values(kernel), tolerance) ==> {
            &&& r matches Err(Error::Validation(ValidationError::Mismatch {
                index,
                expected: ev,
                actual: av,
            }))
            &&& 0 <= index < compared_len(expected@, kernel_values(kernel))
            &&& ev == expected@[index as int]
            &&& av == kernel_values(kernel)[index as int]
            &&& !within_tolerance(ev, av, tolerance)
            &&& forall|j: int|
                0 <= j < index ==> within_tolerance(
                    expected@[j],
                    kernel_values(kernel)[j],
                    tolerance,
                )
        },
{
    let mut engine = match Engine::construct(model, resolver, arena) {
        Ok(engine) => engine,
        Err(e) => {
            return Err(Error::from(e));
        },
    };
    match engine.set_input(0, input) {
        Ok(()) => (),
        Err(e) => {
            return Err(Error::from(e));
        },
    }
    match engine.invoke(kernel) {
        Ok(()) => (),
        Err(e) => {
            return Err(Error::from(e));
        },
    }
    let out = match engine.get_output(0) {
        Some(view) => copy_values(view),
        None => unreached(),
    };
    match validate(expected, &out, tolerance) {
        Ok(()) => Ok(out),
        Err(e) => Err(Error::from(e)),
    }
}

} // verus!
