//! End-to-end runs of the whole protocol, with tensor elements carried
//! as fixed-point integers in millionths.

use inference_harness::arena::required_arena_bytes;
use inference_harness::arena::ModelConfig;
use inference_harness::arena::TensorArena;
use inference_harness::engine::KernelOutcome;
use inference_harness::error::ConstructionError;
use inference_harness::error::Error;
use inference_harness::error::InputError;
use inference_harness::error::InvocationError;
use inference_harness::error::ValidationError;
use inference_harness::harness::run;
use inference_harness::model::ModelHandle;
use inference_harness::resolver::OpResolver;

/// One millionth per unit: 1.0 is carried as 1_000_000.
const UNIT: i64 = 1_000_000;

/// A tolerance of 0.01 per element.
const TOLERANCE: i64 = 10_000;

fn reference_config() -> ModelConfig {
    ModelConfig {
        input_elements: 2880,
        output_elements: 3,
        margin_elements: 2000,
        activation_elements: 4464,
    }
}

fn reference_model() -> ModelHandle {
    ModelHandle::new(true, reference_config(), vec![1, 2, 4, 8])
}

/// The reference output triple, in millionths: roughly
/// 0.4572307, 0.53414774 and 0.0.
fn expected_output() -> Vec<i64> {
    vec![457231, 534148, 0]
}

fn ones_input(n: usize) -> Vec<i64> {
    vec![UNIT; n]
}

#[test]
fn reference_run_passes_within_tolerance() {
    let r = run(
        &reference_model(),
        &OpResolver::all_ops(),
        TensorArena::new(required_arena_bytes(&reference_config())),
        &ones_input(2880),
        KernelOutcome::Output(vec![460000, 530000, -2000]),
        &expected_output(),
        TOLERANCE,
    );
    assert_eq!(r, Ok(vec![460000, 530000, -2000]));
}

#[test]
fn reference_run_fails_outside_tolerance() {
    let r = run(
        &reference_model(),
        &OpResolver::all_ops(),
        TensorArena::new(required_arena_bytes(&reference_config())),
        &ones_input(2880),
        KernelOutcome::Output(vec![470000, 530000, 0]),
        &expected_output(),
        TOLERANCE,
    );
    assert_eq!(
        r,
        Err(Error::Validation(ValidationError::Mismatch {
            index: 0,
            expected: 457231,
            actual: 470000,
        }))
    );
}

#[test]
fn input_one_element_short_fails_before_invocation() {
    let r = run(
        &reference_model(),
        &OpResolver::all_ops(),
        TensorArena::new(required_arena_bytes(&reference_config())),
        &ones_input(2879),
        KernelOutcome::Output(vec![457231, 534148, 0]),
        &expected_output(),
        TOLERANCE,
    );
    assert_eq!(r, Err(Error::Input(InputError::LengthMismatch)));
}

#[test]
fn arena_of_exactly_the_requirement_passes_and_one_byte_less_fails() {
    let required = required_arena_bytes(&reference_config());
    let exact = run(
        &reference_model(),
        &OpResolver::all_ops(),
        TensorArena::new(required),
        &ones_input(2880),
        KernelOutcome::Output(vec![457231, 534148, 0]),
        &expected_output(),
        TOLERANCE,
    );
    assert!(exact.is_ok());
    let short = run(
        &reference_model(),
        &OpResolver::all_ops(),
        TensorArena::new(required - 1),
        &ones_input(2880),
        KernelOutcome::Output(vec![457231, 534148, 0]),
        &expected_output(),
        TOLERANCE,
    );
    assert_eq!(short, Err(Error::Construction(ConstructionError::ArenaTooSmall)));
}

#[test]
fn kernel_fault_surfaces_as_invocation_error() {
    let r = run(
        &reference_model(),
        &OpResolver::all_ops(),
        TensorArena::new(required_arena_bytes(&reference_config())),
        &ones_input(2880),
        KernelOutcome::Fault,
        &expected_output(),
        TOLERANCE,
    );
    assert_eq!(r, Err(Error::Invocation(InvocationError::KernelFault)));
}

#[test]
fn every_failure_surfaces_as_the_single_tagged_error() {
    assert_eq!(
        Error::from(ConstructionError::MalformedModel),
        Error::Construction(ConstructionError::MalformedModel)
    );
    assert_eq!(Error::from(InputError::LengthMismatch), Error::Input(InputError::LengthMismatch));
    assert_eq!(
        Error::from(InvocationError::KernelFault),
        Error::Invocation(InvocationError::KernelFault)
    );
    assert_eq!(
        Error::from(ValidationError::Mismatch { index: 0, expected: 1, actual: 2 }),
        Error::Validation(ValidationError::Mismatch { index: 0, expected: 1, actual: 2 })
    );
}
