//! The inference engine: binds a model handle, an op resolver and a
//! tensor arena into one executable session.
//!
//! Construction partitions the arena for the graph's storage and fails
//! when the arena is undersized, an operator is unresolved, or the model
//! blob is malformed; after construction no further allocation occurs.
//! The session then follows the protocol constructed -> input set ->
//! invoked: input is written, the graph is executed once, and the output
//! is read back. The numeric execution pass itself is the external
//! runtime's work; the engine takes its reported outcome as an argument
//! and is responsible for every decision around it.

use vstd::prelude::*;
use crate::arena::arena_requirement;
use crate::arena::layout_partitions;
use crate::arena::plan_arena;
use crate::arena::ArenaLayout;
use crate::arena::ModelConfig;
use crate::arena::TensorArena;
use crate::error::ConstructionError;
use crate::error::InputError;
use crate::error::InvocationError;
use crate::model::ModelHandle;
use crate::resolver::OpResolver;

verus! {

/// The protocol position of a session.
#[derive(Clone, Copy, PartialEq, Eq, Structural, Debug)]
pub enum EngineState {
    /// The session is bound; no input has been written yet.
    Constructed,
    /// At least one input tensor has been written.
    InputSet,
    /// The graph has executed; the output tensor is readable.
    Invoked,
}

/// The external runtime's report of one execution pass over the graph.
pub enum KernelOutcome {
    /// Every kernel ran to completion and produced these output
    /// elements.
    Output(Vec<i64>),
    /// An operator kernel reported an execution fault.
    Fault,
}

/// Whether a session can be constructed at all: the blob is structurally
/// valid, the resolver covers every referenced operator, and the arena
/// meets the model's storage requirement.
pub open spec fn construct_ok(model: ModelHandle, resolver: OpResolver, arena_len: nat) -> bool {
    &&& model.structurally_valid
    &&& resolver.spec_covers(model.required_ops@)
    &&& arena_requirement(model.config) <= arena_len
}

/// The error construction reports, checking the model first, then the
/// resolver, then the arena size.
pub open spec fn construct_error(
    model: ModelHandle,
    resolver: OpResolver,
    arena_len: nat,
) -> ConstructionError {
    if !model.structurally_valid {
        ConstructionError::MalformedModel
    } else if !resolver.spec_covers(model.required_ops@) {
        ConstructionError::UnresolvedOperator
    } else {
        ConstructionError::ArenaTooSmall
    }
}

/// For a valid model and a covering resolver, constructibility is
/// exactly the sizing threshold: the session can be constructed if and
/// only if the arena is at least the model's requirement. Together with
/// `arena::lemma_requirement_threshold_monotonic` this makes the
/// threshold monotonic: every size at or above the requirement succeeds,
/// every smaller size — even one byte smaller — fails.
pub proof fn lemma_construct_sizing_threshold(
    model: ModelHandle,
    resolver: OpResolver,
    arena_len: nat,
)
    requires
        model.structurally_valid,
        resolver.spec_covers(model.required_ops@),
    ensures
        construct_ok(model, resolver, arena_len) <==> arena_requirement(model.config)
            <= arena_len,
{
}

/// One inference session: the exclusive borrower of its arena for the
/// session lifetime. Exactly one live engine may use a given arena; the
/// engine owns the arena value, so a second engine over the same memory
/// cannot be formed.
pub struct Engine {
    config: ModelConfig,
    arena: TensorArena,
    layout: ArenaLayout,
    state: EngineState,
    input: Vec<i64>,
    output: Vec<i64>,
}

/// Whether an execution pass is accepted: input has been set, the
/// kernels did not fault, and the reported output has the model's output
/// element count.
pub open spec fn invoke_accepts(pre: Engine, kernel: KernelOutcome) -> bool {
    &&& !(pre.state() is Constructed)
    &&& kernel matches KernelOutcome::Output(v) && v@.len() == pre.config().output_elements
}

/// The full relation `Engine::invoke` establishes between the session
/// before the call, the reported kernel outcome, the session after the
/// call and the returned result.
pub open spec fn invoke_post(
    pre: Engine,
    kernel: KernelOutcome,
    post: Engine,
    r: Result<(), InvocationError>,
) -> bool {
    &&& post.config() == pre.config()
    &&& post.arena_len() == pre.arena_len()
    &&& post.layout() == pre.layout()
    &&& post.input() == pre.input()
    &&& (r is Ok <==> invoke_accepts(pre, kernel))
    &&& (invoke_accepts(pre, kernel) ==> post.state() is Invoked)
    &&& (invoke_accepts(pre, kernel) ==> (kernel matches KernelOutcome::Output(v) ==> post.output()
        == v@))
    &&& (!invoke_accepts(pre, kernel) ==> post == pre)
    &&& (pre.state() is Constructed ==> r == Err::<(), InvocationError>(
        InvocationError::InputNotSet,
    ))
    &&& (!(pre.state() is Constructed) && !invoke_accepts(pre, kernel) ==> r == Err::<
        (),
        InvocationError,
    >(InvocationError::KernelFault))
}

impl Engine {
    /// The storage configuration the session was constructed with.
    pub closed spec fn config(self) -> ModelConfig {
        self.config
    }

    /// The size in bytes of the arena the session borrowed.
    pub closed spec fn arena_len(self) -> nat {
        self.arena.spec_len()
    }

    /// The partition of the arena the session established at
    /// construction; it never changes afterwards.
    pub closed spec fn layout(self) -> ArenaLayout {
        self.layout
    }

    /// The protocol position of the session.
    pub closed spec fn state(self) -> EngineState {
        self.state
    }

    /// The current content of the input tensor region.
    pub closed spec fn input(self) -> Seq<i64> {
        self.input@
    }

    /// The current content of the output tensor region.
    pub closed spec fn output(self) -> Seq<i64> {
        self.output@
    }

    /// Session well-formedness: the arena meets the model's requirement,
    /// the layout partitions it, and the tensor regions have the
    /// configured element counts. Construction establishes it; every
    /// operation preserves it.
    pub open spec fn wf(self) -> bool {
        &&& arena_requirement(self.config()) <= self.arena_len()
        &&& layout_partitions(self.layout(), self.config(), self.arena_len())
        &&& self.input().len() == self.config().input_elements
        &&& self.output().len() == self.config().output_elements
    }

    /// Binds model, resolver and arena into a session, partitioning the
    /// arena for the graph's tensor and bookkeeping storage.
    ///
    /// Succeeds exactly when the model is structurally valid, the
    /// resolver covers every referenced operator and the arena meets the
    /// requirement; the session then starts with zero-initialized tensor
    /// regions. The failure is unrecoverable: model and arena size are
    /// fixed ahead of time.
    pub fn construct(model: &ModelHandle, resolver: &OpResolver, arena: TensorArena) -> (r: Result<
        Engine,
        ConstructionError,
    >)
        ensures
            r is Ok <==> construct_ok(*model, *resolver, arena.spec_len()),
            r matches Ok(e) ==> {
                &&& e.wf()
                &&& e.config() == model.config
                &&& e.arena_len() == arena.spec_len()
                &&& layout_partitions(e.layout(), model.config, arena.spec_len())
                &&& e.state() is Constructed
                &&& forall|i: int| 0 <= i < e.input().len() ==> e.input()[i] == 0i64
                &&& forall|i: int| 0 <= i < e.output().len() ==> e.output()[i] == 0i64
            },
            r matches Err(e) ==> e == construct_error(*model, *resolver, arena.spec_len()),
    {
        if !model.structurally_valid {
            return Err(ConstructionError::MalformedModel);
        }
        if !resolver.covers(&model.required_ops) {
            return Err(ConstructionError::UnresolvedOperator);
        }
        let arena_len = arena.len();
        match plan_arena(&model.config, arena_len) {
            None => Err(ConstructionError::ArenaTooSmall),
            Some(layout) => {
                let input = zeroed_values(model.config.input_elements);
                let output = zeroed_values(model.config.output_elements);
                Ok(Engine {
                    config: model.config,
                    arena,
                    layout,
                    state: EngineState::Constructed,
                    input,
                    output,
                })
            },
        }
    }

    /// Writes `data` into the input tensor at `index`, overwriting the
    /// input region of the arena; no copy is retained elsewhere.
    ///
    /// Succeeds exactly when the index names the model's single input
    /// tensor and the data length equals its expected flattened element
    /// count; on failure the session is unchanged.
    pub fn set_input(&mut self, index: usize, data: &Vec<i64>) -> (r: Result<(), InputError>)
        requires
            old(self).wf(),
        ensures
            final(self).wf(),
            final(self).config() == old(self).config(),
            final(self).arena_len() == old(self).arena_len(),
            final(self).layout() == old(self).layout(),
            final(self).output() == old(self).output(),
            r is Ok <==> index == 0 && data@.len() == old(self).config().input_elements,
            r is Ok ==> final(self).input() == data@ && final(self).state() is InputSet,
            r is Err ==> *final(self) == *old(self),
            index != 0 ==> r == Err::<(), InputError>(InputError::NoSuchTensor),
            index == 0 && data@.len() != old(self).config().input_elements ==> r == Err::<
                (),
                InputError,
            >(InputError::LengthMismatch),
    {
        if index != 0 {
            return Err(InputError::NoSuchTensor);
        }
        if data.len() != self.config.input_elements {
            return Err(InputError::LengthMismatch);
        }
        self.input = copy_values(data);
        self.state = EngineState::InputSet;
        Ok(())
    }

    /// Executes the full operator graph once, synchronously, taking the
    /// external runtime's reported outcome, and writes the produced
    /// elements into the output tensor region.
    ///
    /// Fails with `InputNotSet` when no input was ever written, and with
    /// `KernelFault` when a kernel faulted or the runtime's output does
    /// not have the model's output element count; on failure the session
    /// is unchanged. Re-invoking without resetting input re-uses the
    /// stale input data: the input region is never altered here.
    pub fn invoke(&mut self, kernel: KernelOutcome) -> (r: Result<(), InvocationError>)
        requires
            old(self).wf(),
        ensures
            final(self).wf(),
            invoke_post(*old(self), kernel, *final(self), r),
    {
        if matches!(self.state, EngineState::Constructed) {
            return Err(InvocationError::InputNotSet);
        }
        match kernel {
            KernelOutcome::Fault => Err(InvocationError::KernelFault),
            KernelOutcome::Output(values) => {
                if values.len() != self.config.output_elements {
                    return Err(InvocationError::KernelFault);
                }
                self.output = values;
                self.state = EngineState::Invoked;
                Ok(())
            },
        }
    }

    /// Returns a read-only view over the output tensor's region, valid
    /// until the session is next mutated.
    ///
    /// Some exactly when the index names the model's single output
    /// tensor and the graph has executed.
    pub fn get_output(&self, index: usize) -> (r: Option<&Vec<i64>>)
        ensures
            r is Some <==> index == 0 && self.state() is Invoked,
            r matches Some(v) ==> v@ == self.output(),
    {
        if index == 0 && matches!(self.state, EngineState::Invoked) {
            Some(&self.output)
        } else {
            None
        }
    }
}

/// Invocation is deterministic for a fixed session and a fixed reported
/// outcome: from equal sessions, equal outcomes produce equal results,
/// equal protocol positions and identical output.
pub proof fn lemma_invoke_deterministic(
    pre: Engine,
    kernel: KernelOutcome,
    post1: Engine,
    r1: Result<(), InvocationError>,
    post2: Engine,
    r2: Result<(), InvocationError>,
)
    requires
        invoke_post(pre, kernel, post1, r1),
        invoke_post(pre, kernel, post2, r2),
    ensures
        r1 == r2,
        post1.state() == post2.state(),
        post1.input() == post2.input(),
        post1.output() == post2.output(),
{
    match (r1, r2) {
        (Ok(u1), Ok(u2)) => {
            assert(u1 == u2);
        },
        _ => {},
    }
}

/// Re-invoking an already-invoked session with the same reported
/// outcome succeeds again, re-uses the stale input unchanged, and
/// yields output identical to the first pass.
pub proof fn lemma_reinvoke_stale_input(
    pre: Engine,
    kernel: KernelOutcome,
    post1: Engine,
    r1: Result<(), InvocationError>,
    post2: Engine,
    r2: Result<(), InvocationError>,
)
    requires
        invoke_accepts(pre, kernel),
        invoke_post(pre, kernel, post1, r1),
        invoke_post(post1, kernel, post2, r2),
    ensures
        r2 is Ok,
        post2.input() == pre.input(),
        post2.output() == post1.output(),
{
}

/// A vector of `n` zero elements: the zero-initialized content of a
/// freshly partitioned tensor region.
fn zeroed_values(n: usize) -> (r: Vec<i64>)
    ensures
        r@.len() == n,
        forall|i: int| 0 <= i < n ==> r@[i] == 0i64,
{
    let mut values: Vec<i64> = Vec::new();
    let mut i: usize = 0;
    while i < n
        invariant
            i <= n,
            values@.len() == i,
            forall|j: int| 0 <= j < i ==> values@[j] == 0i64,
        decreases n - i,
    {
        values.push(0i64);
        i = i + 1;
    }
    values
}

/// An element-for-element copy of `src`.
pub(crate) fn copy_values(src: &Vec<i64>) -> (r: Vec<i64>)
    ensures
        r@ == src@,
{
    let n = src.len();
    let mut values: Vec<i64> = Vec::new();
    let mut i: usize = 0;
    while i < n
        invariant
            n == src@.len(),
            i <= n,
            values@.len() == i,
            forall|j: int| 0 <= j < i ==> values@[j] == src@[j],
        decreases n - i,
    {
        values.push(src[i]);
        i = i + 1;
    }
    assert(values@ =~= src@);
    values
}

} // verus!
