//! Tensor-arena sizing policy and the arena buffer itself.
//!
//! The arena is the sole memory resource the runtime may use for input,
//! output, intermediate-activation and bookkeeping storage. Its required
//! size is a pure function of the model configuration: the element size
//! times the sum of the input, output, safety-margin and activation
//! element counts.

use vstd::prelude::*;

verus! {

/// Size in bytes of one tensor element (a 32-bit value).
pub const ELEMENT_BYTES: usize = 4;

/// Per-model storage configuration: the element counts from which the
/// arena requirement is derived. The margin and activation counts are a
/// model-specific configuration input, fixed per model architecture.
#[derive(Clone, Copy, PartialEq, Eq, Structural, Debug)]
pub struct ModelConfig {
    /// Flattened element count of the input tensor.
    pub input_elements: usize,
    /// Flattened element count of the output tensor.
    pub output_elements: usize,
    /// Safety-margin element count.
    pub margin_elements: usize,
    /// Element count of the activation buffers the model's intermediate
    /// computations require.
    pub activation_elements: usize,
}

/// The exact arena requirement of a configuration, in bytes:
/// `ELEMENT_BYTES * (input + output + margin + activation)`.
pub open spec fn arena_requirement(cfg: ModelConfig) -> int {
    (ELEMENT_BYTES as int)
        * (cfg.input_elements + cfg.output_elements + cfg.margin_elements
            + cfg.activation_elements)
}

/// Computes the arena requirement of `cfg` in bytes.
///
/// The requirement must fit in `usize`; `checked_required_arena_bytes`
/// reports instead of requiring.
pub fn required_arena_bytes(cfg: &ModelConfig) -> (r: usize)
    requires
        arena_requirement(*cfg) <= usize::MAX,
    ensures
        r == arena_requirement(*cfg),
{
    let sum: usize = cfg.input_elements + cfg.output_elements + cfg.margin_elements
        + cfg.activation_elements;
    ELEMENT_BYTES * sum
}

/// Computes the arena requirement of `cfg`, reporting `None` when it does
/// not fit in `usize`.
pub fn checked_required_arena_bytes(cfg: &ModelConfig) -> (r: Option<usize>)
    ensures
        arena_requirement(*cfg) <= usize::MAX ==> r == Some(
            (arena_requirement(*cfg)) as usize,
        ),
        arena_requirement(*cfg) > usize::MAX ==> r is None,
{
    let a = cfg.input_elements.checked_add(cfg.output_elements);
    match a {
        Some(a) => {
            let b = a.checked_add(cfg.margin_elements);
            match b {
                Some(b) => {
                    let c = b.checked_add(cfg.activation_elements);
                    match c {
                        Some(c) => ELEMENT_BYTES.checked_mul(c),
                        None => None,
                    }
                },
                None => None,
            }
        },
        None => None,
    }
}

/// The internal partition of an arena: the byte ranges of the input
/// tensor region, the output tensor region, and the scratch region left
/// for the runtime's intermediate-activation and bookkeeping storage.
#[derive(Clone, Copy, PartialEq, Eq, Structural, Debug)]
pub struct ArenaLayout {
    /// Byte offset of the input tensor region.
    pub input_offset: usize,
    /// Byte length of the input tensor region.
    pub input_bytes: usize,
    /// Byte offset of the output tensor region.
    pub output_offset: usize,
    /// Byte length of the output tensor region.
    pub output_bytes: usize,
    /// Byte offset of the scratch region.
    pub scratch_offset: usize,
    /// Byte length of the scratch region.
    pub scratch_bytes: usize,
}

/// Whether `layout` partitions an arena of `arena_len` bytes for `cfg`:
/// the input region starts at the base, the output region follows it,
/// and the scratch region takes every remaining byte, so the three
/// regions tile the arena exactly.
pub open spec fn layout_partitions(layout: ArenaLayout, cfg: ModelConfig, arena_len: nat) -> bool {
    &&& layout.input_offset == 0
    &&& layout.input_bytes == (ELEMENT_BYTES as int) * cfg.input_elements
    &&& layout.output_offset == layout.input_offset + layout.input_bytes
    &&& layout.output_bytes == (ELEMENT_BYTES as int) * cfg.output_elements
    &&& layout.scratch_offset == layout.output_offset + layout.output_bytes
    &&& layout.scratch_offset + layout.scratch_bytes == arena_len
}

/// Plans the partition of an arena of `arena_len` bytes for `cfg`.
///
/// Succeeds exactly when the arena meets the requirement; the planned
/// regions then tile the arena, and the scratch region holds at least
/// the margin and activation storage the requirement reserves.
pub fn plan_arena(cfg: &ModelConfig, arena_len: usize) -> (r: Option<ArenaLayout>)
    ensures
        r is Some <==> arena_requirement(*cfg) <= arena_len,
        r matches Some(layout) ==> {
            &&& layout_partitions(layout, *cfg, arena_len as nat)
            &&& layout.scratch_bytes >= (ELEMENT_BYTES as int) * (cfg.margin_elements
                + cfg.activation_elements)
        },
{
    match checked_required_arena_bytes(cfg) {
        None => None,
        Some(required) => {
            if arena_len < required {
                None
            } else {
                let input_bytes: usize = ELEMENT_BYTES * cfg.input_elements;
                let output_bytes: usize = ELEMENT_BYTES * cfg.output_elements;
                let scratch_offset: usize = input_bytes + output_bytes;
                Some(
                    ArenaLayout {
                        input_offset: 0,
                        input_bytes,
                        output_offset: input_bytes,
                        output_bytes,
                        scratch_offset,
                        scratch_bytes: arena_len - scratch_offset,
                    },
                )
            }
        },
    }
}

/// The planned regions do not overlap and lie within the arena: the
/// input region ends where the output region starts, the output region
/// ends where the scratch region starts, and the scratch region ends at
/// the arena's end.
pub proof fn lemma_layout_regions_disjoint(layout: ArenaLayout, cfg: ModelConfig, arena_len: nat)
    requires
        layout_partitions(layout, cfg, arena_len),
    ensures
        layout.input_offset + layout.input_bytes <= layout.output_offset,
        layout.output_offset + layout.output_bytes <= layout.scratch_offset,
        layout.scratch_offset + layout.scratch_bytes <= arena_len,
{
}

/// An arena large enough for `cfg` stays large enough when it grows:
/// once a size clears the requirement, every larger size does too.
pub proof fn lemma_requirement_threshold_monotonic(
    cfg: ModelConfig,
    smaller: int,
    larger: int,
)
    requires
        arena_requirement(cfg) <= smaller,
        smaller <= larger,
    ensures
        arena_requirement(cfg) <= larger,
{
}

/// A statically sized byte buffer, exclusively owned by one inference
/// session, from which all runtime tensor storage is carved. It is
/// allocated once, before the session, and never grows. The physical
/// buffer a device build hands to the runtime must additionally start
/// at a 16-byte-aligned address; alignment is a property of that
/// buffer's placement, which the owning driver guarantees.
pub struct TensorArena {
    bytes: Vec<u8>,
}

impl TensorArena {
    /// The arena's fixed size in bytes.
    pub closed spec fn spec_len(self) -> nat {
        self.bytes@.len()
    }

    /// Allocates a zero-initialized arena of exactly `size` bytes.
    pub fn new(size: usize) -> (a: TensorArena)
        ensures
            a.spec_len() == size,
    {
        let mut bytes: Vec<u8> = Vec::new();
        let mut i: usize = 0;
        while i < size
            invariant
                i <= size,
                bytes@.len() == i,
            decreases size - i,
        {
            bytes.push(0u8);
            i = i + 1;
        }
        TensorArena { bytes }
    }

    /// The arena's fixed size in bytes.
    pub fn len(&self) -> (r: usize)
        ensures
            r == self.spec_len(),
    {
        self.bytes.len()
    }
}

} // verus!
