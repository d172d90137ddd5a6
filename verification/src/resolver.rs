//! The operator resolver: a fixed table mapping the operator identifiers
//! a model graph references to executable kernel implementations.
//!
//! A session can only be constructed when the resolver covers every
//! operator the model references. The kernels themselves live in the
//! external runtime; the harness tracks which identifiers are resolvable.

use vstd::prelude::*;

verus! {

/// A fixed table of resolvable operator identifiers, built once before
/// the session and never extended.
pub struct OpResolver {
    all_ops: bool,
    registered: Vec<u16>,
}

impl OpResolver {
    /// Whether the resolver maps `op` to a kernel.
    pub closed spec fn spec_resolves(self, op: u16) -> bool {
        self.all_ops || self.registered@.contains(op)
    }

    /// Whether the resolver maps every operator in `ops` to a kernel.
    pub open spec fn spec_covers(self, ops: Seq<u16>) -> bool {
        forall|i: int| 0 <= i < ops.len() ==> self.spec_resolves(ops[i])
    }

    /// A resolver with all known operators pre-registered.
    pub fn all_ops() -> (r: OpResolver)
        ensures
            forall|op: u16| r.spec_resolves(op),
    {
        OpResolver { all_ops: true, registered: Vec::new() }
    }

    /// A resolver over exactly the given operator identifiers.
    pub fn with_ops(ops: Vec<u16>) -> (r: OpResolver)
        ensures
            forall|op: u16| r.spec_resolves(op) <==> ops@.contains(op),
    {
        OpResolver { all_ops: false, registered: ops }
    }

    /// Looks `op` up in the table.
    pub fn resolves(&self, op: u16) -> (r: bool)
        ensures
            r == self.spec_resolves(op),
    {
        if self.all_ops {
            return true;
        }
        let n = self.registered.len();
        let mut i: usize = 0;
        while i < n
            invariant
                n == self.registered@.len(),
                i <= n,
                !self.all_ops,
                forall|j: int| 0 <= j < i ==> self.registered@[j] != op,
            decreases n - i,
        {
            if self.registered[i] == op {
                return true;
            }
            i = i + 1;
        }
        false
    }

    /// Checks that every operator in `ops` is resolvable.
    pub fn covers(&self, ops: &Vec<u16>) -> (r: bool)
        ensures
            r == self.spec_covers(ops@),
    {
        let n = ops.len();
        let mut i: usize = 0;
        while i < n
            invariant
                n == ops@.len(),
                i <= n,
                forall|j: int| 0 <= j < i ==> self.spec_resolves(ops@[j]),
            decreases n - i,
        {
            if !self.resolves(ops[i]) {
                assert(!self.spec_resolves(ops@[i as int]));
                return false;
            }
            i = i + 1;
        }
        true
    }
}

} // verus!
