//! An instruction-body builder that keeps a function body well formed as it
//! grows: structured blocks never close more than they opened, branches
//! target open labels only, and every local lies below the declared count.

use vstd::prelude::*;
use crate::wasm::{
    Instruction, nesting_delta, local_ok, branch_ok, depth, prefix_ok, locals_below, body_ok,
    lemma_push_drop_last, lemma_depth_concat, lemma_prefix_concat,
};

verus! {

/// A function body under construction.
pub struct Body {
    instrs: Vec<Instruction>,
    open_blocks: u32,
    n_locals: u32,
}

impl Body {
    /// The instructions emitted so far.
    pub closed spec fn instrs(&self) -> Seq<Instruction> {
        self.instrs@
    }

    /// Number of structured blocks currently open.
    pub closed spec fn open_blocks(&self) -> nat {
        self.open_blocks as nat
    }

    /// Number of locals (parameters included) the body may use.
    pub closed spec fn n_locals(&self) -> nat {
        self.n_locals as nat
    }

    /// The builder's invariant.
    pub closed spec fn wf(&self) -> bool {
        &&& self.open_blocks as int == depth(self.instrs@)
        &&& prefix_ok(self.instrs@)
        &&& locals_below(self.instrs@, self.n_locals as nat)
    }

    /// An empty body for a function with `n_locals` locals.
    pub fn new(n_locals: u32) -> (b: Body)
        ensures
            b.wf(),
            b.instrs() == Seq::<Instruction>::empty(),
            b.open_blocks() == 0,
            b.n_locals() == n_locals,
    {
        Body { instrs: Vec::new(), open_blocks: 0, n_locals }
    }

    /// Emit one instruction.
    pub fn i(&mut self, ins: Instruction)
        requires
            old(self).wf(),
            old(self).open_blocks() + nesting_delta(ins) >= 0,
            old(self).open_blocks() < u32::MAX,
            local_ok(ins, old(self).n_locals()),
            branch_ok(ins, old(self).open_blocks() as int),
        ensures
            final(self).wf(),
            final(self).instrs() == old(self).instrs().push(ins),
            final(self).open_blocks() == old(self).open_blocks() + nesting_delta(ins),
            final(self).n_locals() == old(self).n_locals(),
    {
        let ghost s = self.instrs@;
        self.instrs.push(ins);
        proof {
            lemma_push_drop_last(s, ins);
        }
        match ins {
            Instruction::Block(_) | Instruction::Loop(_) | Instruction::If(_) => {
                self.open_blocks = self.open_blocks + 1;
            },
            Instruction::End => {
                self.open_blocks = self.open_blocks - 1;
            },
            _ => {},
        }
        proof {
            assert forall|k: int| 0 <= k < self.instrs@.len() implies #[trigger] local_ok(
                self.instrs@[k],
                self.n_locals as nat,
            ) by {
                if k < s.len() {
                    assert(self.instrs@[k] == s[k]);
                }
            }
        }
    }

    /// Emit a complete, well-formed body fragment.
    pub fn extend(&mut self, other: Vec<Instruction>)
        requires
            old(self).wf(),
            body_ok(other@, old(self).n_locals()),
        ensures
            final(self).wf(),
            final(self).instrs() == old(self).instrs() + other@,
            final(self).open_blocks() == old(self).open_blocks(),
            final(self).n_locals() == old(self).n_locals(),
    {
        let ghost s = self.instrs@;
        let ghost o = other@;
        let mut other = other;
        self.instrs.append(&mut other);
        proof {
            lemma_depth_concat(s, o);
            lemma_prefix_concat(s, o);
            let t = self.instrs@;
            assert forall|k: int| 0 <= k < t.len() implies #[trigger] local_ok(
                t[k],
                self.n_locals as nat,
            ) by {
                if k < s.len() {
                    assert(t[k] == s[k]);
                } else {
                    assert(t[k] == o[k - s.len()]);
                }
            }
        }
    }

    /// The finished body.
    pub fn finish(self) -> (v: Vec<Instruction>)
        requires
            self.wf(),
            self.open_blocks() == 0,
        ensures
            body_ok(v@, self.n_locals()),
            v@ == self.instrs(),
    {
        self.instrs
    }
}

} // verus!
