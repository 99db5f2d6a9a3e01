//! Sequential multi-input assembly: one value is built across several
//! independent inputs by trying an ordered list of patterns, one per input,
//! strictly in order.
//!
//! Each step either fails (the current pattern does not match, the state is
//! unchanged), advances (the pattern matches and its fields are merged into
//! the partial row), or completes (the last pattern matches and the finished
//! row is handed out).

use crate::overlay::{lemma_apply_bindings_overlay, Overlay};
use crate::pattern::{all_absent, apply_bindings, rgx_match, PatternSpec};
use vstd::prelude::*;

verus! {

/// What one step of a chained parse hands back: the next state of the chain,
/// or the finished value.
pub enum ChainNext<S, T> {
    /// The chain goes on: the state to feed the next input to.
    Step(S),
    /// The chain is consumed: the finished value.
    Complete(T),
}

/// The state machine of a chained parse: the patterns still to be tried in
/// order, and the partial row of field slots filled so far.
pub struct ChainAssembler {
    steps: Vec<PatternSpec>,
    next: usize,
    partial: Vec<Option<String>>,
}

impl ChainAssembler {
    #[verifier::type_invariant]
    spec fn wf(self) -> bool {
        &&& 0 < self.steps@.len()
        &&& self.next < self.steps@.len()
        &&& forall|i: int|
            0 <= i < self.steps@.len() ==> #[trigger] self.steps@[i].spec_slots()
                == self.partial@.len()
    }

    /// The patterns of the chain, in the order they are consumed.
    pub closed spec fn spec_steps(self) -> Seq<PatternSpec> {
        self.steps@
    }

    /// The index of the pattern the next input will be tried against.
    pub closed spec fn spec_next(self) -> nat {
        self.next as nat
    }

    /// The partial row of field slots filled so far.
    pub closed spec fn spec_partial(self) -> Seq<Option<Seq<char>>> {
        self.partial.deep_view()
    }

    /// The pattern spec the next input will be tried against.
    pub open spec fn spec_current(self) -> PatternSpec {
        self.spec_steps()[self.spec_next() as int]
    }

    /// Begin a chained parse over `steps`, all for a target of `slots` field
    /// slots, with nothing attempted and every slot empty.  Fails exactly
    /// when the chain would be empty or some step disagrees about the
    /// target's width.
    pub fn new(steps: Vec<PatternSpec>, slots: usize) -> (r: Option<ChainAssembler>)
        ensures
            r is Some <==> 0 < steps@.len() && (forall|i: int|
                0 <= i < steps@.len() ==> #[trigger] steps@[i].spec_slots() == slots as nat),
            r is Some ==> (r->0).spec_steps() == steps@ && (r->0).spec_next() == 0 && (
            r->0).spec_partial() == all_absent(slots as nat),
    {
        if steps.len() == 0 {
            return None;
        }
        let mut i: usize = 0;
        while i < steps.len()
            invariant
                i <= steps@.len(),
                forall|j: int| 0 <= j < i ==> #[trigger] steps@[j].spec_slots() == slots as nat,
            decreases steps@.len() - i,
        {
            if steps[i].slot_count() != slots {
                return None;
            }
            i = i + 1;
        }
        let mut partial: Vec<Option<String>> = Vec::new();
        let mut k: usize = 0;
        while k < slots
            invariant
                k <= slots,
                partial@.len() == k,
                forall|j: int| 0 <= j < k ==> partial@[j] is None,
            decreases slots - k,
        {
            partial.push(None);
            k = k + 1;
        }
        let a = ChainAssembler { steps, next: 0, partial };
        proof {
            assert(a.spec_partial() =~= all_absent(slots as nat));
        }
        Some(a)
    }

    /// Surface the facts every chain state carries by construction: the
    /// chain is non-empty, the next index is in range, and every step agrees
    /// about the row's width.
    pub fn facts(&self)
        ensures
            0 < self.spec_steps().len(),
            self.spec_next() < self.spec_steps().len(),
            forall|i: int|
                0 <= i < self.spec_steps().len() ==> #[trigger] self.spec_steps()[i].spec_slots()
                    == self.spec_partial().len(),
    {
        proof {
            use_type_invariant(&*self);
        }
    }

    /// Feed one input to the chain.  The flag says whether the current
    /// pattern matched.  On no match the state comes back unchanged; on a
    /// match the extracted fields are merged into the partial row and the
    /// chain advances, handing out the finished row exactly when the matched
    /// pattern was the last one.
    pub fn advance(self, text: &str) -> (r: (bool, ChainNext<ChainAssembler, Vec<Option<String>>>))
        ensures
            r.0 == rgx_match(self.spec_current().spec_pattern(), text@),
            !r.0 ==> r.1 == ChainNext::<ChainAssembler, Vec<Option<String>>>::Step(self),
            r.1 is Complete <==> r.0 && self.spec_next() + 1 == self.spec_steps().len(),
            r.0 ==> (r.1 matches ChainNext::Step(a) ==> a.spec_steps() == self.spec_steps()
                && a.spec_next() == self.spec_next() + 1 && a.spec_partial() == apply_bindings(
                self.spec_current().spec_pattern(),
                text@,
                self.spec_current().spec_bindings(),
                self.spec_partial(),
            )),
            r.1 matches ChainNext::Complete(row) ==> row.deep_view() == apply_bindings(
                self.spec_current().spec_pattern(),
                text@,
                self.spec_current().spec_bindings(),
                self.spec_partial(),
            ),
    {
        proof {
            use_type_invariant(&self);
        }
        let ChainAssembler { steps, next, partial } = self;
        let n = steps.len();
        let cur = &steps[next];
        cur.facts();
        match Overlay::extract(cur, text) {
            None => (false, ChainNext::Step(ChainAssembler { steps, next, partial })),
            Some(ov) => {
                let ghost before = partial.deep_view();
                let mut partial = partial;
                ov.apply(&mut partial);
                proof {
                    lemma_apply_bindings_overlay(
                        cur.spec_pattern(),
                        text@,
                        cur.spec_bindings(),
                        before,
                    );
                }
                if next + 1 < n {
                    (true, ChainNext::Step(ChainAssembler { steps, next: next + 1, partial }))
                } else {
                    (true, ChainNext::Complete(partial))
                }
            },
        }
    }
}

} // verus!
