//! Overlay extraction and application: one isolated pattern match produces a
//! bag of field updates that can be merged into an already-built row,
//! overwriting only the slots its groups actually captured.

use crate::pattern::{all_absent, apply_bindings, rgx_match, spec_group, Binding, PatternSpec};
use vstd::pervasive::VecAdditionalExecFns;
use vstd::prelude::*;

verus! {

/// The row after merging the updates `u` into `t`: a slot the overlay
/// carries is overwritten, a slot it does not carry keeps its old value.
pub open spec fn spec_overlay(
    u: Seq<Option<Seq<char>>>,
    t: Seq<Option<Seq<char>>>,
) -> Seq<Option<Seq<char>>> {
    Seq::new(t.len(), |j: int| if u[j] is Some { u[j] } else { t[j] })
}

/// Law: merging overwrites exactly the slots the overlay carries; every
/// other slot of the target keeps its value.
pub proof fn lemma_overlay_pointwise(u: Seq<Option<Seq<char>>>, t: Seq<Option<Seq<char>>>, j: int)
    requires
        0 <= j < t.len(),
    ensures
        u[j] is Some ==> spec_overlay(u, t)[j] == u[j],
        u[j] is None ==> spec_overlay(u, t)[j] == t[j],
{
}

/// Law: overlay application is idempotent.  Applying the same updates twice
/// produces the same row as applying them once.
pub proof fn lemma_overlay_idempotent(u: Seq<Option<Seq<char>>>, t: Seq<Option<Seq<char>>>)
    ensures
        spec_overlay(u, spec_overlay(u, t)) == spec_overlay(u, t),
{
    assert(spec_overlay(u, spec_overlay(u, t)) =~= spec_overlay(u, t));
}

/// Applying bindings keeps the row's width.
pub proof fn lemma_apply_bindings_len(
    p: Seq<char>,
    t: Seq<char>,
    bs: Seq<Binding>,
    init: Seq<Option<Seq<char>>>,
)
    requires
        forall|i: int| 0 <= i < bs.len() ==> #[trigger] bs[i].slot < init.len(),
    ensures
        apply_bindings(p, t, bs, init).len() == init.len(),
    decreases bs.len(),
{
    if bs.len() > 0 {
        let head = bs.drop_last();
        assert forall|i: int| 0 <= i < head.len() implies #[trigger] head[i].slot < init.len() by {
            assert(head[i] == bs[i]);
        }
        lemma_apply_bindings_len(p, t, head, init);
    }
}

/// Applying bindings over an arbitrary initial row is one overlay step: it
/// equals merging the row the bindings extract from an empty row into the
/// initial one.
pub proof fn lemma_apply_bindings_overlay(
    p: Seq<char>,
    t: Seq<char>,
    bs: Seq<Binding>,
    init: Seq<Option<Seq<char>>>,
)
    requires
        forall|i: int| 0 <= i < bs.len() ==> #[trigger] bs[i].slot < init.len(),
    ensures
        apply_bindings(p, t, bs, init) == spec_overlay(
            apply_bindings(p, t, bs, all_absent(init.len())),
            init,
        ),
    decreases bs.len(),
{
    let n = init.len();
    if bs.len() == 0 {
        assert(spec_overlay(all_absent(n), init) =~= init);
    } else {
        let head = bs.drop_last();
        assert forall|i: int| 0 <= i < head.len() implies #[trigger] head[i].slot < init.len() by {
            assert(head[i] == bs[i]);
        }
        lemma_apply_bindings_overlay(p, t, head, init);
        lemma_apply_bindings_len(p, t, head, init);
        lemma_apply_bindings_len(p, t, head, all_absent(n));
        let prev_i = apply_bindings(p, t, head, init);
        let prev_0 = apply_bindings(p, t, head, all_absent(n));
        let b = bs.last();
        match spec_group(p, t, b.group) {
            Some(s) => {
                assert(spec_overlay(prev_0.update(b.slot as int, Some(s)), init) =~= prev_i.update(
                    b.slot as int,
                    Some(s),
                ));
            },
            None => {},
        }
    }
}

/// A bag of optional field updates produced by one isolated pattern match.
/// It carries exactly the slots whose groups participated in that match.
pub struct Overlay {
    updates: Vec<Option<String>>,
}

/// The row `t` after the slots below `k` that `u` carries are overwritten.
spec fn overlay_upto(
    u: Seq<Option<Seq<char>>>,
    t: Seq<Option<Seq<char>>>,
    k: int,
) -> Seq<Option<Seq<char>>> {
    Seq::new(t.len(), |j: int| if j < k && u[j] is Some { u[j] } else { t[j] })
}

impl Overlay {
    /// The updates, one optional span per field slot.
    pub closed spec fn spec_updates(self) -> Seq<Option<Seq<char>>> {
        self.updates.deep_view()
    }

    /// Match `spec`'s pattern against `text` in isolation.  On a match, the
    /// overlay carrying exactly the slots whose groups captured a span;
    /// `None` exactly when the pattern does not match.
    pub fn extract(spec: &PatternSpec, text: &str) -> (r: Option<Overlay>)
        ensures
            r is Some <==> rgx_match(spec.spec_pattern(), text@),
            r is Some ==> (r->0).spec_updates() == spec.spec_extract(text@),
            r is Some ==> (r->0).spec_updates().len() == spec.spec_slots(),
    {
        match spec.extract(text) {
            None => None,
            Some(row) => {
                let ghost row_view = row.deep_view();
                let mut updates: Vec<Option<String>> = Vec::new();
                let mut i: usize = 0;
                while i < row.len()
                    invariant
                        i <= row@.len(),
                        updates@.len() == i,
                        row_view == row.deep_view(),
                        updates.deep_view() == row_view.take(i as int),
                    decreases row@.len() - i,
                {
                    let ghost prev = updates.deep_view();
                    let cell: Option<&str> = row[i];
                    match cell {
                        Some(s) => updates.push(Some(s.to_owned())),
                        None => updates.push(None),
                    }
                    proof {
                        assert(updates.deep_view() =~= prev.push(row_view[i as int]));
                        assert(row_view.take(i + 1) =~= row_view.take(i as int).push(
                            row_view[i as int],
                        ));
                    }
                    i = i + 1;
                }
                proof {
                    assert(row_view.take(row_view.len() as int) =~= row_view);
                }
                Some(Overlay { updates })
            },
        }
    }

    /// Merge this overlay into `target`: overwrite exactly the slots the
    /// overlay carries, leave every other slot untouched.
    pub fn apply(&self, target: &mut Vec<Option<String>>)
        requires
            old(target)@.len() == self.spec_updates().len(),
        ensures
            final(target)@.len() == old(target)@.len(),
            final(target).deep_view() == spec_overlay(
                self.spec_updates(),
                old(target).deep_view(),
            ),
    {
        let ghost u = self.spec_updates();
        let ghost t0 = old(target).deep_view();
        proof {
            assert(overlay_upto(u, t0, 0) =~= t0);
        }
        let mut i: usize = 0;
        while i < self.updates.len()
            invariant
                i <= self.updates@.len(),
                u == self.spec_updates(),
                target@.len() == t0.len(),
                t0.len() == self.updates@.len(),
                target.deep_view() == overlay_upto(u, t0, i as int),
            decreases self.updates@.len() - i,
        {
            let ghost prev = target.deep_view();
            match &self.updates[i] {
                Some(s) => {
                    target.set(i, Some(s.clone()));
                    proof {
                        assert(target.deep_view() =~= prev.update(i as int, u[i as int]));
                        assert(target.deep_view() =~= overlay_upto(u, t0, i + 1));
                    }
                },
                None => {
                    proof {
                        assert(target.deep_view() =~= overlay_upto(u, t0, i + 1));
                    }
                },
            }
            i = i + 1;
        }
        proof {
            assert(overlay_upto(u, t0, t0.len() as int) =~= spec_overlay(u, t0));
        }
    }
}

} // verus!
