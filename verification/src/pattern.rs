//! Pattern specs and the engines built on them: matching one pattern and
//! extracting its groups into field slots, and dispatching over an ordered
//! list of variant patterns, first match wins.
//!
//! The regular-expression engine itself is an external collaborator: the
//! `regex` crate does the matching, behind a small trusted boundary.  What a
//! pattern matches and what each group captures are named by uninterpreted
//! functions (`rgx_match`, `rgx_group_at`, `rgx_group_named`): they depend on
//! the pattern and the input text alone, and everything the library proves is
//! relative to them.

use vstd::pervasive::VecAdditionalExecFns;
use vstd::prelude::*;

verus! {

/// Whether the pattern text is a valid regular expression.
pub uninterp spec fn pattern_ok(pattern: Seq<char>) -> bool;

/// Whether the pattern matches somewhere in the text.
pub uninterp spec fn rgx_match(pattern: Seq<char>, text: Seq<char>) -> bool;

/// The text captured by group number `idx` of the match, or absence when the
/// group did not participate or does not exist.  Meaningful when the pattern
/// matches the text.
pub uninterp spec fn rgx_group_at(pattern: Seq<char>, text: Seq<char>, idx: int) -> Option<
    Seq<char>,
>;

/// The text captured by the group called `name`, or absence when the group
/// did not participate or does not exist.  Meaningful when the pattern
/// matches the text.
pub uninterp spec fn rgx_group_named(pattern: Seq<char>, text: Seq<char>, name: Seq<char>) -> Option<
    Seq<char>,
>;

/// Relies on `regex::Regex::new`: compilation succeeds exactly on valid
/// pattern text, deterministically in the pattern.
#[verifier::external_body]
fn regex_compiles(pattern: &str) -> (b: bool)
    ensures
        b == pattern_ok(pattern@),
{
    regex::Regex::new(pattern).is_ok()
}

/// Relies on `regex::Regex::new` and `regex::Regex::is_match`: whether the
/// pattern matches somewhere in the text, deterministically in pattern and
/// text.
#[verifier::external_body]
fn regex_is_match(pattern: &str, text: &str) -> (b: bool)
    requires
        pattern_ok(pattern@),
    ensures
        b == rgx_match(pattern@, text@),
{
    regex::Regex::new(pattern).unwrap().is_match(text)
}

/// Relies on `regex::Regex::captures`, `regex::Captures::get` and
/// `regex::Match::as_str`: the span captured by group `idx` of the leftmost
/// match, absent when the group did not participate or does not exist,
/// deterministically in pattern and text.
#[verifier::external_body]
fn regex_group_index<'t>(pattern: &str, text: &'t str, idx: usize) -> (r: Option<&'t str>)
    requires
        pattern_ok(pattern@),
        rgx_match(pattern@, text@),
    ensures
        r.deep_view() == rgx_group_at(pattern@, text@, idx as int),
{
    let caps = regex::Regex::new(pattern).unwrap().captures(text).unwrap();
    caps.get(idx).map(|m| m.as_str())
}

/// Relies on `regex::Regex::captures`, `regex::Captures::name` and
/// `regex::Match::as_str`: the span captured by the group called `name` in
/// the leftmost match, absent when the group did not participate or does not
/// exist, deterministically in pattern and text.
#[verifier::external_body]
fn regex_group_name<'t>(pattern: &str, text: &'t str, name: &str) -> (r: Option<&'t str>)
    requires
        pattern_ok(pattern@),
        rgx_match(pattern@, text@),
    ensures
        r.deep_view() == rgx_group_named(pattern@, text@, name@),
{
    let caps = regex::Regex::new(pattern).unwrap().captures(text).unwrap();
    caps.name(name).map(|m| m.as_str())
}

/// How one capture group is selected: by position or by name.
pub enum GroupSel {
    Index(usize),
    Name(String),
}

/// One group-to-field binding: the selected group's span goes to field slot
/// `slot` of the target.
pub struct Binding {
    pub group: GroupSel,
    pub slot: usize,
}

/// The span the selected group captures, given that the pattern matches.
pub open spec fn spec_group(p: Seq<char>, t: Seq<char>, sel: GroupSel) -> Option<Seq<char>> {
    match sel {
        GroupSel::Index(i) => rgx_group_at(p, t, i as int),
        GroupSel::Name(n) => rgx_group_named(p, t, n@),
    }
}

/// A row of field slots with no span in any of them.
pub open spec fn all_absent(n: nat) -> Seq<Option<Seq<char>>> {
    Seq::new(n, |i: int| None)
}

/// The row of field slots after the bindings are applied in order to `init`:
/// each binding whose group participated overwrites its slot with the
/// captured span; a binding whose group is absent leaves its slot untouched.
pub open spec fn apply_bindings(
    p: Seq<char>,
    t: Seq<char>,
    bs: Seq<Binding>,
    init: Seq<Option<Seq<char>>>,
) -> Seq<Option<Seq<char>>>
    decreases bs.len(),
{
    if bs.len() == 0 {
        init
    } else {
        let prev = apply_bindings(p, t, bs.drop_last(), init);
        let b = bs.last();
        match spec_group(p, t, b.group) {
            Some(s) => prev.update(b.slot as int, Some(s)),
            None => prev,
        }
    }
}

/// The selected group's span, looked up by position or by name.
fn lookup_group<'t>(pattern: &str, text: &'t str, sel: &GroupSel) -> (r: Option<&'t str>)
    requires
        pattern_ok(pattern@),
        rgx_match(pattern@, text@),
    ensures
        r.deep_view() == spec_group(pattern@, text@, *sel),
{
    match sel {
        GroupSel::Index(i) => regex_group_index(pattern, text, *i),
        GroupSel::Name(n) => regex_group_name(pattern, text, n.as_str()),
    }
}

/// One pattern with its group-to-field bindings, for a target with a fixed
/// number of field slots.  Supplied by the schema layer; read-only
/// configuration for the engines.
///
/// The pattern is kept as text, validated once at construction, and handed to
/// the matching engine on each attempt; the contracts are stated over the
/// pattern text alone.
pub struct PatternSpec {
    pattern: String,
    slots: usize,
    bindings: Vec<Binding>,
}

impl PatternSpec {
    #[verifier::type_invariant]
    spec fn wf(self) -> bool {
        &&& pattern_ok(self.pattern@)
        &&& forall|i: int|
            0 <= i < self.bindings@.len() ==> #[trigger] self.bindings@[i].slot < self.slots
    }

    /// The pattern text.
    pub closed spec fn spec_pattern(self) -> Seq<char> {
        self.pattern@
    }

    /// How many field slots the target has.
    pub closed spec fn spec_slots(self) -> nat {
        self.slots as nat
    }

    /// The group-to-field bindings, in application order.
    pub closed spec fn spec_bindings(self) -> Seq<Binding> {
        self.bindings@
    }

    /// The row of field slots this pattern extracts from `t`, starting from
    /// an empty row.
    pub open spec fn spec_extract(self, t: Seq<char>) -> Seq<Option<Seq<char>>> {
        apply_bindings(self.spec_pattern(), t, self.spec_bindings(), all_absent(self.spec_slots()))
    }

    /// Build a pattern spec.  Fails exactly when the pattern text is not a
    /// valid regular expression or some binding targets a slot out of range.
    pub fn new(pattern: String, slots: usize, bindings: Vec<Binding>) -> (r: Option<PatternSpec>)
        ensures
            r is Some <==> pattern_ok(pattern@) && (forall|i: int|
                0 <= i < bindings@.len() ==> #[trigger] bindings@[i].slot < slots),
            r is Some ==> (r->0).spec_pattern() == pattern@ && (r->0).spec_slots() == slots as nat
                && (r->0).spec_bindings() == bindings@,
    {
        if !regex_compiles(pattern.as_str()) {
            return None;
        }
        let mut i: usize = 0;
        while i < bindings.len()
            invariant
                i <= bindings@.len(),
                forall|j: int| 0 <= j < i ==> #[trigger] bindings@[j].slot < slots,
            decreases bindings@.len() - i,
        {
            if bindings[i].slot >= slots {
                return None;
            }
            i = i + 1;
        }
        Some(PatternSpec { pattern, slots, bindings })
    }

    /// Surface the facts every pattern spec carries by construction: its
    /// pattern text is a valid regular expression, and each binding targets
    /// a slot below the slot count.
    pub fn facts(&self)
        ensures
            pattern_ok(self.spec_pattern()),
            forall|i: int|
                0 <= i < self.spec_bindings().len() ==> #[trigger] self.spec_bindings()[i].slot
                    < self.spec_slots(),
    {
        proof {
            use_type_invariant(&*self);
        }
    }

    /// How many field slots the target has.
    pub fn slot_count(&self) -> (r: usize)
        ensures
            r as nat == self.spec_slots(),
    {
        self.slots
    }

    /// Match this pattern against `text`.  On a match, the extracted row of
    /// field slots: each bound group's span in its slot, absent groups and
    /// unbound slots empty.  `None` exactly when the pattern does not match;
    /// no error is ever reported here.
    pub fn extract<'t>(&self, text: &'t str) -> (r: Option<Vec<Option<&'t str>>>)
        ensures
            r is Some <==> rgx_match(self.spec_pattern(), text@),
            r is Some ==> (r->0)@.len() == self.spec_slots(),
            r is Some ==> (r->0).deep_view() == self.spec_extract(text@),
    {
        proof {
            use_type_invariant(&*self);
        }
        if !regex_is_match(self.pattern.as_str(), text) {
            return None;
        }
        let mut out: Vec<Option<&'t str>> = Vec::new();
        let mut k: usize = 0;
        while k < self.slots
            invariant
                k <= self.slots,
                out@.len() == k,
                forall|j: int| 0 <= j < k ==> out@[j] is None,
            decreases self.slots - k,
        {
            out.push(None);
            k = k + 1;
        }
        proof {
            assert(out.deep_view() =~= all_absent(self.spec_slots()));
            assert(self.spec_bindings().take(0) =~= Seq::<Binding>::empty());
        }
        let ghost pat = self.spec_pattern();
        let ghost bnds = self.spec_bindings();
        let mut b: usize = 0;
        while b < self.bindings.len()
            invariant
                b <= bnds.len(),
                bnds == self.spec_bindings(),
                pat == self.spec_pattern(),
                rgx_match(pat, text@),
                out@.len() == self.spec_slots(),
                out.deep_view() == apply_bindings(
                    pat,
                    text@,
                    bnds.take(b as int),
                    all_absent(self.spec_slots()),
                ),
            decreases bnds.len() - b,
        {
            proof {
                use_type_invariant(&*self);
                assert(bnds[b as int].slot < self.slots);
            }
            let ghost prev = out.deep_view();
            let bind = &self.bindings[b];
            match lookup_group(self.pattern.as_str(), text, &bind.group) {
                Some(s) => {
                    out.set(bind.slot, Some(s));
                    proof {
                        assert(out.deep_view() =~= prev.update(bind.slot as int, Some(s@)));
                    }
                },
                None => {},
            }
            proof {
                assert(bnds.take(b + 1).drop_last() =~= bnds.take(b as int));
                assert(bnds.take(b + 1).last() == bnds[b as int]);
            }
            b = b + 1;
        }
        proof {
            assert(bnds.take(bnds.len() as int) =~= bnds);
        }
        Some(out)
    }
}

/// Try each variant's pattern against `text` in declared order; commit to the
/// first that matches and return its index with its extracted row of field
/// slots.  `None` exactly when no variant's pattern matches.
pub fn dispatch<'t>(variants: &Vec<PatternSpec>, text: &'t str) -> (r: Option<
    (usize, Vec<Option<&'t str>>),
>)
    ensures
        r is None ==> forall|i: int|
            0 <= i < variants@.len() ==> !rgx_match(#[trigger] variants@[i].spec_pattern(), text@),
        r matches Some(p) ==> {
            &&& (p.0 as int) < variants@.len()
            &&& rgx_match(variants@[p.0 as int].spec_pattern(), text@)
            &&& forall|i: int|
                0 <= i < p.0 as int ==> !rgx_match(#[trigger] variants@[i].spec_pattern(), text@)
            &&& p.1@.len() == variants@[p.0 as int].spec_slots()
            &&& p.1.deep_view() == variants@[p.0 as int].spec_extract(text@)
        },
{
    let mut i: usize = 0;
    while i < variants.len()
        invariant
            i <= variants@.len(),
            forall|j: int|
                0 <= j < i ==> !rgx_match(#[trigger] variants@[j].spec_pattern(), text@),
        decreases variants@.len() - i,
    {
        match variants[i].extract(text) {
            Some(row) => {
                return Some((i, row));
            },
            None => {},
        }
        i = i + 1;
    }
    None
}

/// Law: variant order is deterministic.  The dispatcher commits to an index
/// `k` below which nothing matches; so when the input matches the patterns of
/// variants `i` and `j` with `i < j`, the committed index is at most `i` and
/// is never `j`.
pub proof fn lemma_first_match_wins(
    variants: Seq<PatternSpec>,
    t: Seq<char>,
    k: int,
    i: int,
    j: int,
)
    requires
        0 <= i < j < variants.len(),
        rgx_match(variants[i].spec_pattern(), t),
        rgx_match(variants[j].spec_pattern(), t),
        0 <= k < variants.len(),
        rgx_match(variants[k].spec_pattern(), t),
        forall|m: int| 0 <= m < k ==> !rgx_match(#[trigger] variants[m].spec_pattern(), t),
    ensures
        k <= i,
        k != j,
{
}

} // verus!
