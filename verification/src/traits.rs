//! The capabilities a parseable target type exposes.  The schema layer (a
//! code generator or hand-written glue) implements them for each target by
//! building pattern specs and driving the engines of this crate; the traits
//! themselves fix only the shape of the operations.

use crate::chain::ChainNext;
use vstd::prelude::*;

verus! {

/// Parse an input text into a value: absent exactly when no pattern of the
/// type matches.
pub trait RegexParser<'t>: Sized {
    fn parse_regex(txt: &'t str) -> Option<Self>;
}

/// Parse a partial structure from an input text in isolation.  The partial
/// structure can then be applied to an already-built value, overwriting only
/// the fields its pattern captured.
pub trait RegexParserApply<'t>: Sized {
    /// The type of the partial structure.
    type Apply;

    fn parse_apply(txt: &'t str) -> Option<Self::Apply>;
}

/// Begin a chained, multi-input parse of a value.
pub trait RegexParserChain<'t>: Sized {
    /// The type of the chain state the parse starts from.
    type Chain;

    fn create_chain() -> Self::Chain;
}

/// One step of a chained parse.  The flag says whether the text was parsed;
/// when it was not, the same state comes back in `ChainNext::Step`.  When it
/// was, the next state comes back, or the finished value in
/// `ChainNext::Complete` after the final pattern of the chain.
pub trait RegexParserChained<'t>: Sized {
    /// The final value the chain creates.
    type Chained;

    fn parse_chain(self, txt: &'t str) -> (bool, ChainNext<Self, Self::Chained>);
}

} // verus!
