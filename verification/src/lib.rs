//! Extraction of strongly-typed structured values from free-form text.
//!
//! A pattern (a regular expression with capture groups) is matched against an
//! input; each captured span is handed to the conversion contract
//! ([`capture::FromMatch`]) for the target field's type.  On top of that sit a
//! first-match-wins dispatcher over an ordered list of variant patterns
//! ([`pattern::dispatch`]), a sequential multi-input assembler
//! ([`chain::ChainAssembler`]), and an overlay mechanism that patches an
//! already-built value with the fields of one later, independent match
//! ([`overlay::Overlay`]).

pub mod capture;
pub mod chain;
pub mod numeric;
pub mod overlay;
pub mod pattern;
pub mod traits;
