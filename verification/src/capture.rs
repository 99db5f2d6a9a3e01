//! The conversion contract: turning one optional captured span into a typed
//! value.
//!
//! A capture is the text of one group of a successful pattern match, or its
//! absence when the group did not participate.  [`FromMatch`] is the
//! capability of being built from such a capture; [`Cap`] wraps one capture
//! and exposes the single conversion entry point.
//!
//! Absence of a match is never reported here: by the time a capture reaches
//! conversion, its pattern has already matched.  What can go wrong is a
//! mismatch between the pattern and the declared field type (a group declared
//! present that is absent, or text that does not denote a value of the type);
//! that is a [`ConvertError`], distinguished and propagated, never a panic.

use crate::numeric::{int_of, parse_signed_text, parse_unsigned_text, uint_of};
use std::rc::Rc;
use std::sync::Arc;
use vstd::prelude::*;

verus! {

/// A contract violation between a pattern and the type bound to one of its
/// groups.  This is a schema error, not bad input data: a pattern is expected
/// to capture only text convertible to the bound type.
#[derive(Debug, Clone, Copy, PartialEq, Eq, Structural)]
pub enum ConvertError {
    /// The group was absent although the bound type needs its text.
    MissingCapture,
    /// The captured text does not denote a value of the bound type.
    Unparsable,
}

/// The capability of being built from one optional captured span.
///
/// `match_ok` says on which captures the conversion succeeds, `match_model`
/// what value (as its mathematical model, `DeepView::V`) it then yields, and
/// `match_err` which violation is reported otherwise.
pub trait FromMatch<'t>: DeepView + Sized {
    /// Whether conversion of the capture succeeds.
    spec fn match_ok(m: Option<Seq<char>>) -> bool;

    /// The model of the converted value, when conversion succeeds.
    spec fn match_model(m: Option<Seq<char>>) -> Self::V;

    /// The violation reported, when conversion fails.
    spec fn match_err(m: Option<Seq<char>>) -> ConvertError;

    /// Convert the capture into a value.
    fn from_match(m: Option<&'t str>) -> (r: Result<Self, ConvertError>)
        ensures
            r is Ok <==> Self::match_ok(m.deep_view()),
            r is Ok ==> (r->Ok_0).deep_view() == Self::match_model(m.deep_view()),
            r is Err ==> r->Err_0 == Self::match_err(m.deep_view()),
    ;
}

/// One captured span: the matched text of one group, or its absence.
pub struct Cap<'t>(Option<&'t str>);

impl<'t> Cap<'t> {
    /// The capture as an optional character sequence.
    pub closed spec fn spec_capture(self) -> Option<Seq<char>> {
        self.0.deep_view()
    }

    /// Wrap one optional matched span.
    pub fn new(m: Option<&'t str>) -> (r: Self)
        ensures
            r.spec_capture() == m.deep_view(),
    {
        Cap(m)
    }

    /// Convert the captured span into a value of the target type.
    pub fn convert<T: FromMatch<'t>>(self) -> (r: Result<T, ConvertError>)
        ensures
            r is Ok <==> T::match_ok(self.spec_capture()),
            r is Ok ==> (r->Ok_0).deep_view() == T::match_model(self.spec_capture()),
            r is Err ==> r->Err_0 == T::match_err(self.spec_capture()),
    {
        T::from_match(self.0)
    }
}

/// The violation reported by conversions that need the capture's text.
pub open spec fn text_err(m: Option<Seq<char>>) -> ConvertError {
    if m is None {
        ConvertError::MissingCapture
    } else {
        ConvertError::Unparsable
    }
}

impl<'t> FromMatch<'t> for String {
    open spec fn match_ok(m: Option<Seq<char>>) -> bool {
        m is Some
    }

    open spec fn match_model(m: Option<Seq<char>>) -> Seq<char> {
        m->0
    }

    open spec fn match_err(m: Option<Seq<char>>) -> ConvertError {
        ConvertError::MissingCapture
    }

    /// Copies the matched span's characters into an owned value.
    fn from_match(m: Option<&'t str>) -> (r: Result<Self, ConvertError>) {
        match m {
            Some(s) => Ok(s.to_owned()),
            None => Err(ConvertError::MissingCapture),
        }
    }
}

impl<'t> FromMatch<'t> for &'t str {
    open spec fn match_ok(m: Option<Seq<char>>) -> bool {
        m is Some
    }

    open spec fn match_model(m: Option<Seq<char>>) -> Seq<char> {
        m->0
    }

    open spec fn match_err(m: Option<Seq<char>>) -> ConvertError {
        ConvertError::MissingCapture
    }

    /// Returns a view into the original input rather than an owned copy.
    fn from_match(m: Option<&'t str>) -> (r: Result<Self, ConvertError>) {
        match m {
            Some(s) => Ok(s),
            None => Err(ConvertError::MissingCapture),
        }
    }
}

impl<'t> FromMatch<'t> for bool {
    open spec fn match_ok(m: Option<Seq<char>>) -> bool {
        true
    }

    open spec fn match_model(m: Option<Seq<char>>) -> bool {
        m is Some
    }

    open spec fn match_err(m: Option<Seq<char>>) -> ConvertError {
        ConvertError::MissingCapture
    }

    /// True exactly when the group participated in the match, independent of
    /// the captured text.  Never fails.
    fn from_match(m: Option<&'t str>) -> (r: Result<Self, ConvertError>) {
        Ok(m.is_some())
    }
}

impl<'t> FromMatch<'t> for char {
    open spec fn match_ok(m: Option<Seq<char>>) -> bool {
        m is Some && (m->0).len() > 0
    }

    open spec fn match_model(m: Option<Seq<char>>) -> char {
        (m->0)[0]
    }

    open spec fn match_err(m: Option<Seq<char>>) -> ConvertError {
        text_err(m)
    }

    /// The first character of the matched text.
    fn from_match(m: Option<&'t str>) -> (r: Result<Self, ConvertError>) {
        match m {
            None => Err(ConvertError::MissingCapture),
            Some(s) => {
                if s.unicode_len() == 0 {
                    Err(ConvertError::Unparsable)
                } else {
                    Ok(s.get_char(0))
                }
            },
        }
    }
}

impl<'t, T: FromMatch<'t>> FromMatch<'t> for Option<T> {
    open spec fn match_ok(m: Option<Seq<char>>) -> bool {
        m is None || T::match_ok(m)
    }

    open spec fn match_model(m: Option<Seq<char>>) -> Option<T::V> {
        if m is None {
            None
        } else {
            Some(T::match_model(m))
        }
    }

    open spec fn match_err(m: Option<Seq<char>>) -> ConvertError {
        T::match_err(m)
    }

    /// An absent capture yields the absent optional; a present capture
    /// delegates to the inner conversion and wraps its value.
    fn from_match(m: Option<&'t str>) -> (r: Result<Self, ConvertError>) {
        match m {
            None => Ok(None),
            Some(_) => match T::from_match(m) {
                Ok(v) => Ok(Some(v)),
                Err(e) => Err(e),
            },
        }
    }
}

impl<'t, T: FromMatch<'t>> FromMatch<'t> for Box<T> {
    open spec fn match_ok(m: Option<Seq<char>>) -> bool {
        T::match_ok(m)
    }

    open spec fn match_model(m: Option<Seq<char>>) -> T::V {
        T::match_model(m)
    }

    open spec fn match_err(m: Option<Seq<char>>) -> ConvertError {
        T::match_err(m)
    }

    /// Delegates to the inner conversion and takes exclusive ownership of the
    /// value, behind one heap indirection.
    fn from_match(m: Option<&'t str>) -> (r: Result<Self, ConvertError>) {
        match T::from_match(m) {
            Ok(v) => Ok(Box::new(v)),
            Err(e) => Err(e),
        }
    }
}

impl<'t, T: FromMatch<'t>> FromMatch<'t> for Rc<T> {
    open spec fn match_ok(m: Option<Seq<char>>) -> bool {
        T::match_ok(m)
    }

    open spec fn match_model(m: Option<Seq<char>>) -> T::V {
        T::match_model(m)
    }

    open spec fn match_err(m: Option<Seq<char>>) -> ConvertError {
        T::match_err(m)
    }

    /// Delegates to the inner conversion and shares ownership of the value.
    fn from_match(m: Option<&'t str>) -> (r: Result<Self, ConvertError>) {
        match T::from_match(m) {
            Ok(v) => Ok(Rc::new(v)),
            Err(e) => Err(e),
        }
    }
}

impl<'t, T: FromMatch<'t>> FromMatch<'t> for Arc<T> {
    open spec fn match_ok(m: Option<Seq<char>>) -> bool {
        T::match_ok(m)
    }

    open spec fn match_model(m: Option<Seq<char>>) -> T::V {
        T::match_model(m)
    }

    open spec fn match_err(m: Option<Seq<char>>) -> ConvertError {
        T::match_err(m)
    }

    /// Delegates to the inner conversion and shares ownership of the value
    /// across threads.
    fn from_match(m: Option<&'t str>) -> (r: Result<Self, ConvertError>) {
        match T::from_match(m) {
            Ok(v) => Ok(Arc::new(v)),
            Err(e) => Err(e),
        }
    }
}

/// The capture holds unsigned decimal text denoting a value up to `max`.
pub open spec fn unsigned_ok(m: Option<Seq<char>>, max: int) -> bool {
    m is Some && (uint_of(m->0) matches Some(v) && v <= max)
}

/// The value denoted by the capture's unsigned decimal text.
pub open spec fn unsigned_val(m: Option<Seq<char>>) -> int {
    uint_of(m->0)->0
}

/// The capture holds signed decimal text denoting a value within bounds.
pub open spec fn signed_ok(m: Option<Seq<char>>, min: int, max: int) -> bool {
    m is Some && (int_of(m->0) matches Some(v) && min <= v <= max)
}

/// The value denoted by the capture's signed decimal text.
pub open spec fn signed_val(m: Option<Seq<char>>) -> int {
    int_of(m->0)->0
}

/// Shared body of the unsigned integer conversions.
fn convert_unsigned(m: Option<&str>, max: u128) -> (r: Result<u128, ConvertError>)
    ensures
        r is Ok <==> unsigned_ok(m.deep_view(), max as int),
        r is Ok ==> r->Ok_0 <= max && r->Ok_0 as int == unsigned_val(m.deep_view()),
        r is Err ==> r->Err_0 == text_err(m.deep_view()),
{
    match m {
        None => Err(ConvertError::MissingCapture),
        Some(s) => match parse_unsigned_text(s) {
            Some(v) => if v <= max {
                Ok(v)
            } else {
                Err(ConvertError::Unparsable)
            },
            None => Err(ConvertError::Unparsable),
        },
    }
}

/// Shared body of the signed integer conversions.
fn convert_signed(m: Option<&str>, min: i128, max: i128) -> (r: Result<i128, ConvertError>)
    ensures
        r is Ok <==> signed_ok(m.deep_view(), min as int, max as int),
        r is Ok ==> min <= r->Ok_0 <= max && r->Ok_0 as int == signed_val(m.deep_view()),
        r is Err ==> r->Err_0 == text_err(m.deep_view()),
{
    match m {
        None => Err(ConvertError::MissingCapture),
        Some(s) => match parse_signed_text(s) {
            Some(v) => if min <= v && v <= max {
                Ok(v)
            } else {
                Err(ConvertError::Unparsable)
            },
            None => Err(ConvertError::Unparsable),
        },
    }
}

impl<'t> FromMatch<'t> for u8 {
    open spec fn match_ok(m: Option<Seq<char>>) -> bool {
        unsigned_ok(m, u8::MAX as int)
    }

    open spec fn match_model(m: Option<Seq<char>>) -> u8 {
        unsigned_val(m) as u8
    }

    open spec fn match_err(m: Option<Seq<char>>) -> ConvertError {
        text_err(m)
    }

    /// Parses the matched text as unsigned decimal within the type's range.
    fn from_match(m: Option<&'t str>) -> (r: Result<Self, ConvertError>) {
        match convert_unsigned(m, u8::MAX as u128) {
            Ok(v) => Ok(v as u8),
            Err(e) => Err(e),
        }
    }
}

impl<'t> FromMatch<'t> for u16 {
    open spec fn match_ok(m: Option<Seq<char>>) -> bool {
        unsigned_ok(m, u16::MAX as int)
    }

    open spec fn match_model(m: Option<Seq<char>>) -> u16 {
        unsigned_val(m) as u16
    }

    open spec fn match_err(m: Option<Seq<char>>) -> ConvertError {
        text_err(m)
    }

    /// Parses the matched text as unsigned decimal within the type's range.
    fn from_match(m: Option<&'t str>) -> (r: Result<Self, ConvertError>) {
        match convert_unsigned(m, u16::MAX as u128) {
            Ok(v) => Ok(v as u16),
            Err(e) => Err(e),
        }
    }
}

impl<'t> FromMatch<'t> for u32 {
    open spec fn match_ok(m: Option<Seq<char>>) -> bool {
        unsigned_ok(m, u32::MAX as int)
    }

    open spec fn match_model(m: Option<Seq<char>>) -> u32 {
        unsigned_val(m) as u32
    }

    open spec fn match_err(m: Option<Seq<char>>) -> ConvertError {
        text_err(m)
    }

    /// Parses the matched text as unsigned decimal within the type's range.
    fn from_match(m: Option<&'t str>) -> (r: Result<Self, ConvertError>) {
        match convert_unsigned(m, u32::MAX as u128) {
            Ok(v) => Ok(v as u32),
            Err(e) => Err(e),
        }
    }
}

impl<'t> FromMatch<'t> for u64 {
    open spec fn match_ok(m: Option<Seq<char>>) -> bool {
        unsigned_ok(m, u64::MAX as int)
    }

    open spec fn match_model(m: Option<Seq<char>>) -> u64 {
        unsigned_val(m) as u64
    }

    open spec fn match_err(m: Option<Seq<char>>) -> ConvertError {
        text_err(m)
    }

    /// Parses the matched text as unsigned decimal within the type's range.
    fn from_match(m: Option<&'t str>) -> (r: Result<Self, ConvertError>) {
        match convert_unsigned(m, u64::MAX as u128) {
            Ok(v) => Ok(v as u64),
            Err(e) => Err(e),
        }
    }
}

impl<'t> FromMatch<'t> for u128 {
    open spec fn match_ok(m: Option<Seq<char>>) -> bool {
        unsigned_ok(m, u128::MAX as int)
    }

    open spec fn match_model(m: Option<Seq<char>>) -> u128 {
        unsigned_val(m) as u128
    }

    open spec fn match_err(m: Option<Seq<char>>) -> ConvertError {
        text_err(m)
    }

    /// Parses the matched text as unsigned decimal within the type's range.
    fn from_match(m: Option<&'t str>) -> (r: Result<Self, ConvertError>) {
        convert_unsigned(m, u128::MAX)
    }
}

impl<'t> FromMatch<'t> for usize {
    open spec fn match_ok(m: Option<Seq<char>>) -> bool {
        unsigned_ok(m, usize::MAX as int)
    }

    open spec fn match_model(m: Option<Seq<char>>) -> usize {
        unsigned_val(m) as usize
    }

    open spec fn match_err(m: Option<Seq<char>>) -> ConvertError {
        text_err(m)
    }

    /// Parses the matched text as unsigned decimal within the type's range.
    fn from_match(m: Option<&'t str>) -> (r: Result<Self, ConvertError>) {
        match convert_unsigned(m, usize::MAX as u128) {
            Ok(v) => Ok(v as usize),
            Err(e) => Err(e),
        }
    }
}

impl<'t> FromMatch<'t> for i8 {
    open spec fn match_ok(m: Option<Seq<char>>) -> bool {
        signed_ok(m, i8::MIN as int, i8::MAX as int)
    }

    open spec fn match_model(m: Option<Seq<char>>) -> i8 {
        signed_val(m) as i8
    }

    open spec fn match_err(m: Option<Seq<char>>) -> ConvertError {
        text_err(m)
    }

    /// Parses the matched text as signed decimal within the type's range.
    fn from_match(m: Option<&'t str>) -> (r: Result<Self, ConvertError>) {
        match convert_signed(m, i8::MIN as i128, i8::MAX as i128) {
            Ok(v) => Ok(v as i8),
            Err(e) => Err(e),
        }
    }
}

impl<'t> FromMatch<'t> for i16 {
    open spec fn match_ok(m: Option<Seq<char>>) -> bool {
        signed_ok(m, i16::MIN as int, i16::MAX as int)
    }

    open spec fn match_model(m: Option<Seq<char>>) -> i16 {
        signed_val(m) as i16
    }

    open spec fn match_err(m: Option<Seq<char>>) -> ConvertError {
        text_err(m)
    }

    /// Parses the matched text as signed decimal within the type's range.
    fn from_match(m: Option<&'t str>) -> (r: Result<Self, ConvertError>) {
        match convert_signed(m, i16::MIN as i128, i16::MAX as i128) {
            Ok(v) => Ok(v as i16),
            Err(e) => Err(e),
        }
    }
}

impl<'t> FromMatch<'t> for i32 {
    open spec fn match_ok(m: Option<Seq<char>>) -> bool {
        signed_ok(m, i32::MIN as int, i32::MAX as int)
    }

    open spec fn match_model(m: Option<Seq<char>>) -> i32 {
        signed_val(m) as i32
    }

    open spec fn match_err(m: Option<Seq<char>>) -> ConvertError {
        text_err(m)
    }

    /// Parses the matched text as signed decimal within the type's range.
    fn from_match(m: Option<&'t str>) -> (r: Result<Self, ConvertError>) {
        match convert_signed(m, i32::MIN as i128, i32::MAX as i128) {
            Ok(v) => Ok(v as i32),
            Err(e) => Err(e),
        }
    }
}

impl<'t> FromMatch<'t> for i64 {
    open spec fn match_ok(m: Option<Seq<char>>) -> bool {
        signed_ok(m, i64::MIN as int, i64::MAX as int)
    }

    open spec fn match_model(m: Option<Seq<char>>) -> i64 {
        signed_val(m) as i64
    }

    open spec fn match_err(m: Option<Seq<char>>) -> ConvertError {
        text_err(m)
    }

    /// Parses the matched text as signed decimal within the type's range.
    fn from_match(m: Option<&'t str>) -> (r: Result<Self, ConvertError>) {
        match convert_signed(m, i64::MIN as i128, i64::MAX as i128) {
            Ok(v) => Ok(v as i64),
            Err(e) => Err(e),
        }
    }
}

impl<'t> FromMatch<'t> for i128 {
    open spec fn match_ok(m: Option<Seq<char>>) -> bool {
        signed_ok(m, i128::MIN as int, i128::MAX as int)
    }

    open spec fn match_model(m: Option<Seq<char>>) -> i128 {
        signed_val(m) as i128
    }

    open spec fn match_err(m: Option<Seq<char>>) -> ConvertError {
        text_err(m)
    }

    /// Parses the matched text as signed decimal within the type's range.
    fn from_match(m: Option<&'t str>) -> (r: Result<Self, ConvertError>) {
        convert_signed(m, i128::MIN, i128::MAX)
    }
}

impl<'t> FromMatch<'t> for isize {
    open spec fn match_ok(m: Option<Seq<char>>) -> bool {
        signed_ok(m, isize::MIN as int, isize::MAX as int)
    }

    open spec fn match_model(m: Option<Seq<char>>) -> isize {
        signed_val(m) as isize
    }

    open spec fn match_err(m: Option<Seq<char>>) -> ConvertError {
        text_err(m)
    }

    /// Parses the matched text as signed decimal within the type's range.
    fn from_match(m: Option<&'t str>) -> (r: Result<Self, ConvertError>) {
        match convert_signed(m, isize::MIN as i128, isize::MAX as i128) {
            Ok(v) => Ok(v as isize),
            Err(e) => Err(e),
        }
    }
}

/// Law: numeric round trip, unsigned targets.  A present capture whose text
/// denotes `v` within the target's range converts, and converts to exactly
/// `v`.  With `numeric::lemma_dec_round_trip`, the canonical decimal text of
/// any in-range value converts back to that value.
pub proof fn lemma_unsigned_round_trip(s: Seq<char>, v: int, max: int)
    requires
        uint_of(s) == Some(v),
        0 <= v <= max,
    ensures
        unsigned_ok(Some(s), max),
        unsigned_val(Some(s)) == v,
{
}

/// Law: numeric round trip, signed targets.  A present capture whose text
/// denotes `v` within the target's range converts, and converts to exactly
/// `v`.  With `numeric::lemma_dec_round_trip_negative`, a sign before the
/// canonical digits of an in-range magnitude converts back to the negated
/// value.
pub proof fn lemma_signed_round_trip(s: Seq<char>, v: int, min: int, max: int)
    requires
        int_of(s) == Some(v),
        min <= v <= max,
    ensures
        signed_ok(Some(s), min, max),
        signed_val(Some(s)) == v,
{
}

/// Law: converting an absent capture for an optional target always succeeds
/// and yields the absent optional; converting a present capture succeeds
/// exactly when the inner conversion does, and then yields the inner value
/// wrapped in the present optional.
pub proof fn lemma_optional_conversion<'t, T: FromMatch<'t>>(m: Option<Seq<char>>)
    ensures
        <Option<T> as FromMatch<'t>>::match_ok(None),
        <Option<T> as FromMatch<'t>>::match_model(None) == None::<T::V>,
        m is Some ==> (<Option<T> as FromMatch<'t>>::match_ok(m) <==> T::match_ok(m)),
        m is Some && T::match_ok(m) ==> <Option<T> as FromMatch<'t>>::match_model(m) == Some(
            T::match_model(m),
        ),
{
}

} // verus!
