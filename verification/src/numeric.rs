//! Decimal text of integers: what a numeric capture denotes, and verified
//! parsers for it.
//!
//! A capture bound to an integer field must hold the standard textual
//! representation of the value: an optional sign followed by one or more
//! decimal digits.  `uint_of` gives the denoted value for unsigned targets
//! (no `-` sign), `int_of` for signed ones.

use vstd::arithmetic::div_mod::lemma_fundamental_div_mod;
use vstd::prelude::*;

verus! {

/// A decimal digit `'0'..='9'`.
pub open spec fn is_dec_digit(c: char) -> bool {
    '0' as int <= c as int <= '9' as int
}

/// The value of one decimal digit.
pub open spec fn digit_val(c: char) -> int {
    c as int - '0' as int
}

/// Every character of `s` is a decimal digit.
pub open spec fn all_dec_digits(s: Seq<char>) -> bool {
    forall|i: int| 0 <= i < s.len() ==> is_dec_digit(s[i])
}

/// The value of a digit string read most-significant first.
pub open spec fn digits_val(s: Seq<char>) -> int
    decreases s.len(),
{
    if s.len() == 0 {
        0
    } else {
        digits_val(s.drop_last()) * 10 + digit_val(s.last())
    }
}

/// The value denoted by a non-empty, unsigned digit string, if any.
pub open spec fn dec_magnitude(s: Seq<char>) -> Option<int> {
    if s.len() > 0 && all_dec_digits(s) {
        Some(digits_val(s))
    } else {
        None
    }
}

/// The value denoted by `s` as unsigned decimal text: an optional `+`
/// followed by one or more digits.  A `-` sign is not accepted.
pub open spec fn uint_of(s: Seq<char>) -> Option<int> {
    if s.len() > 0 && s[0] == '+' {
        dec_magnitude(s.skip(1))
    } else {
        dec_magnitude(s)
    }
}

/// The value denoted by `s` as signed decimal text: an optional `+` or `-`
/// followed by one or more digits.
pub open spec fn int_of(s: Seq<char>) -> Option<int> {
    if s.len() > 0 && s[0] == '-' {
        match dec_magnitude(s.skip(1)) {
            Some(v) => Some(-v),
            None => None,
        }
    } else {
        uint_of(s)
    }
}

/// A digit string denotes a non-negative value.
pub proof fn lemma_digits_val_nonneg(s: Seq<char>)
    requires
        all_dec_digits(s),
    ensures
        digits_val(s) >= 0,
    decreases s.len(),
{
    if s.len() > 0 {
        assert(all_dec_digits(s.drop_last()));
        lemma_digits_val_nonneg(s.drop_last());
    }
}

/// Reading one more digit multiplies the value so far by ten and adds it.
pub proof fn lemma_digits_val_step(s: Seq<char>, k: int)
    requires
        0 <= k < s.len(),
    ensures
        digits_val(s.take(k + 1)) == digits_val(s.take(k)) * 10 + digit_val(s[k]),
{
    assert(s.take(k + 1).drop_last() =~= s.take(k));
    assert(s.take(k + 1).last() == s[k]);
}

/// A digit string is worth at least any of its prefixes.
pub proof fn lemma_digits_val_prefix_le(s: Seq<char>, k: int)
    requires
        all_dec_digits(s),
        0 <= k <= s.len(),
    ensures
        digits_val(s.take(k)) <= digits_val(s),
    decreases s.len() - k,
{
    if k == s.len() {
        assert(s.take(k) =~= s);
    } else {
        lemma_digits_val_step(s, k);
        assert(all_dec_digits(s.take(k)));
        lemma_digits_val_nonneg(s.take(k));
        lemma_digits_val_prefix_le(s, k + 1);
    }
}

/// Parse the digits of `s` from position `start` to its end as an unsigned
/// decimal number.  `None` when there is no digit, a character is not a
/// digit, or the value exceeds `u128::MAX`.
pub fn parse_dec_magnitude(s: &str, start: usize) -> (r: Option<u128>)
    requires
        start as int <= s@.len(),
    ensures
        r is Some <==> (dec_magnitude(s@.skip(start as int)) matches Some(v) && v
            <= u128::MAX as int),
        r is Some ==> dec_magnitude(s@.skip(start as int)) == Some(r->0 as int),
{
    let ghost tail: Seq<char> = s@.skip(start as int);
    let n = s.unicode_len();
    if start >= n {
        return None;
    }
    let mut acc: u128 = 0;
    let mut i: usize = start;
    while i < n
        invariant
            start <= i <= n,
            start < n,
            n == s@.len(),
            tail == s@.skip(start as int),
            all_dec_digits(tail.take(i - start)),
            acc as int == digits_val(tail.take(i - start)),
        decreases n - i,
    {
        let c = s.get_char(i);
        let code = c as u32;
        proof {
            assert(tail[i - start] == c);
        }
        if code < 48 || code > 57 {
            proof {
                assert(!is_dec_digit(tail[i - start]));
            }
            return None;
        }
        let d: u128 = (code - 48) as u128;
        proof {
            lemma_digits_val_step(tail, i - start);
            if all_dec_digits(tail) {
                lemma_digits_val_prefix_le(tail, i - start + 1);
            }
        }
        if acc > u128::MAX / 10 {
            return None;
        }
        let acc10 = acc * 10;
        if d > u128::MAX - acc10 {
            return None;
        }
        acc = acc10 + d;
        i = i + 1;
    }
    proof {
        assert(tail.take(n - start) =~= tail);
    }
    Some(acc)
}

/// Parse `s` as unsigned decimal text (`uint_of`), up to `u128::MAX`.
pub fn parse_unsigned_text(s: &str) -> (r: Option<u128>)
    ensures
        r is Some <==> (uint_of(s@) matches Some(v) && v <= u128::MAX as int),
        r is Some ==> uint_of(s@) == Some(r->0 as int),
{
    let n = s.unicode_len();
    if n > 0 && s.get_char(0) == '+' {
        parse_dec_magnitude(s, 1)
    } else {
        proof {
            assert(s@.skip(0) =~= s@);
        }
        parse_dec_magnitude(s, 0)
    }
}

/// Parse `s` as signed decimal text (`int_of`), within `i128`'s range.
pub fn parse_signed_text(s: &str) -> (r: Option<i128>)
    ensures
        r is Some <==> (int_of(s@) matches Some(v) && i128::MIN as int <= v <= i128::MAX as int),
        r is Some ==> int_of(s@) == Some(r->0 as int),
{
    let n = s.unicode_len();
    if n > 0 && s.get_char(0) == '-' {
        match parse_dec_magnitude(s, 1) {
            None => None,
            Some(mag) => if mag <= i128::MAX as u128 {
                Some(-(mag as i128))
            } else if mag == i128::MAX as u128 + 1 {
                Some(i128::MIN)
            } else {
                None
            },
        }
    } else {
        proof {
            assert(s@.skip(0) =~= s@);
        }
        match parse_unsigned_text(s) {
            None => None,
            Some(mag) => if mag <= i128::MAX as u128 {
                Some(mag as i128)
            } else {
                None
            },
        }
    }
}

/// The canonical decimal digits of `v`, most-significant first.
pub open spec fn dec_digits_of(v: nat) -> Seq<char>
    decreases v,
{
    if v < 10 {
        seq![digit_char(v as int)]
    } else {
        dec_digits_of(v / 10).push(digit_char((v % 10) as int))
    }
}

/// The digit character for a value between zero and nine.
pub open spec fn digit_char(d: int) -> char {
    if d == 0 {
        '0'
    } else if d == 1 {
        '1'
    } else if d == 2 {
        '2'
    } else if d == 3 {
        '3'
    } else if d == 4 {
        '4'
    } else if d == 5 {
        '5'
    } else if d == 6 {
        '6'
    } else if d == 7 {
        '7'
    } else if d == 8 {
        '8'
    } else {
        '9'
    }
}

/// Round trip: the canonical decimal text of `v` denotes exactly `v`, both
/// as a bare digit string and as unsigned decimal text.
pub proof fn lemma_dec_round_trip(v: nat)
    ensures
        dec_digits_of(v).len() > 0,
        all_dec_digits(dec_digits_of(v)),
        digits_val(dec_digits_of(v)) == v,
        dec_magnitude(dec_digits_of(v)) == Some(v as int),
        uint_of(dec_digits_of(v)) == Some(v as int),
    decreases v,
{
    if v < 10 {
        let s = dec_digits_of(v);
        lemma_digit_char_val(v as int);
        assert(s.len() == 1 && s[0] == digit_char(v as int));
        assert(s.last() == digit_char(v as int));
        assert(s.drop_last() =~= Seq::<char>::empty());
        assert(digits_val(Seq::<char>::empty()) == 0);
        assert(digits_val(s) == digit_val(digit_char(v as int)));
    } else {
        lemma_dec_round_trip(v / 10);
        lemma_fundamental_div_mod(v as int, 10);
        lemma_digit_char_val((v % 10) as int);
        let c = digit_char((v % 10) as int);
        let w = dec_digits_of(v / 10);
        let s = dec_digits_of(v);
        assert(s == w.push(c));
        assert(s.drop_last() =~= w);
        assert(s.last() == c);
        assert(digits_val(s) == digits_val(w) * 10 + digit_val(c));
        assert(all_dec_digits(s)) by {
            assert(forall|i: int| 0 <= i < w.len() ==> s[i] == w[i]);
            assert(s[s.len() - 1] == c);
        }
    }
}

/// The digit character of a value between zero and nine is a decimal digit
/// and is worth that value.
pub proof fn lemma_digit_char_val(d: int)
    requires
        0 <= d <= 9,
    ensures
        is_dec_digit(digit_char(d)),
        digit_val(digit_char(d)) == d,
{
}

/// Round trip for negative values: a `-` sign before the canonical digits of
/// `v` denotes exactly `-v` as signed decimal text.
pub proof fn lemma_dec_round_trip_negative(v: nat)
    requires
        v > 0,
    ensures
        int_of(seq!['-'].add(dec_digits_of(v))) == Some(-(v as int)),
{
    lemma_dec_round_trip(v);
    let s = seq!['-'].add(dec_digits_of(v));
    assert(s.skip(1) =~= dec_digits_of(v));
}

} // verus!
