//! Runtime input values and their coercion to integers.

use vstd::prelude::*;

verus! {

/// A runtime value handed to a validator, as the host supplies it.
#[derive(Debug, Clone)]
pub enum InputValue {
    Null,
    Bool(bool),
    Int(i64),
    Str(String),
    /// A value of a kind that has no integer reading (a list, a mapping...);
    /// it carries the name of its host type.
    Other { host_type: String },
}

/// Whether `c` is an ASCII decimal digit.
pub open spec fn is_digit(c: char) -> bool {
    '0' <= c <= '9'
}

pub open spec fn digit_value(c: char) -> int {
    c as int - '0' as int
}

pub open spec fn all_digits(s: Seq<char>) -> bool {
    forall|i: int| 0 <= i < s.len() ==> is_digit(#[trigger] s[i])
}

/// The number written in decimal by the digits `s`, most significant first.
pub open spec fn digits_value(s: Seq<char>) -> int
    decreases s.len(),
{
    if s.len() == 0 {
        0
    } else {
        digits_value(s.drop_last()) * 10 + digit_value(s.last())
    }
}

/// The integer that the text `s` writes: an optional sign (`+` or `-`)
/// followed by one or more decimal digits, and nothing else.
pub open spec fn parse_int(s: Seq<char>) -> Option<int> {
    let negative = s.len() > 0 && s[0] == '-';
    let signed = s.len() > 0 && (s[0] == '-' || s[0] == '+');
    let digits = if signed { s.drop_first() } else { s };
    if digits.len() == 0 || !all_digits(digits) {
        None
    } else if negative {
        Some(-digits_value(digits))
    } else {
        Some(digits_value(digits))
    }
}

pub open spec fn fits_i64(v: int) -> bool {
    i64::MIN <= v <= i64::MAX
}

/// The integer reading of an input: integers stand for themselves, booleans
/// are 0 and 1, and text is read by `parse_int` when the number fits in an
/// `i64`. Nothing else has an integer reading.
pub open spec fn coerce_int(v: InputValue) -> Option<i64> {
    match v {
        InputValue::Int(i) => Some(i),
        InputValue::Bool(b) => Some(if b { 1i64 } else { 0i64 }),
        InputValue::Str(s) => match parse_int(s@) {
            Some(n) => if fits_i64(n) { Some(n as i64) } else { None },
            None => None,
        },
        _ => None,
    }
}

proof fn lemma_digits_value_nonneg(s: Seq<char>)
    requires
        all_digits(s),
    ensures
        digits_value(s) >= 0,
    decreases s.len(),
{
    if s.len() > 0 {
        lemma_digits_value_nonneg(s.drop_last());
    }
}

/// A prefix of a run of digits never writes a larger number than the whole.
proof fn lemma_digits_value_prefix(s: Seq<char>, j: int)
    requires
        all_digits(s),
        0 <= j <= s.len(),
    ensures
        digits_value(s.take(j)) <= digits_value(s),
    decreases s.len(),
{
    if j < s.len() {
        let rest = s.drop_last();
        assert(rest.take(j) =~= s.take(j));
        lemma_digits_value_prefix(rest, j);
        lemma_digits_value_nonneg(rest);
    } else {
        assert(s.take(j) =~= s);
    }
}

/// The largest magnitude that an `i64` can hold, that of `i64::MIN`.
const MAX_MAGNITUDE: u64 = 9223372036854775808;

/// Reads `s` as an optionally signed run of decimal digits that fits in an
/// `i64`.
pub fn parse_i64(s: &str) -> (r: Option<i64>)
    ensures
        r == (match parse_int(s@) {
            Some(n) => if fits_i64(n) { Some(n as i64) } else { None::<i64> },
            None => None::<i64>,
        }),
{
    let len = s.unicode_len();
    let mut start: usize = 0;
    let mut negative = false;
    if len > 0 {
        let c = s.get_char(0);
        if c == '-' {
            negative = true;
            start = 1;
        } else if c == '+' {
            start = 1;
        }
    }
    let ghost digits = s@.subrange(start as int, len as int);
    proof {
        if start == 1 {
            assert(digits =~= s@.drop_first());
        } else {
            assert(digits =~= s@);
        }
    }
    if start == len {
        return None;
    }
    let mut acc: u64 = 0;
    let mut i: usize = start;
    while i < len
        invariant
            start <= i <= len,
            len == s@.len(),
            digits == s@.subrange(start as int, len as int),
            all_digits(digits.take(i - start)),
            acc == digits_value(digits.take(i - start)),
            acc <= MAX_MAGNITUDE,
            negative == (s@.len() > 0 && s@[0] == '-'),
            digits == (if s@.len() > 0 && (s@[0] == '-' || s@[0] == '+') {
                s@.drop_first()
            } else {
                s@
            }),
        decreases len - i,
    {
        let c = s.get_char(i);
        let ghost k = i - start;
        proof {
            assert(digits.take(k + 1).drop_last() =~= digits.take(k));
            assert(digits[k] == c);
        }
        if c < '0' || c > '9' {
            proof {
                assert(!is_digit(digits[k]));
                assert(!all_digits(digits));
                assert(parse_int(s@).is_none());
            }
            return None;
        }
        let d = (c as u32 - '0' as u32) as u64;
        if acc > MAX_MAGNITUDE / 10 || acc * 10 + d > MAX_MAGNITUDE {
            proof {
                assert(all_digits(digits.take(k + 1)));
                assert(digits_value(digits.take(k + 1)) == acc * 10 + d);
                if acc > MAX_MAGNITUDE / 10 {
                    assert(acc * 10 + d > MAX_MAGNITUDE) by (nonlinear_arith)
                        requires
                            acc > MAX_MAGNITUDE / 10,
                            d >= 0,
                    ;
                }
                if all_digits(digits) {
                    lemma_digits_value_prefix(digits, k + 1);
                    assert(digits_value(digits) > MAX_MAGNITUDE);
                }
            }
            return None;
        }
        acc = acc * 10 + d;
        i = i + 1;
    }
    proof {
        assert(digits.take(i - start) =~= digits);
    }
    if negative {
        if acc == MAX_MAGNITUDE {
            Some(i64::MIN)
        } else {
            Some(-(acc as i64))
        }
    } else if acc > i64::MAX as u64 {
        None
    } else {
        Some(acc as i64)
    }
}

/// Coerces an input to an integer: the one integer reading of it, if it has
/// one.
pub fn validate_int(input: &InputValue) -> (r: Option<i64>)
    ensures
        r == coerce_int(*input),
{
    match input {
        InputValue::Int(i) => Some(*i),
        InputValue::Bool(b) => Some(if *b { 1i64 } else { 0i64 }),
        InputValue::Str(s) => parse_i64(s.as_str()),
        _ => None,
    }
}

} // verus!
