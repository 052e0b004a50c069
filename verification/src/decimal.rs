//! Integers as decimal text, the form in which the driver's attribute files
//! hold them.

use vstd::prelude::*;

verus! {

/// The byte `'0'`.
pub const ZERO: u8 = 48;

/// The byte `'+'`.
pub const PLUS: u8 = 43;

/// The byte `'-'`.
pub const MINUS: u8 = 45;

/// The line feed that ends an attribute file's text.
pub const NEWLINE: u8 = 10;

/// Whether a byte is one of `'0'` to `'9'`.
pub open spec fn is_digit(b: u8) -> bool {
    48 <= b <= 57
}

/// Whether every byte is a digit.
pub open spec fn all_digits(s: Seq<u8>) -> bool {
    forall|i: int| 0 <= i < s.len() ==> is_digit(#[trigger] s[i])
}

/// The number that a digit stands for, and 0 for any other byte.
pub open spec fn digit_value(b: u8) -> nat {
    if is_digit(b) {
        (b - 48) as nat
    } else {
        0
    }
}

/// The number that a run of digits denotes, the most significant first.
pub open spec fn digits_value(s: Seq<u8>) -> nat
    decreases s.len(),
{
    if s.len() == 0 {
        0
    } else {
        digits_value(s.drop_last()) * 10 + digit_value(s.last())
    }
}

/// The decimal digits of a number, without leading zeros.
pub open spec fn digits_of(n: nat) -> Seq<u8>
    decreases n,
{
    if n < 10 {
        seq![(48 + n) as u8]
    } else {
        digits_of(n / 10).push((48 + n % 10) as u8)
    }
}

/// An integer as decimal text: its digits, after a `'-'` where it is
/// negative.
pub open spec fn decimal_text(v: int) -> Seq<u8> {
    if v < 0 {
        seq![45u8] + digits_of((-v) as nat)
    } else {
        digits_of(v as nat)
    }
}

/// The integer that a text denotes: one or more digits, after an optional
/// `'+'` or, where `signed`, an optional `'-'`.  Any other text denotes
/// none.
pub open spec fn parse_decimal(s: Seq<u8>, signed: bool) -> Option<int> {
    let negative = signed && s.len() > 0 && s[0] == 45;
    let body = if s.len() > 0 && (s[0] == 43 || negative) {
        s.skip(1)
    } else {
        s
    };
    if body.len() > 0 && all_digits(body) {
        Some(
            if negative {
                -(digits_value(body) as int)
            } else {
                digits_value(body) as int
            },
        )
    } else {
        None
    }
}

/// The `u8` that a text denotes, if it denotes one.
pub open spec fn spec_parse_u8(s: Seq<u8>) -> Option<u8> {
    match parse_decimal(s, false) {
        Some(v) => if v <= u8::MAX {
            Some(v as u8)
        } else {
            None
        },
        None => None,
    }
}

/// The `i32` that a text denotes, if it denotes one.
pub open spec fn spec_parse_i32(s: Seq<u8>) -> Option<i32> {
    match parse_decimal(s, true) {
        Some(v) => if i32::MIN <= v <= i32::MAX {
            Some(v as i32)
        } else {
            None
        },
        None => None,
    }
}

/// A text without the line feeds at its end.
pub open spec fn trim_newlines(s: Seq<u8>) -> Seq<u8>
    decreases s.len(),
{
    if s.len() > 0 && s.last() == 10 {
        trim_newlines(s.drop_last())
    } else {
        s
    }
}

/// A run of digits denotes at least what any of its beginnings denotes.
pub proof fn lemma_digits_value_grows(s: Seq<u8>, upto: int)
    requires
        0 <= upto <= s.len(),
    ensures
        digits_value(s.take(upto)) <= digits_value(s),
    decreases s.len(),
{
    if upto == s.len() {
        assert(s.take(upto) =~= s);
    } else {
        lemma_digits_value_grows(s.drop_last(), upto);
        assert(s.drop_last().take(upto) =~= s.take(upto));
    }
}

/// The digits of a number are digits, there is at least one, none of them
/// is a line feed, and they denote the number.
pub proof fn lemma_digits_round_trip(n: nat)
    ensures
        digits_of(n).len() > 0,
        all_digits(digits_of(n)),
        digits_value(digits_of(n)) == n,
    decreases n,
{
    if n < 10 {
        let s = digits_of(n);
        assert(s.drop_last() =~= Seq::<u8>::empty());
        assert(digits_value(s.drop_last()) == 0);
    } else {
        lemma_digits_round_trip(n / 10);
        let s = digits_of(n);
        assert(s.drop_last() =~= digits_of(n / 10));
    }
}

/// The decimal text of an integer denotes the integer; that of one that is
/// not negative does so also where no `'-'` is read as a sign.
pub proof fn lemma_decimal_round_trip(v: int)
    ensures
        parse_decimal(decimal_text(v), true) == Some(v),
        v >= 0 ==> parse_decimal(decimal_text(v), false) == Some(v),
        trim_newlines(decimal_text(v)) == decimal_text(v),
        trim_newlines(decimal_text(v).push(10)) == decimal_text(v),
{
    if v < 0 {
        let digits = digits_of((-v) as nat);
        lemma_digits_round_trip((-v) as nat);
        assert(decimal_text(v).skip(1) =~= digits);
        assert(decimal_text(v).last() == digits.last());
    } else {
        let digits = digits_of(v as nat);
        lemma_digits_round_trip(v as nat);
        assert(is_digit(digits[0]));
    }
    assert(is_digit(decimal_text(v).last()));
    assert(decimal_text(v).push(10).drop_last() =~= decimal_text(v));
}

/// The digits of `n`.
fn format_magnitude(n: u64) -> (text: Vec<u8>)
    ensures
        text@ == digits_of(n as nat),
    decreases n,
{
    if n < 10 {
        let mut text: Vec<u8> = Vec::new();
        text.push(ZERO + n as u8);
        assert(text@ =~= digits_of(n as nat));
        text
    } else {
        let mut text = format_magnitude(n / 10);
        text.push(ZERO + (n % 10) as u8);
        text
    }
}

/// A `u8` as decimal text.
pub fn format_u8(v: u8) -> (text: Vec<u8>)
    ensures
        text@ == decimal_text(v as int),
{
    format_magnitude(v as u64)
}

/// An `i32` as decimal text.
pub fn format_i32(v: i32) -> (text: Vec<u8>)
    ensures
        text@ == decimal_text(v as int),
{
    if v < 0 {
        let magnitude: u64 = (-(v as i64)) as u64;
        let digits = format_magnitude(magnitude);
        let mut text: Vec<u8> = Vec::new();
        text.push(MINUS);
        let mut i: usize = 0;
        while i < digits.len()
            invariant
                i <= digits@.len(),
                text@ == seq![45u8] + digits@.take(i as int),
            decreases digits.len() - i,
        {
            text.push(digits[i]);
            assert(digits@.take(i + 1) =~= digits@.take(i as int).push(digits@[i as int]));
            assert(text@ =~= seq![45u8] + digits@.take(i + 1));
            i = i + 1;
        }
        assert(digits@.take(digits@.len() as int) =~= digits@);
        text
    } else {
        format_magnitude(v as u64)
    }
}

/// The number that the digits from `start` on denote, where there is at
/// least one byte from `start` on, all of them are digits, and the number
/// is at most `max`.
fn parse_magnitude(text: &[u8], start: usize, max: u64) -> (value: Option<u64>)
    requires
        start <= text@.len(),
        max <= 0xffff_ffff,
    ensures
        value == (if text@.skip(start as int).len() > 0 && all_digits(text@.skip(start as int))
            && digits_value(text@.skip(start as int)) <= max {
            Some(digits_value(text@.skip(start as int)) as u64)
        } else {
            None
        }),
{
    let ghost body = text@.skip(start as int);
    if start == text.len() {
        return None;
    }
    let mut acc: u64 = 0;
    let mut i: usize = start;
    assert(body.take(0) =~= Seq::<u8>::empty());
    while i < text.len()
        invariant
            start <= i <= text@.len(),
            body == text@.skip(start as int),
            max <= 0xffff_ffff,
            all_digits(body.take(i - start)),
            acc == digits_value(body.take(i - start)),
            acc <= max,
        decreases text.len() - i,
    {
        let b = text[i];
        let ghost upto = i - start;
        assert(body[upto] == b);
        assert(body.take(upto + 1).drop_last() =~= body.take(upto));
        assert(body.take(upto + 1).last() == b);
        if b < ZERO || b > ZERO + 9 {
            return None;
        }
        let next: u64 = acc * 10 + (b - ZERO) as u64;
        if next > max {
            proof {
                lemma_digits_value_grows(body, upto + 1);
            }
            return None;
        }
        acc = next;
        assert forall|j: int| 0 <= j < upto + 1 implies is_digit(
            #[trigger] body.take(upto + 1)[j],
        ) by {
            if j < upto {
                assert(body.take(upto)[j] == body.take(upto + 1)[j]);
            }
        }
        i = i + 1;
    }
    assert(body.take(text@.len() - start) =~= body);
    Some(acc)
}

/// Reads a `u8` from decimal text: one or more digits, after an optional
/// `'+'`.  Any other text, and a number above 255, gives `None`.
pub fn parse_u8(text: &[u8]) -> (value: Option<u8>)
    ensures
        value == spec_parse_u8(text@),
{
    let start: usize = if text.len() > 0 && text[0] == PLUS {
        1
    } else {
        0
    };
    assert(start == 0 ==> text@.skip(0) =~= text@);
    match parse_magnitude(text, start, 255) {
        Some(v) => Some(v as u8),
        None => None,
    }
}

/// Reads an `i32` from decimal text: one or more digits, after an optional
/// `'+'` or `'-'`.  Any other text, and a number outside the range of
/// `i32`, gives `None`.
pub fn parse_i32(text: &[u8]) -> (value: Option<i32>)
    ensures
        value == spec_parse_i32(text@),
{
    if text.len() > 0 && text[0] == MINUS {
        match parse_magnitude(text, 1, 2147483648) {
            Some(v) => Some((-(v as i64)) as i32),
            None => None,
        }
    } else {
        let start: usize = if text.len() > 0 && text[0] == PLUS {
            1
        } else {
            0
        };
        assert(start == 0 ==> text@.skip(0) =~= text@);
        match parse_magnitude(text, start, 2147483647) {
            Some(v) => Some(v as i32),
            None => None,
        }
    }
}

/// The length of a text without the line feeds at its end.
pub fn trimmed_len(text: &[u8]) -> (len: usize)
    ensures
        len <= text@.len(),
        text@.take(len as int) == trim_newlines(text@),
{
    let mut len: usize = text.len();
    assert(text@.take(len as int) =~= text@);
    while len > 0 && text[len - 1] == NEWLINE
        invariant
            len <= text@.len(),
            trim_newlines(text@.take(len as int)) == trim_newlines(text@),
        decreases len,
    {
        assert(text@.take(len as int).drop_last() =~= text@.take(len - 1));
        len = len - 1;
    }
    len
}

} // verus!
