//! Parsing of integers the way `str::parse` does for the integer types.

use vstd::prelude::*;
use vstd::string::*;

use crate::text::{chars_of, decimal, digit_char, lemma_decimal_digits, signed_decimal};

verus! {

/// Why a text is not an integer of the wanted type.
#[derive(Clone, Copy, Debug, PartialEq, Eq, Structural)]
pub enum IntErrorKind {
    /// The text is empty.
    Empty,
    /// A character is not a digit, or there is only a sign.
    InvalidDigit,
    /// The value is above the largest of the type.
    PosOverflow,
    /// The value is below the smallest of the type.
    NegOverflow,
}

impl IntErrorKind {
    /// The sentence that describes the error.
    pub open spec fn text(self) -> Seq<char> {
        match self {
            IntErrorKind::Empty => "cannot parse integer from empty string"@,
            IntErrorKind::InvalidDigit => "invalid digit found in string"@,
            IntErrorKind::PosOverflow => "number too large to fit in target type"@,
            IntErrorKind::NegOverflow => "number too small to fit in target type"@,
        }
    }

    /// The sentence that describes the error.
    pub fn message(self) -> (r: &'static str)
        ensures
            r@ == self.text(),
    {
        match self {
            IntErrorKind::Empty => "cannot parse integer from empty string",
            IntErrorKind::InvalidDigit => "invalid digit found in string",
            IntErrorKind::PosOverflow => "number too large to fit in target type",
            IntErrorKind::NegOverflow => "number too small to fit in target type",
        }
    }
}

/// Whether `c` is one of `0` to `9`.
pub open spec fn is_digit(c: char) -> bool {
    '0' <= c <= '9'
}

/// The value of the digit `c`.
pub open spec fn digit_value(c: char) -> int {
    c as int - '0' as int
}

/// Reads the digits of `s` from the left onto `acc`. The first character that
/// is no digit, or the first digit that takes the value above `max`, ends the
/// reading with an error.
pub open spec fn read_digits(
    s: Seq<char>,
    acc: int,
    max: int,
    overflow: IntErrorKind,
) -> Result<int, IntErrorKind>
    decreases s.len(),
{
    if s.len() == 0 {
        Ok(acc)
    } else if !is_digit(s[0]) {
        Err(IntErrorKind::InvalidDigit)
    } else {
        let v = acc * 10 + digit_value(s[0]);
        if v > max {
            Err(overflow)
        } else {
            read_digits(s.skip(1), v, max, overflow)
        }
    }
}

/// An integer between `min` and `max`: digits behind an optional sign. A `-` is
/// a sign only where `min` is negative.
pub open spec fn parse_int(s: Seq<char>, min: int, max: int) -> Result<int, IntErrorKind> {
    if s.len() == 0 {
        Err(IntErrorKind::Empty)
    } else if s.len() == 1 && (s[0] == '+' || s[0] == '-') {
        Err(IntErrorKind::InvalidDigit)
    } else if s[0] == '+' {
        read_digits(s.skip(1), 0, max, IntErrorKind::PosOverflow)
    } else if s[0] == '-' && min < 0 {
        match read_digits(s.skip(1), 0, -min, IntErrorKind::NegOverflow) {
            Ok(v) => Ok(-v),
            Err(e) => Err(e),
        }
    } else {
        read_digits(s, 0, max, IntErrorKind::PosOverflow)
    }
}

fn read_digits_from(cs: &Vec<char>, start: usize, max: u64, overflow: IntErrorKind) -> (r: Result<
    u64,
    IntErrorKind,
>)
    requires
        start <= cs@.len(),
    ensures
        match r {
            Ok(v) => read_digits(cs@.skip(start as int), 0, max as int, overflow) == Ok::<
                int,
                IntErrorKind,
            >(v as int),
            Err(e) => read_digits(cs@.skip(start as int), 0, max as int, overflow) == Err::<
                int,
                IntErrorKind,
            >(e),
        },
{
    let mut acc: u64 = 0;
    let mut i: usize = start;
    while i < cs.len()
        invariant
            start <= i <= cs@.len(),
            acc <= max,
            read_digits(cs@.skip(i as int), acc as int, max as int, overflow) == read_digits(
                cs@.skip(start as int),
                0,
                max as int,
                overflow,
            ),
        decreases cs@.len() - i,
    {
        let c: char = cs[i];
        proof {
            assert(cs@.skip(i as int)[0] == c);
            assert(cs@.skip(i as int).skip(1) =~= cs@.skip(i + 1));
        }
        if !('0' <= c && c <= '9') {
            return Err(IntErrorKind::InvalidDigit);
        }
        let d: u128 = (c as u32 - '0' as u32) as u128;
        let v: u128 = acc as u128 * 10 + d;
        if v > max as u128 {
            return Err(overflow);
        }
        acc = v as u64;
        i = i + 1;
    }
    Ok(acc)
}

/// Parses an integer between `-neg` and `max`.
fn parse_signed_magnitude(s: &str, neg: u64, max: u64) -> (r: Result<(bool, u64), IntErrorKind>)
    ensures
        match r {
            Ok((false, v)) => parse_int(s@, -(neg as int), max as int) == Ok::<int, IntErrorKind>(
                v as int,
            ) && v <= max,
            Ok((true, v)) => parse_int(s@, -(neg as int), max as int) == Ok::<int, IntErrorKind>(
                -(v as int),
            ) && v <= neg,
            Err(e) => parse_int(s@, -(neg as int), max as int) == Err::<int, IntErrorKind>(e),
        },
{
    let cs: Vec<char> = chars_of(s);
    if cs.len() == 0 {
        return Err(IntErrorKind::Empty);
    }
    let c: char = cs[0];
    if cs.len() == 1 && (c == '+' || c == '-') {
        return Err(IntErrorKind::InvalidDigit);
    }
    proof {
        lemma_read_digits_bound(s@.skip(1), 0, max as int, IntErrorKind::PosOverflow);
        lemma_read_digits_bound(s@.skip(1), 0, neg as int, IntErrorKind::NegOverflow);
        lemma_read_digits_bound(s@, 0, max as int, IntErrorKind::PosOverflow);
        assert(cs@.skip(0) =~= s@);
    }
    if c == '+' {
        match read_digits_from(&cs, 1, max, IntErrorKind::PosOverflow) {
            Ok(v) => Ok((false, v)),
            Err(e) => Err(e),
        }
    } else if c == '-' && neg > 0 {
        match read_digits_from(&cs, 1, neg, IntErrorKind::NegOverflow) {
            Ok(v) => Ok((true, v)),
            Err(e) => Err(e),
        }
    } else {
        match read_digits_from(&cs, 0, max, IntErrorKind::PosOverflow) {
            Ok(v) => Ok((false, v)),
            Err(e) => Err(e),
        }
    }
}

/// What the digits give stays between what was there and the bound.
proof fn lemma_read_digits_bound(s: Seq<char>, acc: int, max: int, overflow: IntErrorKind)
    requires
        0 <= acc <= max,
    ensures
        match read_digits(s, acc, max, overflow) {
            Ok(v) => acc <= v <= max,
            Err(_) => true,
        },
    decreases s.len(),
{
    if s.len() > 0 && is_digit(s[0]) {
        let v = acc * 10 + digit_value(s[0]);
        if v <= max {
            lemma_read_digits_bound(s.skip(1), v, max, overflow);
        }
    }
}

/// Parses a `u64`.
pub fn parse_u64(s: &str) -> (r: Result<u64, IntErrorKind>)
    ensures
        match r {
            Ok(v) => parse_int(s@, 0, u64::MAX as int) == Ok::<int, IntErrorKind>(v as int),
            Err(e) => parse_int(s@, 0, u64::MAX as int) == Err::<int, IntErrorKind>(e),
        },
{
    match parse_signed_magnitude(s, 0, u64::MAX) {
        Ok((_, v)) => Ok(v),
        Err(e) => Err(e),
    }
}

/// Parses a `usize`.
pub fn parse_usize(s: &str) -> (r: Result<usize, IntErrorKind>)
    ensures
        match r {
            Ok(v) => parse_int(s@, 0, usize::MAX as int) == Ok::<int, IntErrorKind>(v as int),
            Err(e) => parse_int(s@, 0, usize::MAX as int) == Err::<int, IntErrorKind>(e),
        },
{
    match parse_signed_magnitude(s, 0, usize::MAX as u64) {
        Ok((_, v)) => Ok(v as usize),
        Err(e) => Err(e),
    }
}

/// Parses a `u16`.
pub fn parse_u16(s: &str) -> (r: Result<u16, IntErrorKind>)
    ensures
        match r {
            Ok(v) => parse_int(s@, 0, u16::MAX as int) == Ok::<int, IntErrorKind>(v as int),
            Err(e) => parse_int(s@, 0, u16::MAX as int) == Err::<int, IntErrorKind>(e),
        },
{
    match parse_signed_magnitude(s, 0, u16::MAX as u64) {
        Ok((_, v)) => Ok(v as u16),
        Err(e) => Err(e),
    }
}

/// Parses an `i32`.
pub fn parse_i32(s: &str) -> (r: Result<i32, IntErrorKind>)
    ensures
        match r {
            Ok(v) => parse_int(s@, i32::MIN as int, i32::MAX as int) == Ok::<int, IntErrorKind>(
                v as int,
            ),
            Err(e) => parse_int(s@, i32::MIN as int, i32::MAX as int) == Err::<int, IntErrorKind>(
                e,
            ),
        },
{
    match parse_signed_magnitude(s, 0x8000_0000, 0x7fff_ffff) {
        Ok((false, v)) => Ok(v as i32),
        Ok((true, v)) => Ok((-(v as i64)) as i32),
        Err(e) => Err(e),
    }
}

/// Parses an `i64`.
pub fn parse_i64(s: &str) -> (r: Result<i64, IntErrorKind>)
    ensures
        match r {
            Ok(v) => parse_int(s@, i64::MIN as int, i64::MAX as int) == Ok::<int, IntErrorKind>(
                v as int,
            ),
            Err(e) => parse_int(s@, i64::MIN as int, i64::MAX as int) == Err::<int, IntErrorKind>(
                e,
            ),
        },
{
    match parse_signed_magnitude(s, 0x8000_0000_0000_0000, 0x7fff_ffff_ffff_ffff) {
        Ok((false, v)) => Ok(v as i64),
        Ok((true, v)) => Ok((-(v as i128)) as i64),
        Err(e) => Err(e),
    }
}

proof fn lemma_read_one_more(s: Seq<char>, c: char, acc: int, max: int, overflow: IntErrorKind)
    requires
        '0' <= c <= '9',
        read_digits(s, acc, max, overflow) is Ok,
    ensures
        ({
            let v = read_digits(s, acc, max, overflow)->Ok_0;
            let w = 10 * v + (c as int - '0' as int);
            read_digits(s.push(c), acc, max, overflow) == (if w <= max {
                Ok::<int, IntErrorKind>(w)
            } else {
                Err(overflow)
            })
        }),
    decreases s.len(),
{
    let t = s.push(c);
    if s.len() == 0 {
        assert(t.skip(1) =~= Seq::<char>::empty());
        assert(read_digits(t.skip(1), acc * 10 + digit_value(c), max, overflow) == Ok::<
            int,
            IntErrorKind,
        >(acc * 10 + digit_value(c)));
    } else {
        assert(t[0] == s[0]);
        assert(t.skip(1) =~= s.skip(1).push(c));
        lemma_read_one_more(s.skip(1), c, acc * 10 + digit_value(s[0]), max, overflow);
    }
}

/// Digits are read as decimal: one alone denotes its place behind `0`, and one more makes
/// ten times the number, and the digit, as far as the type reaches.
pub proof fn law_digits_are_decimal(s: Seq<char>, c: char, min: int, max: int)
    requires
        min <= 0 <= max,
        '0' <= c <= '9',
        s.len() > 0 && '0' <= s[0] <= '9',
        parse_int(s, min, max) is Ok,
    ensures
        9 <= max ==> parse_int(seq![c], min, max) == Ok::<int, IntErrorKind>(
            c as int - '0' as int,
        ),
        ({
            let w = 10 * parse_int(s, min, max)->Ok_0 + (c as int - '0' as int);
            parse_int(s.push(c), min, max) == (if w <= max {
                Ok::<int, IntErrorKind>(w)
            } else {
                Err(IntErrorKind::PosOverflow)
            })
        }),
{
    lemma_read_one_more(s, c, 0, max, IntErrorKind::PosOverflow);
    assert(s.push(c)[0] == s[0]);
    let e = Seq::<char>::empty();
    lemma_read_one_more(e, c, 0, max, IntErrorKind::PosOverflow);
    assert(e.push(c) =~= seq![c]);
}

proof fn lemma_read_decimal(n: nat, max: int, overflow: IntErrorKind)
    requires
        n <= max,
    ensures
        read_digits(decimal(n), 0, max, overflow) == Ok::<int, IntErrorKind>(n as int),
    decreases n,
{
    if n < 10 {
        let e = Seq::<char>::empty();
        lemma_read_one_more(e, digit_char(n as int), 0, max, overflow);
        assert(e.push(digit_char(n as int)) =~= decimal(n));
    } else {
        lemma_read_decimal(n / 10, max, overflow);
        lemma_read_one_more(
            decimal(n / 10),
            digit_char((n % 10) as int),
            0,
            max,
            overflow,
        );
    }
}

/// The numeral of a number in the range of the type denotes that number, also with a `+`
/// before it, and with a `-` the negative one.
pub proof fn law_numerals_are_read_back(n: int, min: int, max: int)
    requires
        min <= 0 <= max,
        min <= n <= max,
    ensures
        parse_int(signed_decimal(n), min, max) == Ok::<int, IntErrorKind>(n),
        n >= 0 ==> parse_int(seq!['+'] + decimal(n as nat), min, max) == Ok::<int, IntErrorKind>(
            n,
        ),
{
    if n >= 0 {
        let s = decimal(n as nat);
        lemma_decimal_digits(n as nat);
        lemma_read_decimal(n as nat, max, IntErrorKind::PosOverflow);
        assert('0' <= s[0] <= '9');
        assert((seq!['+'] + s).skip(1) =~= s);
    } else {
        let s = decimal((-n) as nat);
        lemma_decimal_digits((-n) as nat);
        lemma_read_decimal((-n) as nat, -min, IntErrorKind::NegOverflow);
        assert((seq!['-'] + s).skip(1) =~= s);
    }
}

proof fn lemma_read_other(s: Seq<char>, k: int, acc: int, max: int, overflow: IntErrorKind)
    requires
        0 <= k < s.len(),
        !('0' <= s[k] <= '9'),
    ensures
        read_digits(s, acc, max, overflow) is Err,
    decreases s.len(),
{
    if k > 0 && is_digit(s[0]) {
        assert(s.skip(1)[k - 1] == s[k]);
        lemma_read_other(s.skip(1), k - 1, acc * 10 + digit_value(s[0]), max, overflow);
    }
}

/// A text with a character behind its first one that is no digit denotes no number; nor does
/// one that begins with anything but a digit or a sign, nor an empty one.
pub proof fn law_other_texts_are_no_numbers(s: Seq<char>, k: int, min: int, max: int)
    requires
        s.len() == 0 || (0 <= k < s.len() && !('0' <= s[k] <= '9')),
        k == 0 && s.len() > 0 ==> s[0] != '+' && (s[0] != '-' || min >= 0),
    ensures
        parse_int(s, min, max) is Err,
{
    if s.len() > 0 {
        lemma_read_other(s, k, 0, max, IntErrorKind::PosOverflow);
        if k > 0 {
            assert(s.skip(1)[k - 1] == s[k]);
            lemma_read_other(s.skip(1), k - 1, 0, max, IntErrorKind::PosOverflow);
            lemma_read_other(s.skip(1), k - 1, 0, -min, IntErrorKind::NegOverflow);
        }
    }
}

/// What is said of a text that is no number: that there is nothing, that a character is no
/// digit, or that the number does not fit.
pub proof fn law_what_is_said_of_texts_that_are_no_numbers(k: IntErrorKind)
    ensures
        k is Empty ==> k.text() == "cannot parse integer from empty string"@,
        k is InvalidDigit ==> k.text() == "invalid digit found in string"@,
        k is PosOverflow ==> k.text() == "number too large to fit in target type"@,
        k is NegOverflow ==> k.text() == "number too small to fit in target type"@,
{
}

} // verus!
