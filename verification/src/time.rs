//! Spans of time, and the texts that denote them.

use vstd::prelude::*;
use vstd::string::*;

use crate::number::{digit_value, is_digit};
use crate::text::{
    ascii_lower, ascii_lowercase, chars_of, decimal, is_white_space,
    law_trim_drops_white_space_at_the_ends, lemma_decimal_digits, lemma_span_is, span, str_eq,
    to_ascii_lowercase, trim, trimmed,
};

verus! {

/// A span of time, exact to the nanosecond.
#[derive(Clone, Copy, Debug, PartialEq, Eq, Structural)]
pub struct Duration {
    /// Length in nanoseconds.
    pub nanos: u128,
}

impl Duration {
    /// The empty span.
    pub fn zero() -> (r: Self)
        ensures
            r.nanos == 0,
    {
        Duration { nanos: 0 }
    }

    /// A span of `secs` seconds.
    pub fn from_secs(secs: u64) -> (r: Self)
        ensures
            r.nanos == secs * 1_000_000_000,
    {
        Duration { nanos: secs as u128 * 1_000_000_000 }
    }

    /// A span of `millis` milliseconds.
    pub fn from_millis(millis: u64) -> (r: Self)
        ensures
            r.nanos == millis * 1_000_000,
    {
        Duration { nanos: millis as u128 * 1_000_000 }
    }

    /// Whole milliseconds in the span.
    pub fn as_millis(&self) -> (r: u128)
        ensures
            r == self.nanos / 1_000_000,
    {
        self.nanos / 1_000_000
    }

    /// Whether the span is empty.
    pub fn is_zero(&self) -> (r: bool)
        ensures
            r == (self.nanos == 0),
    {
        self.nanos == 0
    }
}

/// A reading of a monotonic clock, in nanoseconds since a fixed start.
#[derive(Clone, Copy, Debug, PartialEq, Eq, Structural)]
pub struct Instant {
    /// Nanoseconds since the start of the clock.
    pub nanos: u128,
}

impl Instant {
    /// The nanoseconds from `earlier` to `self`; none where `earlier` is later.
    pub open spec fn nanos_since(self, earlier: Instant) -> int {
        if self.nanos >= earlier.nanos {
            self.nanos - earlier.nanos
        } else {
            0
        }
    }

    /// The span from `earlier` to `self`; empty where `earlier` is later.
    pub fn duration_since(&self, earlier: Instant) -> (r: Duration)
        ensures
            r.nanos == self.nanos_since(earlier),
    {
        if self.nanos >= earlier.nanos {
            Duration { nanos: self.nanos - earlier.nanos }
        } else {
            Duration { nanos: 0 }
        }
    }
}

/// The number that the digits of `s` denote.
pub open spec fn digits_number(s: Seq<char>) -> nat
    decreases s.len(),
{
    if s.len() == 0 {
        0
    } else {
        (digits_number(s.drop_last()) * 10 + digit_value(s.last())) as nat
    }
}

/// 2 to the 53rd: below it every whole number is a double-precision number.
pub open spec fn two_53() -> nat {
    0x20_0000_0000_0000
}

/// The distance between the double-precision numbers around `n`.
pub open spec fn ulp(n: nat) -> nat
    decreases n,
{
    if n < two_53() {
        1
    } else {
        2 * ulp(n / 2)
    }
}

/// The multiple of `u` that is nearest to `n`; of two, the even one.
pub open spec fn nearest(n: nat, u: nat) -> nat {
    let q = n / u;
    let r = n % u;
    if 2 * r > u || (2 * r == u && q % 2 == 1) {
        (q + 1) * u
    } else {
        q * u
    }
}

/// The double-precision number that is nearest to the whole number `n`.
pub open spec fn double(n: nat) -> nat {
    nearest(n, ulp(n))
}

/// `i` brought into the range of `i64`.
pub open spec fn saturate(i: int) -> int {
    if i > i64::MAX {
        i64::MAX as int
    } else if i < i64::MIN {
        i64::MIN as int
    } else {
        i
    }
}

/// Milliseconds in the unit that `unit` names in lower case.
pub open spec fn unit_millis(unit: Seq<char>) -> Option<nat> {
    if unit == ""@ || unit == "ms"@ || unit == "millisecond"@ {
        Some(1)
    } else if unit == "s"@ || unit == "sec"@ || unit == "second"@ {
        Some(1_000)
    } else if unit == "m"@ || unit == "min"@ || unit == "minute"@ {
        Some(60_000)
    } else if unit == "h"@ || unit == "hr"@ || unit == "hour"@ {
        Some(3_600_000)
    } else if unit == "d"@ || unit == "day"@ {
        Some(86_400_000)
    } else {
        None
    }
}

/// The predicate "is a digit" as a function value.
pub open spec fn digit() -> spec_fn(char) -> bool {
    |c: char| is_digit(c)
}

/// How many characters the sign of `t` takes.
pub open spec fn sign_len(t: Seq<char>) -> int {
    if t.len() > 0 && (t[0] == '-' || t[0] == '+') {
        1
    } else {
        0
    }
}

/// The sign, the number and the milliseconds of the unit in the text of a span of time;
/// none where the text is no such thing.
pub open spec fn time_parts(s: Seq<char>) -> Option<(bool, nat, nat)> {
    let t = trimmed(s);
    let sign = sign_len(t);
    let digits = span(t.skip(sign), digit()) as int;
    if digits == 0 {
        None
    } else {
        match unit_millis(ascii_lowercase(trimmed(t.skip(sign + digits)))) {
            None => None,
            Some(m) => Some((t[0] == '-', digits_number(t.subrange(sign, sign + digits)), m)),
        }
    }
}

/// The milliseconds that the text of a span of time denotes, computed in double precision
/// and cut to `i64`.
pub open spec fn time_size(s: Seq<char>) -> Option<int> {
    match time_parts(s) {
        None => None,
        Some((negative, magnitude, m)) => {
            let millis = double(double(magnitude) * m);
            Some(
                saturate(
                    if negative {
                        -millis
                    } else {
                        millis as int
                    },
                ),
            )
        },
    }
}

/// The spacing is positive, and above 2 to the 53rd at most a 2^52nd part.
pub proof fn lemma_ulp(n: nat)
    ensures
        ulp(n) >= 1,
        n < two_53() ==> ulp(n) == 1,
        n >= two_53() ==> ulp(n) * 0x10_0000_0000_0000 <= n,
    decreases n,
{
    if n >= two_53() {
        lemma_ulp(n / 2);
        if n / 2 < two_53() {
            assert(ulp(n / 2) == 1);
        }
    }
}

/// A double is at least half of the number it stands for, and at most twice it.
pub proof fn lemma_double(n: nat)
    ensures
        n <= two_53() ==> double(n) == n,
        2 * double(n) >= n,
        double(n) <= 2 * n,
{
    lemma_ulp(n);
    if n == two_53() {
        lemma_ulp(n / 2);
    }
    let u = ulp(n);
    let q = n / u;
    assert(n == q * u + n % u && 0 <= n % u < u) by (nonlinear_arith)
        requires
            u >= 1,
            q == n / u,
    ;
    assert((q + 1) * u == q * u + u) by (nonlinear_arith);
    assert(u == 1 ==> q * u == q) by (nonlinear_arith);
    if n == two_53() {
        assert(u == 2);
        assert(n % 2 == 0 && (n / 2) * 2 == n);
    }
}

proof fn lemma_nearest_bound(n: nat, u: nat)
    requires
        u >= 1,
    ensures
        (n / u) * u <= n,
        (n / u + 1) * u == (n / u) * u + u,
{
    let q = n / u;
    assert(q * u <= n) by (nonlinear_arith)
        requires
            u >= 1,
            q == n / u,
    ;
    assert((q + 1) * u == q * u + u) by (nonlinear_arith);
}

/// One more digit.
pub proof fn lemma_digits_number_push(s: Seq<char>, c: char)
    ensures
        digits_number(s.push(c)) == (digits_number(s) * 10 + digit_value(c)) as nat,
{
    assert(s.push(c).drop_last() =~= s);
}

fn double_of(n: u128) -> (r: u128)
    requires
        n < 0x1000_0000_0000_0000_0000_0000_0000,
    ensures
        r == double(n as nat),
{
    let mut u: u128 = 1;
    let mut x: u128 = n;
    while x >= 0x20_0000_0000_0000
        invariant
            u >= 1,
            u * x <= n,
            n < 0x1000_0000_0000_0000_0000_0000_0000,
            u * ulp(x as nat) == ulp(n as nat),
        decreases x,
    {
        proof {
            let h = x / 2;
            assert((2 * u) * h <= u * x && (2 * u) * ulp(h as nat) == u * (2 * ulp(h as nat)) && 2
                * u <= u * x) by (nonlinear_arith)
                requires
                    h == x / 2,
                    u >= 1,
                    x >= 2,
            ;
        }
        x = x / 2;
        u = 2 * u;
    }
    proof {
        assert(u * 1 == u) by (nonlinear_arith);
        lemma_ulp(n as nat);
        lemma_nearest_bound(n as nat, u as nat);
    }
    let q: u128 = n / u;
    let r: u128 = n % u;
    proof {
        assert(u <= n || u == 1) by {
            lemma_ulp(n as nat);
        }
    }
    if 2 * r > u || (2 * r == u && q % 2 == 1) {
        (q + 1) * u
    } else {
        q * u
    }
}

fn unit_of(unit: &str) -> (r: Option<u64>)
    ensures
        match r {
            Some(m) => unit_millis(unit@) == Some(m as nat) && 1 <= m <= 86_400_000,
            None => unit_millis(unit@) is None,
        },
{
    if str_eq(unit, "") || str_eq(unit, "ms") || str_eq(unit, "millisecond") {
        Some(1)
    } else if str_eq(unit, "s") || str_eq(unit, "sec") || str_eq(unit, "second") {
        Some(1_000)
    } else if str_eq(unit, "m") || str_eq(unit, "min") || str_eq(unit, "minute") {
        Some(60_000)
    } else if str_eq(unit, "h") || str_eq(unit, "hr") || str_eq(unit, "hour") {
        Some(3_600_000)
    } else if str_eq(unit, "d") || str_eq(unit, "day") {
        Some(86_400_000)
    } else {
        None
    }
}

/// The number that `cs[lo..hi]` denotes, or `None` from 2 to the 66th on.
fn digits_of(cs: &Vec<char>, lo: usize, hi: usize) -> (r: Option<u128>)
    requires
        lo <= hi <= cs@.len(),
        forall|i: int| lo <= i < hi ==> is_digit(#[trigger] cs@[i]),
    ensures
        match r {
            Some(v) => v == digits_number(cs@.subrange(lo as int, hi as int)) && v
                < 0x4_0000_0000_0000_0000,
            None => digits_number(cs@.subrange(lo as int, hi as int)) >= 0x4_0000_0000_0000_0000,
        },
{
    let mut acc: u128 = 0;
    let mut large: bool = false;
    let mut i: usize = lo;
    while i < hi
        invariant
            lo <= i <= hi <= cs@.len(),
            forall|j: int| lo <= j < hi ==> is_digit(#[trigger] cs@[j]),
            !large ==> acc == digits_number(cs@.subrange(lo as int, i as int)) && acc
                < 0x4_0000_0000_0000_0000,
            large ==> digits_number(cs@.subrange(lo as int, i as int)) >= 0x4_0000_0000_0000_0000,
        decreases hi - i,
    {
        let c: char = cs[i];
        proof {
            assert(is_digit(cs@[i as int]));
            lemma_digits_number_push(cs@.subrange(lo as int, i as int), c);
            assert(cs@.subrange(lo as int, i + 1) =~= cs@.subrange(lo as int, i as int).push(c));
        }
        if !large {
            acc = acc * 10 + (c as u32 - '0' as u32) as u128;
            if acc >= 0x4_0000_0000_0000_0000 {
                large = true;
            }
        }
        i = i + 1;
    }
    if large {
        None
    } else {
        Some(acc)
    }
}

/// Parses the text of a span of time into milliseconds.
///
/// Suffixes (case-insensitive): none, `ms`, `millisecond`; `s`, `sec`, `second`;
/// `m`, `min`, `minute`; `h`, `hr`, `hour`; `d`, `day`. The result may be negative.
/// Any other text gives `None`.
pub fn parse_time_size(s: &str) -> (r: Option<i64>)
    ensures
        match r {
            Some(ms) => time_size(s@) == Some(ms as int),
            None => time_size(s@) is None,
        },
{
    let t: &str = trim(s);
    let cs: Vec<char> = chars_of(t);
    let n: usize = cs.len();
    if n == 0 {
        proof {
            assert(t@.skip(0) =~= t@);
        }
        return None;
    }
    let sign: usize = if cs[0] == '-' || cs[0] == '+' {
        1
    } else {
        0
    };
    let mut i: usize = sign;
    while i < n && '0' <= cs[i] && cs[i] <= '9'
        invariant
            sign <= i <= n == cs@.len(),
            forall|j: int| sign <= j < i ==> is_digit(#[trigger] cs@[j]),
        decreases n - i,
    {
        i = i + 1;
    }
    proof {
        let u = t@.skip(sign as int);
        assert forall|j: int| 0 <= j < i - sign implies digit()(#[trigger] u[j]) by {
            assert(is_digit(cs@[j + sign]));
        }
        lemma_span_is(u, digit(), i - sign);
        assert(t@.skip(i as int) =~= t@.subrange(i as int, n as int));
    }
    if i == sign {
        return None;
    }
    let unit: String = to_ascii_lowercase(trim(t.substring_char(i, n)));
    let negative: bool = cs[0] == '-';
    match unit_of(&unit) {
        None => None,
        Some(m) => {
            let ghost magnitude = digits_number(cs@.subrange(sign as int, i as int));
            let ghost millis = double(double(magnitude) * (m as nat));
            match digits_of(&cs, sign, i) {
                None => {
                    proof {
                        lemma_double(magnitude);
                        assert(double(magnitude) * m >= double(magnitude)) by (nonlinear_arith)
                            requires
                                m >= 1,
                        ;
                        lemma_double(double(magnitude) * (m as nat));
                    }
                    if negative {
                        Some(i64::MIN)
                    } else {
                        Some(i64::MAX)
                    }
                },
                Some(v) => {
                    proof {
                        lemma_double(v as nat);
                    }
                    let d: u128 = double_of(v);
                    proof {
                        assert(d * m <= 0x8_0000_0000_0000_0000 * 86_400_000) by (nonlinear_arith)
                            requires
                                d <= 0x8_0000_0000_0000_0000,
                                0 <= m <= 86_400_000,
                        ;
                    }
                    let ms: u128 = double_of(d * m as u128);
                    if negative {
                        if ms >= 0x8000_0000_0000_0000 {
                            Some(i64::MIN)
                        } else {
                            Some(-(ms as i64))
                        }
                    } else if ms > 0x7fff_ffff_ffff_ffff {
                        Some(i64::MAX)
                    } else {
                        Some(ms as i64)
                    }
                },
            }
        },
    }
}

/// The span of `ms` milliseconds; empty where `ms` is not positive.
pub fn duration_from_time_size_ms(ms: i64) -> (r: Duration)
    ensures
        r.nanos == (if ms <= 0 {
            0
        } else {
            ms * 1_000_000
        }),
{
    if ms <= 0 {
        Duration::zero()
    } else {
        Duration::from_millis(ms as u64)
    }
}

/// A span of time of up to 2 to the 53rd milliseconds is computed exactly: it is the number
/// times the unit.
pub proof fn law_time_size_exact(s: Seq<char>, negative: bool, magnitude: nat, m: nat)
    requires
        time_parts(s) == Some((negative, magnitude, m)),
        magnitude * m <= two_53(),
    ensures
        time_size(s) == Some(
            if negative {
                -(magnitude * m)
            } else {
                (magnitude * m) as int
            },
        ),
{
    assert(magnitude <= magnitude * m) by (nonlinear_arith)
        requires
            m >= 1,
    ;
    lemma_double(magnitude);
    lemma_double(magnitude * m);
}

proof fn lemma_digits_of_decimal(n: nat)
    ensures
        digits_number(decimal(n)) == n,
    decreases n,
{
    let s = decimal(n);
    if n < 10 {
        assert(s.drop_last() =~= Seq::<char>::empty());
        assert(digits_number(s.drop_last()) == 0);
    } else {
        lemma_digits_of_decimal(n / 10);
        assert(s.drop_last() =~= decimal(n / 10));
    }
}

/// The text of a span of time is a number, with a sign before it or not, and a unit behind it
/// or not: `ms`, `s`, `m` (or `min`), `h` or `d`, in letters of any case and with white space
/// between them allowed. It denotes so many milliseconds, seconds of 1000, minutes of 60
/// seconds, hours of 60 minutes, or days of 24 hours.
pub proof fn law_time_texts(
    a: Seq<char>,
    negative: bool,
    n: nat,
    mid: Seq<char>,
    unit: Seq<char>,
    b: Seq<char>,
    m: nat,
)
    requires
        forall|i: int| 0 <= i < a.len() ==> is_white_space(#[trigger] a[i]),
        forall|i: int| 0 <= i < mid.len() ==> is_white_space(#[trigger] mid[i]),
        forall|i: int| 0 <= i < b.len() ==> is_white_space(#[trigger] b[i]),
        ({
            let u = ascii_lowercase(unit);
            ||| m == 1 && (unit.len() == 0 && mid.len() == 0 || u == "ms"@)
            ||| m == 1000 && (u == "s"@ || u == "sec"@)
            ||| m == 60 * 1000 && (u == "m"@ || u == "min"@)
            ||| m == 60 * 60 * 1000 && (u == "h"@ || u == "hour"@)
            ||| m == 24 * 60 * 60 * 1000 && (u == "d"@ || u == "day"@)
        }),
        n * m <= 0x20_0000_0000_0000,
    ensures
        ({
            let sign = if negative {
                seq!['-']
            } else {
                Seq::<char>::empty()
            };
            time_size(a + (sign + decimal(n) + mid + unit) + b) == Some(
                if negative {
                    -(n * m)
                } else {
                    (n * m) as int
                },
            )
        }),
{
    reveal_strlit("");
    reveal_strlit("ms");
    reveal_strlit("millisecond");
    reveal_strlit("s");
    reveal_strlit("sec");
    reveal_strlit("second");
    reveal_strlit("m");
    reveal_strlit("min");
    reveal_strlit("minute");
    reveal_strlit("h");
    reveal_strlit("hr");
    reveal_strlit("hour");
    reveal_strlit("d");
    reveal_strlit("day");
    lemma_decimal_digits(n);
    let u = ascii_lowercase(unit);
    let sign = if negative {
        seq!['-']
    } else {
        Seq::<char>::empty()
    };
    let d = decimal(n);
    let s = sign + d + mid + unit;
    assert('0' <= d[0] <= '9');
    assert('0' <= d[d.len() - 1] <= '9');
    assert(u.len() == unit.len());
    assert(u == "ms"@ ==> u[0] == 'm' && u[1] == 's');
    assert(u == "s"@ ==> u[0] == 's');
    assert(u == "sec"@ ==> u[0] == 's' && u[2] == 'c');
    assert(u == "m"@ ==> u[0] == 'm');
    assert(u == "min"@ ==> u[0] == 'm' && u[1] == 'i' && u[2] == 'n');
    assert(u == "h"@ ==> u[0] == 'h');
    assert(u == "hour"@ ==> u[0] == 'h' && u[1] == 'o' && u[3] == 'r');
    assert(u == "d"@ ==> u[0] == 'd');
    assert(u == "day"@ ==> u[0] == 'd' && u[2] == 'y');
    if unit.len() > 0 {
        assert(u[0] == ascii_lower(unit[0]));
        assert(u[u.len() - 1] == ascii_lower(unit[unit.len() - 1]));
        assert(s[s.len() - 1] == unit[unit.len() - 1]);
    } else {
        assert(s[s.len() - 1] == d[d.len() - 1]);
    }
    assert(!negative ==> s[0] == d[0]);
    law_trim_drops_white_space_at_the_ends(a, s, b);
    let k = sign.len() as int;
    assert(sign_len(s) == k);
    let rest = s.skip(k);
    assert(rest =~= d + mid + unit);
    assert forall|i: int| 0 <= i < d.len() implies digit()(#[trigger] rest[i]) by {
        assert('0' <= d[i] <= '9');
    }
    if rest.len() > d.len() {
        if mid.len() > 0 {
            assert(rest[d.len() as int] == mid[0]);
            assert(is_white_space(mid[0]));
        } else {
            assert(rest[d.len() as int] == unit[0]);
        }
    }
    lemma_span_is(rest, digit(), d.len() as int);
    assert(s.skip(k + d.len()) =~= mid + unit);
    let e = Seq::<char>::empty();
    law_trim_drops_white_space_at_the_ends(mid, unit, e);
    assert(mid + unit + e =~= mid + unit);
    assert(s.subrange(k, k + d.len()) =~= d);
    lemma_digits_of_decimal(n);
    if unit.len() == 0 {
        assert(u =~= ""@);
    }
    assert(unit_millis(u) == Some(m));
    law_time_size_exact(a + s + b, negative, n, m);
}

/// The time from one reading of the clock to a later one is their difference; to an earlier
/// one, or the same, no time has passed.
pub proof fn law_time_since(a: Instant, b: Instant)
    ensures
        a.nanos <= b.nanos ==> a.nanos + b.nanos_since(a) == b.nanos,
        b.nanos <= a.nanos ==> b.nanos_since(a) == 0,
{
}

/// A whole number is rounded to a multiple of the spacing that is no further than half a
/// spacing away, and to the even one where two are as near.
pub proof fn law_rounding_is_to_the_nearest(n: nat, u: nat)
    requires
        u >= 1,
    ensures
        ({
            let d = nearest(n, u);
            &&& d % u == 0
            &&& 2 * (d - n) <= u
            &&& 2 * (n - d) <= u
            &&& 2 * (d - n) == u || 2 * (n - d) == u ==> (d / u) % 2 == 0
        }),
{
    let q = n / u;
    let r = n % u;
    assert(n == q * u + r && 0 <= r < u) by (nonlinear_arith)
        requires
            u >= 1,
            q == n / u,
            r == n % u,
    ;
    assert((q + 1) * u == q * u + u) by (nonlinear_arith);
    assert((q * u) % u == 0 && ((q + 1) * u) % u == 0 && (q * u) / u == q && ((q + 1) * u) / u == q
        + 1) by {
        vstd::arithmetic::div_mod::lemma_mod_multiples_basic(q as int, u as int);
        vstd::arithmetic::div_mod::lemma_mod_multiples_basic((q + 1) as int, u as int);
        vstd::arithmetic::div_mod::lemma_div_by_multiple(q as int, u as int);
        vstd::arithmetic::div_mod::lemma_div_by_multiple((q + 1) as int, u as int);
    }
}

/// Whole numbers below 2 to the 53rd lie one apart in double precision; from there on the
/// spacing is the power of two with which a number has 53 binary digits.
pub proof fn law_spacing_of_doubles(n: nat)
    ensures
        n < 0x20_0000_0000_0000 ==> ulp(n) == 1,
        n >= 0x20_0000_0000_0000 ==> ulp(n) == 2 * ulp(n / 2),
        n >= 0x20_0000_0000_0000 ==> ulp(n) * 0x10_0000_0000_0000 <= n,
        n < ulp(n) * 0x20_0000_0000_0000,
    decreases n,
{
    lemma_ulp(n);
    if n >= 0x20_0000_0000_0000 {
        law_spacing_of_doubles(n / 2);
    }
}

/// A span of time is computed in double precision, and cut where it does not fit: it never
/// comes out with the other sign, and a span that is too long is the longest one.
pub proof fn law_long_times_are_cut(s: Seq<char>, negative: bool, magnitude: nat, m: nat)
    requires
        time_parts(s) == Some((negative, magnitude, m)),
    ensures
        time_size(s) is Some,
        ({
            let t = time_size(s)->0;
            let d = double(double(magnitude) * m);
            &&& -0x8000_0000_0000_0000 <= t <= 0x7fff_ffff_ffff_ffff
            &&& negative ==> t <= 0 && (t == -d || t == -0x8000_0000_0000_0000 && d
                > 0x8000_0000_0000_0000)
            &&& !negative ==> t >= 0 && (t == d || t == 0x7fff_ffff_ffff_ffff && d
                > 0x7fff_ffff_ffff_ffff)
        }),
        double(magnitude) == nearest(magnitude, ulp(magnitude)),
{
}

} // verus!
