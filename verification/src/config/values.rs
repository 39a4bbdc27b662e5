//! The texts of configuration values.

use vstd::prelude::*;
use vstd::string::*;

use crate::number::{law_numerals_are_read_back, parse_int, parse_u64, IntErrorKind};
use crate::proto::LoadMetadataPType;
use crate::text::{
    ascii_lower, ascii_lowercase, decimal, drop_leading, is_white_space,
    law_trim_drops_white_space_at_the_ends, lemma_decimal_digits, lemma_rspan_is, lemma_span_is,
    str_eq, to_ascii_lowercase, trim, trimmed, white,
};

verus! {

/// The bytes that the unit at the end of `t` stands for, and the length of that
/// unit in the text.
pub open spec fn byte_unit(t: Seq<char>) -> (int, int) {
    let tail = ascii_lowercase(t.skip(t.len() - 2));
    if t.len() < 2 {
        (1, 0)
    } else if tail == "gb"@ {
        (1_073_741_824, 2)
    } else if tail == "mb"@ {
        (1_048_576, 2)
    } else if tail == "kb"@ {
        (1024, 2)
    } else {
        (1, 0)
    }
}

/// The bytes that a text such as `64MB`, `512KB`, `1GB` or `4096` denotes, or
/// the message that says why it denotes none.
pub open spec fn byte_size(s: Seq<char>) -> Result<int, Seq<char>> {
    let t = trimmed(s);
    let (unit, unit_len) = byte_unit(t);
    match parse_int(trimmed(t.take(t.len() - unit_len)), 0, u64::MAX as int) {
        Err(e) => Err("invalid byte size '"@ + t + "': "@ + e.text()),
        Ok(n) => if n * unit > u64::MAX {
            Err("byte size '"@ + t + "' overflows u64"@)
        } else {
            Ok(n * unit)
        },
    }
}

/// Parses a byte size: a whole number, alone or with the unit `KB`, `MB` or
/// `GB` (case-insensitive). A size above the range of `u64` is an error.
pub fn parse_byte_size(s: &str) -> (r: Result<u64, String>)
    ensures
        match r {
            Ok(n) => byte_size(s@) == Ok::<int, Seq<char>>(n as int),
            Err(e) => byte_size(s@) == Err::<int, Seq<char>>(e@),
        },
{
    let t: &str = trim(s);
    let n: usize = t.unicode_len();
    let mut unit: u64 = 1;
    let mut cut: usize = n;
    if n >= 2 {
        proof {
            assert(t@.skip(n - 2) =~= t@.subrange(n - 2, n as int));
        }
        let tail: String = to_ascii_lowercase(t.substring_char(n - 2, n));
        if str_eq(&tail, "gb") {
            unit = 1024 * 1024 * 1024;
            cut = n - 2;
        } else if str_eq(&tail, "mb") {
            unit = 1024 * 1024;
            cut = n - 2;
        } else if str_eq(&tail, "kb") {
            unit = 1024;
            cut = n - 2;
        }
    }
    proof {
        assert(byte_unit(t@) == (unit as int, n - cut));
        assert(t@.take(cut as int) =~= t@.subrange(0, cut as int));
    }
    match parse_u64(trim(t.substring_char(0, cut))) {
        Err(e) => {
            let mut m: String = "invalid byte size '".to_owned();
            m.append(t);
            m.append("': ");
            m.append(e.message());
            Err(m)
        },
        Ok(v) => match v.checked_mul(unit) {
            Some(p) => Ok(p),
            None => {
                let mut m: String = "byte size '".to_owned();
                m.append(t);
                m.append("' overflows u64");
                Err(m)
            },
        },
    }
}

/// The switch that `true`, `false`, `1` or `0` denotes, whatever the case of
/// the letters and with white space around it allowed.
pub open spec fn loose_bool(s: Seq<char>) -> Option<bool> {
    let t = ascii_lowercase(trimmed(s));
    if t == "true"@ || t == "1"@ {
        Some(true)
    } else if t == "false"@ || t == "0"@ {
        Some(false)
    } else {
        None
    }
}

/// Parses a switch: `true`, `false`, `1` or `0` (case-insensitive). Any other
/// text is `None`, so that a slip cannot flip a default.
pub fn parse_bool_loose(s: &str) -> (r: Option<bool>)
    ensures
        r == loose_bool(s@),
{
    let t: String = to_ascii_lowercase(trim(s));
    if str_eq(&t, "true") || str_eq(&t, "1") {
        Some(true)
    } else if str_eq(&t, "false") || str_eq(&t, "0") {
        Some(false)
    } else {
        None
    }
}

/// The switch that exactly `true` or `false` denotes.
pub open spec fn strict_bool(s: Seq<char>) -> Option<bool> {
    if s == "true"@ {
        Some(true)
    } else if s == "false"@ {
        Some(false)
    } else {
        None
    }
}

/// Parses exactly `true` or `false`.
pub fn parse_bool(s: &str) -> (r: Option<bool>)
    ensures
        r == strict_bool(s@),
{
    if str_eq(s, "true") {
        Some(true)
    } else if str_eq(s, "false") {
        Some(false)
    } else {
        None
    }
}

/// Parses `true` or `false` whatever the case of the letters.
///
/// No letter outside ASCII has a letter of these two words as its lower case, so
/// the ASCII lower case decides.
pub fn parse_bool_any_case(s: &str) -> (r: Option<bool>)
    ensures
        r == strict_bool(ascii_lowercase(s@)),
{
    parse_bool(&to_ascii_lowercase(s))
}

/// The load type that `once`, `always` or `never` denotes, whatever the case of
/// the letters and with white space around it allowed.
pub open spec fn load_type_named(s: Seq<char>) -> Option<LoadMetadataPType> {
    let t = ascii_lowercase(trimmed(s));
    if t == "once"@ {
        Some(LoadMetadataPType::Once)
    } else if t == "always"@ {
        Some(LoadMetadataPType::Always)
    } else if t == "never"@ {
        Some(LoadMetadataPType::Never)
    } else {
        None
    }
}

/// Parses `ONCE`, `ALWAYS` or `NEVER` (case-insensitive).
pub fn parse_load_metadata_type(s: &str) -> (r: Option<LoadMetadataPType>)
    ensures
        r == load_type_named(s@),
{
    let t: String = to_ascii_lowercase(trim(s));
    if str_eq(&t, "once") {
        Some(LoadMetadataPType::Once)
    } else if str_eq(&t, "always") {
        Some(LoadMetadataPType::Always)
    } else if str_eq(&t, "never") {
        Some(LoadMetadataPType::Never)
    } else {
        None
    }
}

/// The name of a load type denotes that load type.
pub proof fn law_load_type_name_round_trip(t: LoadMetadataPType)
    ensures
        load_type_named(t.name()) == Some(t),
{
    reveal_strlit("NEVER");
    reveal_strlit("ONCE");
    reveal_strlit("ALWAYS");
    reveal_strlit("never");
    reveal_strlit("once");
    reveal_strlit("always");
    let s = t.name();
    lemma_span_is(s, white(), 0);
    lemma_rspan_is(drop_leading(s, white()), white(), 0);
    assert(drop_leading(s, white()) =~= s);
    assert(trimmed(s) =~= s);
    match t {
        LoadMetadataPType::Never => {
            assert(ascii_lowercase(s) =~= "never"@);
        },
        LoadMetadataPType::Once => {
            assert(ascii_lowercase(s) =~= "once"@);
        },
        LoadMetadataPType::Always => {
            assert(ascii_lowercase(s) =~= "always"@);
        },
    }
}

proof fn lemma_byte_text(n: nat, a: Seq<char>, mid: Seq<char>, unit: Seq<char>, b: Seq<char>)
    requires
        n <= u64::MAX,
        forall|i: int| 0 <= i < a.len() ==> is_white_space(#[trigger] a[i]),
        forall|i: int| 0 <= i < mid.len() ==> is_white_space(#[trigger] mid[i]),
        forall|i: int| 0 <= i < b.len() ==> is_white_space(#[trigger] b[i]),
        unit.len() == 2,
        !is_white_space(unit[1]),
    ensures
        trimmed(a + (decimal(n) + mid + unit) + b) == decimal(n) + mid + unit,
        trimmed(decimal(n) + mid) == decimal(n),
        parse_int(decimal(n), 0, u64::MAX as int) == Ok::<int, IntErrorKind>(n as int),
        trimmed(a + decimal(n) + b) == decimal(n),
{
    lemma_decimal_digits(n);
    let s = decimal(n) + mid + unit;
    assert(s[0] == decimal(n)[0]);
    assert(s[s.len() - 1] == unit[1]);
    assert('0' <= decimal(n)[0] <= '9');
    assert('0' <= decimal(n)[decimal(n).len() - 1] <= '9');
    law_trim_drops_white_space_at_the_ends(a, s, b);
    let e = Seq::<char>::empty();
    law_trim_drops_white_space_at_the_ends(e, decimal(n), mid);
    assert(e + decimal(n) + mid =~= decimal(n) + mid);
    law_trim_drops_white_space_at_the_ends(a, decimal(n), b);
    law_numerals_are_read_back(n as int, 0, u64::MAX as int);
}

/// A number alone denotes so many bytes. With `KB`, `MB` or `GB` behind it, in letters of any
/// case and with white space between them allowed, it denotes 1024, 1024 times 1024, or 1024
/// times 1024 times 1024 times as many. More than a `u64` holds is an error.
pub proof fn law_byte_sizes(
    n: nat,
    a: Seq<char>,
    mid: Seq<char>,
    unit: Seq<char>,
    b: Seq<char>,
)
    requires
        n <= u64::MAX,
        forall|i: int| 0 <= i < a.len() ==> is_white_space(#[trigger] a[i]),
        forall|i: int| 0 <= i < mid.len() ==> is_white_space(#[trigger] mid[i]),
        forall|i: int| 0 <= i < b.len() ==> is_white_space(#[trigger] b[i]),
        unit.len() == 2,
        unit[0] == 'K' || unit[0] == 'k' || unit[0] == 'M' || unit[0] == 'm' || unit[0] == 'G'
            || unit[0] == 'g',
        unit[1] == 'B' || unit[1] == 'b',
    ensures
        byte_size(a + decimal(n) + b) == Ok::<int, Seq<char>>(n as int),
        ({
            let size = byte_size(a + (decimal(n) + mid + unit) + b);
            let bytes = if unit[0] == 'K' || unit[0] == 'k' {
                n * 1024
            } else if unit[0] == 'M' || unit[0] == 'm' {
                n * 1024 * 1024
            } else {
                n * 1024 * 1024 * 1024
            };
            if bytes <= u64::MAX {
                size == Ok::<int, Seq<char>>(bytes as int)
            } else {
                size == Err::<int, Seq<char>>(
                    "byte size '"@ + (decimal(n) + mid + unit) + "' overflows u64"@,
                )
            }
        }),
{
    reveal_strlit("gb");
    reveal_strlit("mb");
    reveal_strlit("kb");
    lemma_byte_text(n, a, mid, unit, b);
    lemma_decimal_digits(n);
    let t = decimal(n) + mid + unit;
    assert(t.skip(t.len() - 2) =~= unit);
    assert(t.take(t.len() - 2) =~= decimal(n) + mid);
    let low = ascii_lowercase(unit);
    assert(low.len() == 2 && low[1] == 'b');
    if unit[0] == 'K' || unit[0] == 'k' {
        assert(low =~= "kb"@);
        assert(low[0] != "gb"@[0] && low[0] != "mb"@[0]);
    } else if unit[0] == 'M' || unit[0] == 'm' {
        assert(low =~= "mb"@);
        assert(low[0] != "gb"@[0]);
    } else {
        assert(low =~= "gb"@);
    }
    let size: int = if unit[0] == 'K' || unit[0] == 'k' {
        1024
    } else if unit[0] == 'M' || unit[0] == 'm' {
        1_048_576
    } else {
        1_073_741_824
    };
    assert(byte_unit(t) == (size, 2int));
    let times = byte_unit(t).0;
    assert(times == 1024 ==> n * times == n * 1024) by (nonlinear_arith);
    assert(times == 1_048_576 ==> n * times == n * 1024 * 1024) by (nonlinear_arith);
    assert(times == 1_073_741_824 ==> n * times == n * 1024 * 1024 * 1024) by (nonlinear_arith);
    let d = decimal(n);
    if d.len() >= 2 {
        let tail = ascii_lowercase(d.skip(d.len() - 2));
        assert('0' <= d[d.len() - 2] <= '9');
        assert(tail[0] == d[d.len() - 2]);
        assert(tail[0] != "gb"@[0] && tail[0] != "mb"@[0] && tail[0] != "kb"@[0]);
        assert(tail != "gb"@ && tail != "mb"@ && tail != "kb"@);
    }
    assert(byte_unit(d) == (1int, 0int));
    let one = byte_unit(d).0;
    assert(n * one == n) by (nonlinear_arith)
        requires
            one == 1,
    ;
    assert(d.take(d.len() as int) =~= d);
    let e = Seq::<char>::empty();
    assert(e + d + e =~= d);
    law_trim_drops_white_space_at_the_ends(e, d, e);
}

/// `true` and `1` switch on, `false` and `0` switch off, in letters of any case and with
/// white space around them. What denotes a switch for the exact reading denotes the same one
/// here.
pub proof fn law_switch_words(a: Seq<char>, word: Seq<char>, b: Seq<char>)
    requires
        forall|i: int| 0 <= i < a.len() ==> is_white_space(#[trigger] a[i]),
        forall|i: int| 0 <= i < b.len() ==> is_white_space(#[trigger] b[i]),
    ensures
        ascii_lowercase(word) == "true"@ || word == "1"@ ==> loose_bool(a + word + b) == Some(true),
        ascii_lowercase(word) == "false"@ || word == "0"@ ==> loose_bool(a + word + b) == Some(
            false,
        ),
        word == "true"@ ==> strict_bool(word) == Some(true) && loose_bool(word) == Some(true)
            && strict_bool(ascii_lowercase(word)) == Some(true),
        word == "false"@ ==> strict_bool(word) == Some(false) && loose_bool(word) == Some(false)
            && strict_bool(ascii_lowercase(word)) == Some(false),
{
    reveal_strlit("true");
    reveal_strlit("false");
    reveal_strlit("1");
    reveal_strlit("0");
    let low = ascii_lowercase(word);
    if word == "true"@ || word == "false"@ || word == "1"@ || word == "0"@ {
        assert(low =~= word);
    }
    assert("true"@[0] == 't' && "true"@[3] == 'e');
    assert("false"@[0] == 'f' && "false"@[4] == 'e');
    assert("1"@[0] == '1' && "0"@[0] == '0');
    assert(low.len() == word.len());
    if low == "true"@ || low == "false"@ || low == "1"@ || low == "0"@ {
        assert(low[0] == ascii_lower(word[0]));
        assert(low[low.len() - 1] == ascii_lower(word[word.len() - 1]));
        law_trim_drops_white_space_at_the_ends(a, word, b);
    }
}

/// `once`, `always` and `never` name the load types, in letters of any case and with white
/// space around them.
pub proof fn law_load_type_words(a: Seq<char>, word: Seq<char>, b: Seq<char>)
    requires
        forall|i: int| 0 <= i < a.len() ==> is_white_space(#[trigger] a[i]),
        forall|i: int| 0 <= i < b.len() ==> is_white_space(#[trigger] b[i]),
    ensures
        ascii_lowercase(word) == "once"@ ==> load_type_named(a + word + b) == Some(
            LoadMetadataPType::Once,
        ),
        ascii_lowercase(word) == "always"@ ==> load_type_named(a + word + b) == Some(
            LoadMetadataPType::Always,
        ),
        ascii_lowercase(word) == "never"@ ==> load_type_named(a + word + b) == Some(
            LoadMetadataPType::Never,
        ),
{
    reveal_strlit("never");
    reveal_strlit("once");
    reveal_strlit("always");
    let low = ascii_lowercase(word);
    assert("once"@[0] == 'o' && "once"@[3] == 'e');
    assert("always"@[0] == 'a' && "always"@[5] == 's');
    assert("never"@[0] == 'n' && "never"@[4] == 'r');
    assert(low.len() == word.len());
    if low == "once"@ || low == "always"@ || low == "never"@ {
        assert(low[0] == ascii_lower(word[0]));
        assert(low[low.len() - 1] == ascii_lower(word[word.len() - 1]));
        law_trim_drops_white_space_at_the_ends(a, word, b);
    }
}

/// A text that is no byte size is named, with what is wrong with its number.
pub proof fn law_texts_that_are_no_byte_sizes(t: Seq<char>, e: IntErrorKind)
    requires
        t.len() > 0 ==> !is_white_space(t[0]) && !is_white_space(t[t.len() - 1]),
        t.len() > 0 ==> t[t.len() - 1] != 'b' && t[t.len() - 1] != 'B',
        parse_int(t, 0, u64::MAX as int) == Err::<int, IntErrorKind>(e),
    ensures
        byte_size(t) == Err::<int, Seq<char>>("invalid byte size '"@ + t + "': "@ + e.text()),
{
    reveal_strlit("gb");
    reveal_strlit("mb");
    reveal_strlit("kb");
    let none = Seq::<char>::empty();
    law_trim_drops_white_space_at_the_ends(none, t, none);
    assert(trimmed(t) == t);
    assert(t.take(t.len() as int) =~= t);
    if t.len() >= 2 {
        let tail = ascii_lowercase(t.skip(t.len() - 2));
        assert(tail.len() == 2);
        assert(tail[1] != 'b');
        assert("gb"@[1] == 'b' && "mb"@[1] == 'b' && "kb"@[1] == 'b');
    }
}

} // verus!
