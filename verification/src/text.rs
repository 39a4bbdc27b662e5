//! Text primitives: strings are modelled as sequences of characters.

use vstd::prelude::*;
use vstd::string::*;

verus! {

/// Appending one character to a [`String`], as `String::push` documents it.
pub assume_specification[ String::push ](s: &mut String, c: char)
    ensures
        final(s)@ == old(s)@.push(c),
;

/// The characters with the Unicode property `White_Space`.
pub open spec fn is_white_space(c: char) -> bool {
    ||| '\u{9}' <= c <= '\u{d}'
    ||| c == ' '
    ||| c == '\u{85}'
    ||| c == '\u{a0}'
    ||| c == '\u{1680}'
    ||| '\u{2000}' <= c <= '\u{200a}'
    ||| c == '\u{2028}'
    ||| c == '\u{2029}'
    ||| c == '\u{202f}'
    ||| c == '\u{205f}'
    ||| c == '\u{3000}'
}

/// Whether `c` has the Unicode property `White_Space`.
pub fn char_is_white_space(c: char) -> (r: bool)
    ensures
        r == is_white_space(c),
{
    ('\u{9}' <= c && c <= '\u{d}') || c == ' ' || c == '\u{85}' || c == '\u{a0}' || c == '\u{1680}'
        || ('\u{2000}' <= c && c <= '\u{200a}') || c == '\u{2028}' || c == '\u{2029}' || c
        == '\u{202f}' || c == '\u{205f}' || c == '\u{3000}'
}

/// The predicate "is white space" as a function value.
pub open spec fn white() -> spec_fn(char) -> bool {
    |c: char| is_white_space(c)
}

/// The predicate "equals `x`" as a function value.
pub open spec fn exactly(x: char) -> spec_fn(char) -> bool {
    |c: char| c == x
}

/// The predicate "differs from `x`" as a function value.
pub open spec fn other_than(x: char) -> spec_fn(char) -> bool {
    |c: char| c != x
}

/// How many leading characters of `s` satisfy `p`.
pub open spec fn span(s: Seq<char>, p: spec_fn(char) -> bool) -> nat
    decreases s.len(),
{
    if s.len() == 0 || !p(s[0]) {
        0
    } else {
        1 + span(s.skip(1), p)
    }
}

/// How many trailing characters of `s` satisfy `p`.
pub open spec fn rspan(s: Seq<char>, p: spec_fn(char) -> bool) -> nat
    decreases s.len(),
{
    if s.len() == 0 || !p(s.last()) {
        0
    } else {
        1 + rspan(s.drop_last(), p)
    }
}

/// `s` without its leading characters that satisfy `p`.
pub open spec fn drop_leading(s: Seq<char>, p: spec_fn(char) -> bool) -> Seq<char> {
    s.skip(span(s, p) as int)
}

/// `s` without its trailing characters that satisfy `p`.
pub open spec fn drop_trailing(s: Seq<char>, p: spec_fn(char) -> bool) -> Seq<char> {
    s.take(s.len() - rspan(s, p))
}

/// `s` without leading and trailing white space.
pub open spec fn trimmed(s: Seq<char>) -> Seq<char> {
    drop_trailing(drop_leading(s, white()), white())
}

/// `span` is the one split point between characters that satisfy `p` and the
/// first that does not.
pub proof fn lemma_span_is(s: Seq<char>, p: spec_fn(char) -> bool, k: int)
    requires
        0 <= k <= s.len(),
        forall|i: int| 0 <= i < k ==> p(#[trigger] s[i]),
        k < s.len() ==> !p(s[k]),
    ensures
        span(s, p) == k,
    decreases s.len(),
{
    if k > 0 {
        assert(p(s[0]));
        assert forall|i: int| 0 <= i < k - 1 implies p(#[trigger] s.skip(1)[i]) by {
            assert(p(s[i + 1]));
        }
        lemma_span_is(s.skip(1), p, k - 1);
    }
}

/// What `span` counts.
pub proof fn lemma_span(s: Seq<char>, p: spec_fn(char) -> bool)
    ensures
        span(s, p) <= s.len(),
        forall|i: int| 0 <= i < span(s, p) ==> p(#[trigger] s[i]),
        span(s, p) < s.len() ==> !p(s[span(s, p) as int]),
    decreases s.len(),
{
    if s.len() > 0 && p(s[0]) {
        lemma_span(s.skip(1), p);
        assert forall|i: int| 0 <= i < span(s, p) implies p(#[trigger] s[i]) by {
            if i > 0 {
                assert(p(s.skip(1)[i - 1]));
            }
        }
    }
}

/// `rspan` is the one split point seen from the end.
pub proof fn lemma_rspan_is(s: Seq<char>, p: spec_fn(char) -> bool, k: int)
    requires
        0 <= k <= s.len(),
        forall|i: int| s.len() - k <= i < s.len() ==> p(#[trigger] s[i]),
        k < s.len() ==> !p(s[s.len() - k - 1]),
    ensures
        rspan(s, p) == k,
    decreases s.len(),
{
    if k > 0 {
        assert(p(s[s.len() - 1]));
        let t = s.drop_last();
        assert forall|i: int| t.len() - (k - 1) <= i < t.len() implies p(#[trigger] t[i]) by {
            assert(p(s[i]));
        }
        lemma_rspan_is(t, p, k - 1);
    }
}

/// What `rspan` counts.
pub proof fn lemma_rspan(s: Seq<char>, p: spec_fn(char) -> bool)
    ensures
        rspan(s, p) <= s.len(),
        forall|i: int| s.len() - rspan(s, p) <= i < s.len() ==> p(#[trigger] s[i]),
        rspan(s, p) < s.len() ==> !p(s[s.len() - rspan(s, p) - 1]),
    decreases s.len(),
{
    if s.len() > 0 && p(s.last()) {
        lemma_rspan(s.drop_last(), p);
        assert forall|i: int| s.len() - rspan(s, p) <= i < s.len() implies p(#[trigger] s[i]) by {
            if i < s.len() - 1 {
                assert(p(s.drop_last()[i]));
            }
        }
    }
}

/// The characters of `s`, in order.
pub fn chars_of(s: &str) -> (r: Vec<char>)
    ensures
        r@ == s@,
{
    let mut out: Vec<char> = Vec::new();
    for c in it: s.chars()
        invariant
            it.seq() == s@,
            out@ == s@.take(it.index() as int),
    {
        out.push(c);
    }
    out
}

/// The string whose characters are `cs[lo..hi]`.
pub fn string_of(cs: &Vec<char>, lo: usize, hi: usize) -> (r: String)
    requires
        lo <= hi <= cs@.len(),
    ensures
        r@ == cs@.subrange(lo as int, hi as int),
{
    let mut out: String = String::new();
    let mut i: usize = lo;
    while i < hi
        invariant
            lo <= i <= hi <= cs@.len(),
            out@ == cs@.subrange(lo as int, i as int),
        decreases hi - i,
    {
        out.push(cs[i]);
        i = i + 1;
    }
    out
}

/// Whether two strings hold the same characters.
pub fn str_eq(a: &str, b: &str) -> (r: bool)
    ensures
        r == (a@ == b@),
{
    a.to_owned() == b.to_owned()
}

/// `s` without leading and trailing white space.
pub fn trim<'a>(s: &'a str) -> (r: &'a str)
    ensures
        r@ == trimmed(s@),
{
    let cs: Vec<char> = chars_of(s);
    let n: usize = cs.len();
    let mut lo: usize = 0;
    while lo < n && char_is_white_space(cs[lo])
        invariant
            lo <= n == cs@.len(),
            forall|i: int| 0 <= i < lo ==> white()(#[trigger] cs@[i]),
        decreases n - lo,
    {
        lo = lo + 1;
    }
    proof {
        lemma_span_is(s@, white(), lo as int);
    }
    let mut hi: usize = n;
    while hi > lo && char_is_white_space(cs[hi - 1])
        invariant
            lo <= hi <= n == cs@.len(),
            forall|i: int| hi <= i < n ==> white()(#[trigger] cs@[i]),
        decreases hi,
    {
        hi = hi - 1;
    }
    proof {
        let t = s@.skip(lo as int);
        assert forall|i: int| t.len() - (n - hi) <= i < t.len() implies white()(#[trigger] t[i]) by {
            assert(white()(cs@[i + lo]));
        }
        lemma_rspan_is(t, white(), n - hi);
        assert(trimmed(s@) =~= s@.subrange(lo as int, hi as int));
    }
    s.substring_char(lo, hi)
}

/// `s` without leading white space.
pub fn trim_start<'a>(s: &'a str) -> (r: &'a str)
    ensures
        r@ == drop_leading(s@, white()),
{
    let cs: Vec<char> = chars_of(s);
    let n: usize = cs.len();
    let mut lo: usize = 0;
    while lo < n && char_is_white_space(cs[lo])
        invariant
            lo <= n == cs@.len(),
            forall|i: int| 0 <= i < lo ==> white()(#[trigger] cs@[i]),
        decreases n - lo,
    {
        lo = lo + 1;
    }
    proof {
        lemma_span_is(s@, white(), lo as int);
        assert(s@.skip(lo as int) =~= s@.subrange(lo as int, n as int));
    }
    s.substring_char(lo, n)
}

/// `s` without the leading characters equal to `x`.
pub fn trim_start_matches<'a>(s: &'a str, x: char) -> (r: &'a str)
    ensures
        r@ == drop_leading(s@, exactly(x)),
{
    let cs: Vec<char> = chars_of(s);
    let n: usize = cs.len();
    let mut lo: usize = 0;
    while lo < n && cs[lo] == x
        invariant
            lo <= n == cs@.len(),
            forall|i: int| 0 <= i < lo ==> exactly(x)(#[trigger] cs@[i]),
        decreases n - lo,
    {
        lo = lo + 1;
    }
    proof {
        lemma_span_is(s@, exactly(x), lo as int);
        assert(s@.skip(lo as int) =~= s@.subrange(lo as int, n as int));
    }
    s.substring_char(lo, n)
}

/// `s` without the trailing characters equal to `x`.
pub fn trim_end_matches<'a>(s: &'a str, x: char) -> (r: &'a str)
    ensures
        r@ == drop_trailing(s@, exactly(x)),
{
    let cs: Vec<char> = chars_of(s);
    let n: usize = cs.len();
    let mut hi: usize = n;
    while hi > 0 && cs[hi - 1] == x
        invariant
            hi <= n == cs@.len(),
            forall|i: int| hi <= i < n ==> exactly(x)(#[trigger] cs@[i]),
        decreases hi,
    {
        hi = hi - 1;
    }
    proof {
        lemma_rspan_is(s@, exactly(x), n - hi);
        assert(s@.take(hi as int) =~= s@.subrange(0, hi as int));
    }
    s.substring_char(0, hi)
}

/// Whether `s` begins with `prefix`.
pub open spec fn has_prefix(s: Seq<char>, prefix: Seq<char>) -> bool {
    prefix.len() <= s.len() && s.take(prefix.len() as int) == prefix
}

/// Whether `s` begins with `prefix`.
pub fn starts_with(s: &str, prefix: &str) -> (r: bool)
    ensures
        r == has_prefix(s@, prefix@),
{
    let n: usize = prefix.unicode_len();
    if s.unicode_len() < n {
        return false;
    }
    proof {
        assert(s@.take(n as int) =~= s@.subrange(0, n as int));
    }
    str_eq(s.substring_char(0, n), prefix)
}

/// Index of the first `x` in `s`, or the length of `s` where there is none.
pub fn find(s: &str, x: char) -> (r: usize)
    ensures
        r == span(s@, other_than(x)),
        r <= s@.len(),
{
    let cs: Vec<char> = chars_of(s);
    let n: usize = cs.len();
    let mut i: usize = 0;
    while i < n && cs[i] != x
        invariant
            i <= n == cs@.len(),
            forall|j: int| 0 <= j < i ==> other_than(x)(#[trigger] cs@[j]),
        decreases n - i,
    {
        i = i + 1;
    }
    proof {
        lemma_span_is(s@, other_than(x), i as int);
    }
    i
}

/// The ASCII lower case of `c`; any other character is its own.
pub open spec fn ascii_lower(c: char) -> char {
    if 'A' <= c <= 'Z' {
        (c as u32 + 32) as char
    } else {
        c
    }
}

/// `s` with ASCII letters in lower case.
pub open spec fn ascii_lowercase(s: Seq<char>) -> Seq<char> {
    s.map_values(|c: char| ascii_lower(c))
}

/// The ASCII lower case of `c`; any other character is its own.
pub fn char_ascii_lower(c: char) -> (r: char)
    ensures
        r == ascii_lower(c),
{
    if 'A' <= c && c <= 'Z' {
        let b: u8 = c as u8;
        (b + 32) as char
    } else {
        c
    }
}

/// `s` with ASCII letters in lower case.
pub fn to_ascii_lowercase(s: &str) -> (r: String)
    ensures
        r@ == ascii_lowercase(s@),
{
    let cs: Vec<char> = chars_of(s);
    let mut out: String = String::new();
    let mut i: usize = 0;
    while i < cs.len()
        invariant
            i <= cs@.len(),
            out@ == ascii_lowercase(cs@.take(i as int)),
        decreases cs@.len() - i,
    {
        out.push(char_ascii_lower(cs[i]));
        i = i + 1;
        proof {
            assert(ascii_lowercase(cs@.take(i as int)) =~= ascii_lowercase(
                cs@.take(i - 1),
            ).push(ascii_lower(cs@[i - 1])));
        }
    }
    proof {
        assert(cs@.take(i as int) =~= cs@);
    }
    out
}

/// The contents of a list of strings.
pub open spec fn string_views(v: Seq<String>) -> Seq<Seq<char>> {
    v.map_values(|s: String| s@)
}

/// The items of a comma-separated list: each trimmed, the empty ones dropped.
pub open spec fn list_items(s: Seq<char>) -> Seq<Seq<char>>
    decreases s.len(),
{
    let k = span(s, other_than(','));
    let head = trimmed(s.take(k as int));
    let tail = if k < s.len() {
        list_items(s.skip(k as int + 1))
    } else {
        Seq::empty()
    };
    if head.len() == 0 {
        tail
    } else {
        seq![head] + tail
    }
}

/// Splits a comma-separated list, trims the items and drops the empty ones.
pub fn comma_list(s: &str) -> (r: Vec<String>)
    ensures
        string_views(r@) == list_items(s@),
{
    let mut out: Vec<String> = Vec::new();
    let mut rest: &str = s;
    loop
        invariant_except_break
            string_views(out@) + list_items(rest@) == list_items(s@),
        ensures
            string_views(out@) == list_items(s@),
        decreases rest@.len(),
    {
        let n: usize = rest.unicode_len();
        let k: usize = find(rest, ',');
        proof {
            assert(rest@.take(k as int) =~= rest@.subrange(0, k as int));
        }
        let item: &str = trim(rest.substring_char(0, k));
        let ghost before = out@;
        if !item.is_empty() {
            out.push(item.to_owned());
            proof {
                assert(string_views(out@) =~= string_views(before).push(item@));
            }
        }
        if k >= n {
            proof {
                assert(string_views(out@) =~= list_items(s@));
            }
            break;
        }
        proof {
            assert(rest@.skip(k + 1) =~= rest@.subrange(k + 1, n as int));
            assert(string_views(out@) + list_items(rest@.skip(k + 1)) =~= string_views(before)
                + list_items(rest@));
        }
        rest = rest.substring_char(k + 1, n);
    }
    out
}

/// The decimal digit `d` as a character.
pub open spec fn digit_char(d: int) -> char {
    (48 + d) as char
}

/// The decimal numeral of `n`.
pub open spec fn decimal(n: nat) -> Seq<char>
    decreases n,
{
    if n < 10 {
        seq![digit_char(n as int)]
    } else {
        decimal(n / 10).push(digit_char((n % 10) as int))
    }
}

/// The decimal numeral of `i`, with a leading `-` where it is negative.
pub open spec fn signed_decimal(i: int) -> Seq<char> {
    if i < 0 {
        seq!['-'] + decimal((-i) as nat)
    } else {
        decimal(i as nat)
    }
}

/// The decimal numeral of `n`.
pub fn decimal_string(n: u128) -> (r: String)
    ensures
        r@ == decimal(n as nat),
    decreases n,
{
    let d: u8 = (n % 10) as u8;
    let c: char = (48 + d) as char;
    let mut out: String = if n < 10 {
        String::new()
    } else {
        decimal_string(n / 10)
    };
    out.push(c);
    out
}

/// The decimal numeral of `i`, with a leading `-` where it is negative.
pub fn signed_decimal_string(i: i64) -> (r: String)
    ensures
        r@ == signed_decimal(i as int),
{
    if i < 0 {
        let mut out: String = String::new();
        out.push('-');
        let m: String = decimal_string((-(i as i128)) as u128);
        out.append(&m);
        out
    } else {
        decimal_string(i as u128)
    }
}

/// Blanks, tabs and line breaks are white space; visible ASCII characters are not.
pub proof fn law_white_space(c: char)
    ensures
        c == ' ' || c == '\t' || c == '\n' || c == '\r' ==> is_white_space(c),
        '!' <= c <= '~' ==> !is_white_space(c),
{
}

/// Trimming drops white space at the two ends, all of it, and nothing else.
pub proof fn law_trim_drops_white_space_at_the_ends(a: Seq<char>, s: Seq<char>, b: Seq<char>)
    requires
        forall|i: int| 0 <= i < a.len() ==> is_white_space(#[trigger] a[i]),
        forall|i: int| 0 <= i < b.len() ==> is_white_space(#[trigger] b[i]),
        s.len() > 0 ==> !is_white_space(s[0]) && !is_white_space(s[s.len() - 1]),
    ensures
        trimmed(a + s + b) == s,
        trimmed(s) == s,
{
    lemma_trim_ends(a, s, b);
    let e = Seq::<char>::empty();
    lemma_trim_ends(e, s, e);
    assert(e + s + e =~= s);
}

proof fn lemma_trim_ends(a: Seq<char>, s: Seq<char>, b: Seq<char>)
    requires
        forall|i: int| 0 <= i < a.len() ==> is_white_space(#[trigger] a[i]),
        forall|i: int| 0 <= i < b.len() ==> is_white_space(#[trigger] b[i]),
        s.len() > 0 ==> !is_white_space(s[0]) && !is_white_space(s[s.len() - 1]),
    ensures
        trimmed(a + s + b) == s,
{
    let t = a + s + b;
    let w = white();
    if s.len() == 0 {
        assert forall|i: int| 0 <= i < t.len() implies w(#[trigger] t[i]) by {
            if i < a.len() {
                assert(is_white_space(a[i]));
            } else {
                assert(is_white_space(b[i - a.len()]));
            }
        }
        lemma_span_is(t, w, t.len() as int);
        assert(drop_leading(t, w) =~= s);
        lemma_rspan_is(s, w, 0);
    } else {
        assert forall|i: int| 0 <= i < a.len() implies w(#[trigger] t[i]) by {
            assert(is_white_space(a[i]));
        }
        assert(t[a.len() as int] == s[0]);
        lemma_span_is(t, w, a.len() as int);
        let u = drop_leading(t, w);
        assert(u =~= s + b);
        assert forall|i: int| u.len() - b.len() <= i < u.len() implies w(#[trigger] u[i]) by {
            assert(is_white_space(b[i - s.len()]));
        }
        assert(u[u.len() - b.len() - 1] == s[s.len() - 1]);
        lemma_rspan_is(u, w, b.len() as int);
    }
    assert(trimmed(t) =~= s);
}

/// Dropping the trailing characters that equal `x` drops all of these, and nothing else.
pub proof fn law_trailing_characters_are_dropped(s: Seq<char>, x: char, n: nat)
    requires
        s.len() > 0 ==> s[s.len() - 1] != x,
    ensures
        drop_trailing(s + Seq::new(n, |i: int| x), exactly(x)) == s,
        drop_trailing(s, exactly(x)) == s,
{
    let t = s + Seq::new(n, |i: int| x);
    lemma_rspan_is(t, exactly(x), n as int);
    assert(drop_trailing(t, exactly(x)) =~= s);
    lemma_rspan_is(s, exactly(x), 0);
    assert(drop_trailing(s, exactly(x)) =~= s);
}

/// A comma ends an item: the items of a list are its first one, without the white space
/// around it, and those behind the comma. A first one of white space alone does not count.
pub proof fn law_list_splits_at_commas(
    a: Seq<char>,
    item: Seq<char>,
    b: Seq<char>,
    rest: Seq<char>,
)
    requires
        forall|i: int| 0 <= i < a.len() ==> is_white_space(#[trigger] a[i]),
        forall|i: int| 0 <= i < b.len() ==> is_white_space(#[trigger] b[i]),
        forall|i: int| 0 <= i < item.len() ==> #[trigger] item[i] != ',',
        item.len() > 0 ==> !is_white_space(item[0]) && !is_white_space(item[item.len() - 1]),
    ensures
        list_items(a + item + b) == (if item.len() > 0 {
            seq![item]
        } else {
            Seq::empty()
        }),
        list_items(a + item + b + seq![','] + rest) == (if item.len() > 0 {
            seq![item]
        } else {
            Seq::empty()
        }) + list_items(rest),
{
    let head = a + item + b;
    lemma_trim_ends(a, item, b);
    assert forall|i: int| 0 <= i < head.len() implies other_than(',')(#[trigger] head[i]) by {
        if i < a.len() {
            assert(is_white_space(a[i]));
        } else if i < a.len() + item.len() {
            assert(item[i - a.len()] != ',');
        } else {
            assert(is_white_space(b[i - a.len() - item.len()]));
        }
    }
    lemma_span_is(head, other_than(','), head.len() as int);
    assert(head.take(head.len() as int) =~= head);
    let all = head + seq![','] + rest;
    assert forall|i: int| 0 <= i < head.len() implies other_than(',')(#[trigger] all[i]) by {
        assert(other_than(',')(head[i]));
    }
    lemma_span_is(all, other_than(','), head.len() as int);
    assert(all.take(head.len() as int) =~= head);
    assert(all.skip(head.len() as int + 1) =~= rest);
    assert(list_items(head) =~= if item.len() > 0 {
        seq![item]
    } else {
        Seq::empty()
    });
    assert(list_items(all) =~= (if item.len() > 0 {
        seq![item]
    } else {
        Seq::empty()
    }) + list_items(rest));
}

/// Capital letters become the small ones, 32 places behind them; nothing else changes.
pub proof fn law_lower_case(s: Seq<char>, i: int)
    requires
        0 <= i < s.len(),
    ensures
        ascii_lowercase(s).len() == s.len(),
        'A' <= s[i] <= 'Z' ==> ascii_lowercase(s)[i] as int == s[i] as int + 32,
        !('A' <= s[i] <= 'Z') ==> ascii_lowercase(s)[i] == s[i],
{
}

/// A numeral is built digit by digit: one more digit makes ten times the number, and the
/// digit.
pub proof fn law_numerals_are_decimal(n: nat, d: int)
    requires
        0 <= d < 10,
    ensures
        decimal(d as nat) == seq![('0' as int + d) as char],
        n > 0 ==> decimal((10 * n + d) as nat) == decimal(n).push(('0' as int + d) as char),
        signed_decimal(n as int) == decimal(n),
        n > 0 ==> signed_decimal(-(n as int)) == seq!['-'] + decimal(n),
{
    if n > 0 {
        let m = (10 * n + d) as nat;
        assert(m / 10 == n && m % 10 == d);
    }
}

/// A numeral has digits alone, and at least one.
pub proof fn lemma_decimal_digits(n: nat)
    ensures
        decimal(n).len() > 0,
        forall|i: int| 0 <= i < decimal(n).len() ==> '0' <= #[trigger] decimal(n)[i] <= '9',
    decreases n,
{
    if n >= 10 {
        lemma_decimal_digits(n / 10);
        assert forall|i: int| 0 <= i < decimal(n).len() implies '0' <= #[trigger] decimal(n)[i]
            <= '9' by {
            if i < decimal(n / 10).len() {
                assert(decimal(n)[i] == decimal(n / 10)[i]);
            }
        }
    }
}

/// Different numbers have different numerals.
pub proof fn law_numerals_differ(a: nat, b: nat)
    requires
        decimal(a) == decimal(b),
    ensures
        a == b,
    decreases a,
{
    let s = decimal(a);
    if a < 10 && b < 10 {
        assert(s[0] as int == 48 + a);
    } else if a >= 10 && b >= 10 {
        assert(s.drop_last() =~= decimal(a / 10));
        assert(s.drop_last() =~= decimal(b / 10));
        law_numerals_differ(a / 10, b / 10);
        assert(s.last() == digit_char((a % 10) as int));
        assert(s.last() == digit_char((b % 10) as int));
    } else {
        lemma_decimal_digits(a / 10);
        lemma_decimal_digits(b / 10);
        assert(a >= 10 ==> s.len() == decimal(a / 10).len() + 1);
        assert(b >= 10 ==> s.len() == decimal(b / 10).len() + 1);
    }
}

/// A text begins with a prefix exactly where it is the prefix and some text behind it.
pub proof fn law_prefix(prefix: Seq<char>, rest: Seq<char>, s: Seq<char>)
    ensures
        has_prefix(prefix + rest, prefix),
        has_prefix(s, prefix) ==> s == prefix + s.skip(prefix.len() as int),
{
    assert((prefix + rest).take(prefix.len() as int) =~= prefix);
    if has_prefix(s, prefix) {
        assert(s =~= s.take(prefix.len() as int) + s.skip(prefix.len() as int));
    }
}

/// All white space, by code point: the controls from tab to carriage return, the blank, next
/// line, the no-break spaces, and the wide and narrow spaces and separators of other scripts.
pub proof fn law_all_white_space(c: char)
    ensures
        is_white_space(c) <==> {
            let x = c as u32;
            ||| 9 <= x <= 13
            ||| x == 32
            ||| x == 0x85 || x == 0xa0
            ||| x == 0x1680
            ||| 0x2000 <= x <= 0x200a
            ||| x == 0x2028 || x == 0x2029
            ||| x == 0x202f || x == 0x205f
            ||| x == 0x3000
        },
{
}

} // verus!
