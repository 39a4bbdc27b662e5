//! The enumerated configuration values.

use vstd::prelude::*;
use vstd::string::*;

use crate::text::{
    ascii_lowercase, chars_of, is_white_space, law_trim_drops_white_space_at_the_ends, str_eq,
    to_ascii_lowercase, trim, trimmed,
};

verus! {

/// What `str::to_lowercase` gives for a text.
pub uninterp spec fn unicode_lowercase(s: Seq<char>) -> Seq<char>;

/// The lower case of every letter, ASCII or not: `str::to_lowercase`. Its result
/// depends on the text alone and is named [`unicode_lowercase`].
#[verifier::external_body]
fn to_unicode_lowercase(s: &str) -> (r: String)
    ensures
        r@ == unicode_lowercase(s@),
{
    s.to_lowercase()
}

/// What `str::to_ascii_uppercase` gives for a text.
pub open spec fn ascii_uppercase(s: Seq<char>) -> Seq<char> {
    s.map_values(
        |c: char|
            if 'a' <= c <= 'z' {
                (c as u32 - 32) as char
            } else {
                c
            },
    )
}

fn to_ascii_uppercase(s: &str) -> (r: String)
    ensures
        r@ == ascii_uppercase(s@),
{
    let cs: Vec<char> = chars_of(s);
    let mut out: String = String::new();
    let mut i: usize = 0;
    while i < cs.len()
        invariant
            i <= cs@.len(),
            out@ == ascii_uppercase(cs@.take(i as int)),
        decreases cs@.len() - i,
    {
        let c: char = cs[i];
        if 'a' <= c && c <= 'z' {
            let b: u8 = c as u8;
            out.push((b - 32) as char);
        } else {
            out.push(c);
        }
        i = i + 1;
        proof {
            let f = |c: char|
                if 'a' <= c <= 'z' {
                    (c as u32 - 32) as char
                } else {
                    c
                };
            assert(ascii_uppercase(cs@.take(i as int)) =~= ascii_uppercase(cs@.take(i - 1)).push(
                f(cs@[i - 1]),
            ));
        }
    }
    proof {
        assert(cs@.take(i as int) =~= cs@);
    }
    out
}

/// How the connections of the master pool are chosen.
#[derive(Clone, Copy, Debug, PartialEq, Eq, Structural)]
pub enum MasterPoolSchedule {
    /// In turn.
    RoundRobin,
    /// The less busy one of two that are drawn at random.
    P2C,
}

impl Default for MasterPoolSchedule {
    fn default() -> (r: Self)
        ensures
            r == MasterPoolSchedule::RoundRobin,
    {
        MasterPoolSchedule::RoundRobin
    }
}

/// `s` without `-` and `_`.
pub open spec fn without_separators(s: Seq<char>) -> Seq<char>
    decreases s.len(),
{
    if s.len() == 0 {
        s
    } else if s.last() == '-' || s.last() == '_' {
        without_separators(s.drop_last())
    } else {
        without_separators(s.drop_last()).push(s.last())
    }
}

fn remove_separators(s: &str) -> (r: String)
    ensures
        r@ == without_separators(s@),
{
    let cs: Vec<char> = chars_of(s);
    let mut out: String = String::new();
    let mut i: usize = 0;
    proof {
        assert(cs@.take(0) =~= Seq::<char>::empty());
    }
    while i < cs.len()
        invariant
            i <= cs@.len(),
            out@ == without_separators(cs@.take(i as int)),
        decreases cs@.len() - i,
    {
        let c: char = cs[i];
        proof {
            assert(cs@.take(i + 1).drop_last() =~= cs@.take(i as int));
            assert(cs@.take(i + 1).last() == c);
        }
        if c != '-' && c != '_' {
            out.push(c);
        }
        i = i + 1;
    }
    proof {
        assert(cs@.take(i as int) =~= cs@);
    }
    out
}

/// The schedule that `s` names: `roundrobin` or `p2c`, whatever the case of the
/// letters and wherever `-` or `_` stand between them.
pub open spec fn schedule_named(s: Seq<char>) -> Option<MasterPoolSchedule> {
    let name = without_separators(ascii_lowercase(s));
    if name == "roundrobin"@ {
        Some(MasterPoolSchedule::RoundRobin)
    } else if name == "p2c"@ {
        Some(MasterPoolSchedule::P2C)
    } else {
        None
    }
}

impl MasterPoolSchedule {
    /// The schedule that `s` names: `roundrobin` or `p2c`, whatever the case of
    /// the letters and wherever `-` or `_` stand between them.
    ///
    /// No letter outside ASCII has a letter of these names as its lower case, so
    /// the ASCII lower case decides; the message of the error shows the text in
    /// full lower case.
    pub fn parse(s: &str) -> (r: Result<MasterPoolSchedule, String>)
        ensures
            match r {
                Ok(t) => schedule_named(s@) == Some(t),
                Err(e) => schedule_named(s@) is None && e@ == "unknown master pool schedule: "@
                    + without_separators(unicode_lowercase(s@)),
            },
    {
        let name: String = remove_separators(&to_ascii_lowercase(s));
        if str_eq(&name, "roundrobin") {
            Ok(MasterPoolSchedule::RoundRobin)
        } else if str_eq(&name, "p2c") {
            Ok(MasterPoolSchedule::P2C)
        } else {
            let mut e: String = "unknown master pool schedule: ".to_owned();
            e.append(&remove_separators(&to_unicode_lowercase(s)));
            Err(e)
        }
    }
}

impl std::str::FromStr for MasterPoolSchedule {
    type Err = String;

    /// The schedule that `s` names, as [`MasterPoolSchedule::parse`] reads it.
    fn from_str(s: &str) -> (r: Result<MasterPoolSchedule, String>)
        ensures
            match r {
                Ok(t) => schedule_named(s@) == Some(t),
                Err(e) => schedule_named(s@) is None && e@ == "unknown master pool schedule: "@
                    + without_separators(unicode_lowercase(s@)),
            },
    {
        MasterPoolSchedule::parse(s)
    }
}

/// Which page leaves a full page cache.
#[derive(Clone, Copy, Debug, PartialEq, Eq, Structural)]
pub enum CacheEvictorType {
    /// The least recently used (default).
    Lru,
    /// The least frequently used.
    Lfu,
}

impl Default for CacheEvictorType {
    fn default() -> (r: Self)
        ensures
            r == CacheEvictorType::Lru,
    {
        CacheEvictorType::Lru
    }
}

/// The policy that `s` names: `LRU` or `LFU`, whatever the case of the letters
/// and with white space around it allowed.
pub open spec fn evictor_named(s: Seq<char>) -> Option<CacheEvictorType> {
    let name = ascii_uppercase(trimmed(s));
    if name == "LRU"@ {
        Some(CacheEvictorType::Lru)
    } else if name == "LFU"@ {
        Some(CacheEvictorType::Lfu)
    } else {
        None
    }
}

impl CacheEvictorType {
    /// The policy that `s` names (case-insensitive): `LRU` or `LFU`.
    pub fn parse(s: &str) -> (r: Result<CacheEvictorType, String>)
        ensures
            match r {
                Ok(t) => evictor_named(s@) == Some(t),
                Err(e) => evictor_named(s@) is None && e@ == "unknown cache evictor type: "@
                    + ascii_uppercase(trimmed(s@)),
            },
    {
        let name: String = to_ascii_uppercase(trim(s));
        if str_eq(&name, "LRU") {
            Ok(CacheEvictorType::Lru)
        } else if str_eq(&name, "LFU") {
            Ok(CacheEvictorType::Lfu)
        } else {
            let mut e: String = "unknown cache evictor type: ".to_owned();
            e.append(&name);
            Err(e)
        }
    }
}

impl std::str::FromStr for CacheEvictorType {
    type Err = String;

    /// The policy that `s` names, as [`CacheEvictorType::parse`] reads it.
    fn from_str(s: &str) -> (r: Result<CacheEvictorType, String>)
        ensures
            match r {
                Ok(t) => evictor_named(s@) == Some(t),
                Err(e) => evictor_named(s@) is None && e@ == "unknown cache evictor type: "@
                    + ascii_uppercase(trimmed(s@)),
            },
    {
        CacheEvictorType::parse(s)
    }
}

/// Capital letters stay; small letters become the capital ones, 32 places before them;
/// nothing else changes.
pub proof fn law_upper_case(s: Seq<char>, i: int)
    requires
        0 <= i < s.len(),
    ensures
        ascii_uppercase(s).len() == s.len(),
        'a' <= s[i] <= 'z' ==> ascii_uppercase(s)[i] as int == s[i] as int - 32,
        !('a' <= s[i] <= 'z') ==> ascii_uppercase(s)[i] == s[i],
{
}

/// `-` and `_` are left out wherever they stand, and nothing else is.
pub proof fn law_separators_are_left_out(s: Seq<char>, c: char)
    ensures
        without_separators(s.push('-')) == without_separators(s),
        without_separators(s.push('_')) == without_separators(s),
        c != '-' && c != '_' ==> without_separators(s.push(c)) == without_separators(s).push(c),
        without_separators(Seq::empty()) == Seq::<char>::empty(),
{
    assert(s.push('-').drop_last() =~= s);
    assert(s.push('_').drop_last() =~= s);
    assert(s.push(c).drop_last() =~= s);
}

/// `roundrobin` and `p2c`, in letters of any case and with `-` or `_` anywhere, name the two
/// schedules, and nothing else does.
pub proof fn law_schedule_words(word: Seq<char>)
    ensures
        schedule_named(word) == Some(MasterPoolSchedule::RoundRobin) <==> without_separators(
            ascii_lowercase(word),
        ) == "roundrobin"@,
        schedule_named(word) == Some(MasterPoolSchedule::P2C) <==> without_separators(
            ascii_lowercase(word),
        ) == "p2c"@,
{
    reveal_strlit("roundrobin");
    reveal_strlit("p2c");
    assert("roundrobin"@[0] != "p2c"@[0]);
}

/// `LRU` and `LFU`, in letters of any case and with white space around them, name the two
/// policies, and nothing else does.
pub proof fn law_evictor_words(a: Seq<char>, word: Seq<char>, b: Seq<char>)
    requires
        forall|i: int| 0 <= i < a.len() ==> is_white_space(#[trigger] a[i]),
        forall|i: int| 0 <= i < b.len() ==> is_white_space(#[trigger] b[i]),
        word.len() > 0 ==> !is_white_space(word[0]) && !is_white_space(word[word.len() - 1]),
    ensures
        evictor_named(a + word + b) == Some(CacheEvictorType::Lru) <==> ascii_uppercase(word)
            == "LRU"@,
        evictor_named(a + word + b) == Some(CacheEvictorType::Lfu) <==> ascii_uppercase(word)
            == "LFU"@,
        evictor_named(word) == evictor_named(a + word + b),
{
    reveal_strlit("LRU");
    reveal_strlit("LFU");
    assert("LRU"@[1] != "LFU"@[1]);
    law_trim_drops_white_space_at_the_ends(a, word, b);
}

} // verus!
