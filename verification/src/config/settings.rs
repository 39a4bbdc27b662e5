//! Settings: named texts, and the typed values that they denote.

use vstd::hash_map::StringHashMap;
use vstd::prelude::*;
use vstd::string::*;

use crate::auth::{auth_type_named, law_auth_type_words, AuthType};
use crate::config::kinds::{
    ascii_uppercase, evictor_named, law_evictor_words, law_schedule_words,
    law_separators_are_left_out, law_upper_case, schedule_named, without_separators,
    CacheEvictorType, MasterPoolSchedule,
};
use crate::config::values::{
    byte_size, law_byte_sizes, law_load_type_words, law_switch_words, load_type_named, loose_bool,
    parse_bool, parse_bool_any_case, parse_bool_loose, parse_byte_size, parse_load_metadata_type,
    strict_bool,
};
use crate::config::write_type::{
    law_other_words_are_no_write_types, law_write_type_words, write_type_named, WriteType,
};
use crate::number::{
    law_numerals_are_read_back, parse_i32, parse_i64, parse_int, parse_u16, parse_u64, parse_usize,
    IntErrorKind,
};
use crate::proto::LoadMetadataPType;
use crate::text::{
    ascii_lowercase, comma_list, decimal, is_white_space, law_list_splits_at_commas, list_items,
    signed_decimal, string_views,
};
use crate::time::{
    duration_from_time_size_ms, law_time_texts, parse_time_size, time_size, Duration,
};

verus! {

/// The value in `o`, or `d` where there is none.
pub open spec fn or<T>(o: Option<T>, d: T) -> T {
    match o {
        Some(v) => v,
        None => d,
    }
}

/// The text under `k`.
pub open spec fn value_at(m: Map<Seq<char>, Seq<char>>, k: Seq<char>) -> Option<Seq<char>> {
    if m.contains_key(k) {
        Some(m[k])
    } else {
        None
    }
}

/// The text under `k`, unless it is empty.
pub open spec fn text_at(m: Map<Seq<char>, Seq<char>>, k: Seq<char>) -> Option<Seq<char>> {
    match value_at(m, k) {
        Some(v) => if v.len() == 0 {
            None
        } else {
            Some(v)
        },
        None => None,
    }
}

/// The items of the list under `k`, unless there are none.
pub open spec fn list_at(m: Map<Seq<char>, Seq<char>>, k: Seq<char>) -> Option<Seq<Seq<char>>> {
    match value_at(m, k) {
        Some(v) => if list_items(v).len() == 0 {
            None
        } else {
            Some(list_items(v))
        },
        None => None,
    }
}

/// The integer under `k`, of a type that reaches from `min` to `max`, where it is
/// at least `least`.
pub open spec fn int_at(
    m: Map<Seq<char>, Seq<char>>,
    k: Seq<char>,
    min: int,
    max: int,
    least: int,
) -> Option<int> {
    match value_at(m, k) {
        Some(v) => match parse_int(v, min, max) {
            Ok(n) => if n >= least {
                Some(n)
            } else {
                None
            },
            Err(_) => None,
        },
        None => None,
    }
}

/// The count under `k`, raised to 1 where it is 0.
pub open spec fn count_at(m: Map<Seq<char>, Seq<char>>, k: Seq<char>) -> Option<int> {
    match int_at(m, k, 0, usize::MAX as int, 0) {
        Some(n) => Some(
            if n < 1 {
                1
            } else {
                n
            },
        ),
        None => None,
    }
}

/// The size in bytes under `k`, where it is at least `least`.
pub open spec fn bytes_at(m: Map<Seq<char>, Seq<char>>, k: Seq<char>, least: int) -> Option<int> {
    match value_at(m, k) {
        Some(v) => match byte_size(v) {
            Ok(n) => if n >= least {
                Some(n)
            } else {
                None
            },
            Err(_) => None,
        },
        None => None,
    }
}

/// The switch under `k`: `true`, `false`, `1` or `0` in letters of any case.
pub open spec fn switch_at(m: Map<Seq<char>, Seq<char>>, k: Seq<char>) -> Option<bool> {
    match value_at(m, k) {
        Some(v) => loose_bool(v),
        None => None,
    }
}

/// The switch under `k`: exactly `true` or `false`.
pub open spec fn strict_switch_at(m: Map<Seq<char>, Seq<char>>, k: Seq<char>) -> Option<bool> {
    match value_at(m, k) {
        Some(v) => strict_bool(v),
        None => None,
    }
}

/// The switch under `k`: `true` or `false` in letters of any case.
pub open spec fn word_switch_at(m: Map<Seq<char>, Seq<char>>, k: Seq<char>) -> Option<bool> {
    match value_at(m, k) {
        Some(v) => strict_bool(ascii_lowercase(v)),
        None => None,
    }
}

/// The milliseconds that the span of time under `k` takes.
pub open spec fn time_at(m: Map<Seq<char>, Seq<char>>, k: Seq<char>) -> Option<int> {
    match value_at(m, k) {
        Some(v) => time_size(v),
        None => None,
    }
}

/// The nanoseconds of the span of time under `k`; none where it is negative.
pub open spec fn time_nanos_at(m: Map<Seq<char>, Seq<char>>, k: Seq<char>) -> Option<int> {
    match time_at(m, k) {
        Some(ms) => Some(
            if ms <= 0 {
                0
            } else {
                ms * 1_000_000
            },
        ),
        None => None,
    }
}

/// The nanoseconds of the whole milliseconds under `k`, where these are at least
/// `least`.
pub open spec fn millis_nanos_at(
    m: Map<Seq<char>, Seq<char>>,
    k: Seq<char>,
    least: int,
) -> Option<int> {
    match int_at(m, k, 0, u64::MAX as int, least) {
        Some(ms) => Some(ms * 1_000_000),
        None => None,
    }
}

/// The number on the wire of the write type under `k`.
pub open spec fn write_type_at(m: Map<Seq<char>, Seq<char>>, k: Seq<char>) -> Option<Option<i32>> {
    match value_at(m, k) {
        Some(v) => match write_type_named(v) {
            Some(t) => Some(Some(t.proto().number())),
            None => None,
        },
        None => None,
    }
}

/// The authentication type under `k`.
pub open spec fn auth_type_at(m: Map<Seq<char>, Seq<char>>, k: Seq<char>) -> Option<AuthType> {
    match value_at(m, k) {
        Some(v) => auth_type_named(v),
        None => None,
    }
}

/// The eviction policy under `k`.
pub open spec fn evictor_at(m: Map<Seq<char>, Seq<char>>, k: Seq<char>) -> Option<
    CacheEvictorType,
> {
    match value_at(m, k) {
        Some(v) => evictor_named(v),
        None => None,
    }
}

/// The pool schedule under `k`.
pub open spec fn schedule_at(m: Map<Seq<char>, Seq<char>>, k: Seq<char>) -> Option<
    MasterPoolSchedule,
> {
    match value_at(m, k) {
        Some(v) => schedule_named(v),
        None => None,
    }
}

/// The load type under `k`.
pub open spec fn load_type_at(m: Map<Seq<char>, Seq<char>>, k: Seq<char>) -> Option<
    LoadMetadataPType,
> {
    match value_at(m, k) {
        Some(v) => load_type_named(v),
        None => None,
    }
}

/// The contents of an optional string.
pub open spec fn opt_view(o: Option<String>) -> Option<Seq<char>> {
    match o {
        Some(s) => Some(s@),
        None => None,
    }
}

/// Texts under names.
pub struct Settings {
    map: StringHashMap<String>,
}

impl View for Settings {
    type V = Map<Seq<char>, Seq<char>>;

    closed spec fn view(&self) -> Map<Seq<char>, Seq<char>> {
        self.map@.map_values(|s: String| s@)
    }
}

impl Settings {
    /// No settings.
    pub fn new() -> (r: Self)
        ensures
            r@ == Map::<Seq<char>, Seq<char>>::empty(),
    {
        let r = Settings { map: StringHashMap::new() };
        proof {
            assert(r@ =~= Map::<Seq<char>, Seq<char>>::empty());
        }
        r
    }

    /// Puts `v` under `k`; an earlier text under `k` is gone.
    pub fn insert(&mut self, k: String, v: String)
        ensures
            final(self)@ == old(self)@.insert(k@, v@),
    {
        self.map.insert(k, v);
        proof {
            assert(self@ =~= old(self)@.insert(k@, v@));
        }
    }

    /// The text under `k`.
    pub fn get(&self, k: &str) -> (r: Option<&str>)
        ensures
            match r {
                Some(v) => value_at(self@, k@) == Some(v@),
                None => value_at(self@, k@) is None,
            },
    {
        match self.map.get(k) {
            Some(v) => Some(v.as_str()),
            None => None,
        }
    }

    /// The switch under `k`: `true`, `false`, `1` or `0` in letters of any case.
    pub fn get_bool(&self, k: &str) -> (r: Option<bool>)
        ensures
            r == switch_at(self@, k@),
    {
        match self.get(k) {
            Some(v) => parse_bool_loose(v),
            None => None,
        }
    }

    /// The items of the comma-separated list under `k`.
    pub fn get_list(&self, k: &str) -> (r: Option<Vec<String>>)
        ensures
            match r {
                Some(v) => value_at(self@, k@) is Some && string_views(v@) == list_items(
                    value_at(self@, k@)->0,
                ),
                None => value_at(self@, k@) is None,
            },
    {
        match self.get(k) {
            Some(v) => Some(comma_list(v)),
            None => None,
        }
    }

    /// The text under `k` where it is not empty, else `d`.
    pub fn text_or(&self, k: &str, d: String) -> (r: String)
        ensures
            r@ == or(text_at(self@, k@), d@),
    {
        match self.get(k) {
            Some(v) => if v.is_empty() {
                d
            } else {
                v.to_owned()
            },
            None => d,
        }
    }

    /// The text under `k` where it is not empty, else `d`.
    pub fn some_text_or(&self, k: &str, d: Option<String>) -> (r: Option<String>)
        ensures
            opt_view(r) == (match text_at(self@, k@) {
                Some(v) => Some(v),
                None => opt_view(d),
            }),
    {
        match self.get(k) {
            Some(v) => if v.is_empty() {
                d
            } else {
                Some(v.to_owned())
            },
            None => d,
        }
    }

    /// The items of the list under `k` where there are any, else `d`.
    pub fn list_or(&self, k: &str, d: Vec<String>) -> (r: Vec<String>)
        ensures
            string_views(r@) == or(list_at(self@, k@), string_views(d@)),
    {
        match self.get_list(k) {
            Some(v) => {
                proof {
                    assert(string_views(v@).len() == v@.len());
                }
                if v.len() == 0 {
                    d
                } else {
                    v
                }
            },
            None => d,
        }
    }

    /// The `u64` under `k` where it is at least `least`, else `d`.
    pub fn u64_or(&self, k: &str, least: u64, d: u64) -> (r: u64)
        ensures
            r == or(int_at(self@, k@, 0, u64::MAX as int, least as int), d as int),
    {
        match self.get(k) {
            Some(v) => match parse_u64(v) {
                Ok(n) => if n >= least {
                    n
                } else {
                    d
                },
                Err(_) => d,
            },
            None => d,
        }
    }

    /// The `usize` under `k` where it is at least `least`, else `d`.
    pub fn usize_or(&self, k: &str, least: usize, d: usize) -> (r: usize)
        ensures
            r == or(int_at(self@, k@, 0, usize::MAX as int, least as int), d as int),
    {
        match self.get(k) {
            Some(v) => match parse_usize(v) {
                Ok(n) => if n >= least {
                    n
                } else {
                    d
                },
                Err(_) => d,
            },
            None => d,
        }
    }

    /// The count under `k`, raised to 1 where it is 0, else `d`.
    pub fn count_or(&self, k: &str, d: usize) -> (r: usize)
        ensures
            r == or(count_at(self@, k@), d as int),
    {
        match self.get(k) {
            Some(v) => match parse_usize(v) {
                Ok(n) => if n < 1 {
                    1
                } else {
                    n
                },
                Err(_) => d,
            },
            None => d,
        }
    }

    /// The `u16` under `k`, else `d`.
    pub fn u16_or(&self, k: &str, d: u16) -> (r: u16)
        ensures
            r == or(int_at(self@, k@, 0, u16::MAX as int, 0), d as int),
    {
        match self.get(k) {
            Some(v) => match parse_u16(v) {
                Ok(n) => n,
                Err(_) => d,
            },
            None => d,
        }
    }

    /// The `i32` under `k` where it is at least `least`, else `d`.
    pub fn i32_or(&self, k: &str, least: i32, d: i32) -> (r: i32)
        ensures
            r == or(int_at(self@, k@, i32::MIN as int, i32::MAX as int, least as int), d as int),
    {
        match self.get(k) {
            Some(v) => match parse_i32(v) {
                Ok(n) => if n >= least {
                    n
                } else {
                    d
                },
                Err(_) => d,
            },
            None => d,
        }
    }

    /// The `i64` under `k`, else `d`.
    pub fn i64_or(&self, k: &str, d: i64) -> (r: i64)
        ensures
            r == or(
                int_at(self@, k@, i64::MIN as int, i64::MAX as int, i64::MIN as int),
                d as int,
            ),
    {
        match self.get(k) {
            Some(v) => match parse_i64(v) {
                Ok(n) => n,
                Err(_) => d,
            },
            None => d,
        }
    }

    /// The size in bytes under `k` where it is at least `least`, else `d`.
    pub fn bytes_or(&self, k: &str, least: u64, d: u64) -> (r: u64)
        ensures
            r == or(bytes_at(self@, k@, least as int), d as int),
    {
        match self.get(k) {
            Some(v) => match parse_byte_size(v) {
                Ok(n) => if n >= least {
                    n
                } else {
                    d
                },
                Err(_) => d,
            },
            None => d,
        }
    }

    /// The switch under `k`: `true`, `false`, `1` or `0` in letters of any case;
    /// else `d`.
    pub fn switch_or(&self, k: &str, d: bool) -> (r: bool)
        ensures
            r == or(switch_at(self@, k@), d),
    {
        match self.get_bool(k) {
            Some(b) => b,
            None => d,
        }
    }

    /// The switch under `k`: exactly `true` or `false`; else `d`.
    pub fn strict_switch_or(&self, k: &str, d: bool) -> (r: bool)
        ensures
            r == or(strict_switch_at(self@, k@), d),
    {
        match self.get(k) {
            Some(v) => match parse_bool(v) {
                Some(b) => b,
                None => d,
            },
            None => d,
        }
    }

    /// The switch under `k`: `true` or `false` in letters of any case; else `d`.
    pub fn word_switch_or(&self, k: &str, d: bool) -> (r: bool)
        ensures
            r == or(word_switch_at(self@, k@), d),
    {
        match self.get(k) {
            Some(v) => match parse_bool_any_case(v) {
                Some(b) => b,
                None => d,
            },
            None => d,
        }
    }

    /// The milliseconds that the span of time under `k` takes, else `d`.
    pub fn time_or(&self, k: &str, d: i64) -> (r: i64)
        ensures
            r == or(time_at(self@, k@), d as int),
    {
        match self.get(k) {
            Some(v) => match parse_time_size(v) {
                Some(ms) => ms,
                None => d,
            },
            None => d,
        }
    }

    /// The span of time under `k`, empty where it is negative; else `d`.
    pub fn duration_or(&self, k: &str, d: Duration) -> (r: Duration)
        ensures
            r.nanos == or(time_nanos_at(self@, k@), d.nanos as int),
    {
        match self.get(k) {
            Some(v) => match parse_time_size(v) {
                Some(ms) => duration_from_time_size_ms(ms),
                None => d,
            },
            None => d,
        }
    }

    /// The span of the milliseconds under `k` where these are at least `least`,
    /// else `d`.
    pub fn millis_or(&self, k: &str, least: u64, d: Duration) -> (r: Duration)
        ensures
            r.nanos == or(millis_nanos_at(self@, k@, least as int), d.nanos as int),
    {
        match self.get(k) {
            Some(v) => match parse_u64(v) {
                Ok(n) => if n >= least {
                    Duration::from_millis(n)
                } else {
                    d
                },
                Err(_) => d,
            },
            None => d,
        }
    }

    /// The number on the wire of the write type under `k`, else `d`.
    pub fn write_type_or(&self, k: &str, d: Option<i32>) -> (r: Option<i32>)
        ensures
            r == or(write_type_at(self@, k@), d),
    {
        match self.get(k) {
            Some(v) => match WriteType::parse(v) {
                Ok(t) => Some(t.as_i32()),
                Err(_) => d,
            },
            None => d,
        }
    }

    /// The authentication type under `k`, else `d`.
    pub fn auth_type_or(&self, k: &str, d: AuthType) -> (r: AuthType)
        ensures
            r == or(auth_type_at(self@, k@), d),
    {
        match self.get(k) {
            Some(v) => match AuthType::parse(v) {
                Ok(t) => t,
                Err(_) => d,
            },
            None => d,
        }
    }

    /// The eviction policy under `k`, else `d`.
    pub fn evictor_or(&self, k: &str, d: CacheEvictorType) -> (r: CacheEvictorType)
        ensures
            r == or(evictor_at(self@, k@), d),
    {
        match self.get(k) {
            Some(v) => match CacheEvictorType::parse(v) {
                Ok(t) => t,
                Err(_) => d,
            },
            None => d,
        }
    }

    /// The pool schedule under `k`, else `d`.
    pub fn schedule_or(&self, k: &str, d: MasterPoolSchedule) -> (r: MasterPoolSchedule)
        ensures
            r == or(schedule_at(self@, k@), d),
    {
        match self.get(k) {
            Some(v) => match MasterPoolSchedule::parse(v) {
                Ok(t) => t,
                Err(_) => d,
            },
            None => d,
        }
    }

    /// The load type under `k`, else `d`.
    pub fn load_type_or(&self, k: &str, d: LoadMetadataPType) -> (r: LoadMetadataPType)
        ensures
            r == or(load_type_at(self@, k@), d),
    {
        match self.get(k) {
            Some(v) => match parse_load_metadata_type(v) {
                Some(t) => t,
                None => d,
            },
            None => d,
        }
    }
}

/// Whether the text under `k` is `v`.
pub open spec fn holds(m: Map<Seq<char>, Seq<char>>, k: Seq<char>, v: Seq<char>) -> bool {
    m.contains_key(k) && m[k] == v
}

/// Whether the two agree on the text under `k`, or on there being none.
pub open spec fn same_entry(
    m1: Map<Seq<char>, Seq<char>>,
    m2: Map<Seq<char>, Seq<char>>,
    k: Seq<char>,
) -> bool {
    &&& m1.contains_key(k) == m2.contains_key(k)
    &&& m1.contains_key(k) ==> m1[k] == m2[k]
}

/// Whether `x` can stand as an item of a list just as it is.
pub open spec fn is_plain_item(x: Seq<char>) -> bool {
    &&& x.len() > 0
    &&& !is_white_space(x[0])
    &&& !is_white_space(x[x.len() - 1])
    &&& forall|i: int| 0 <= i < x.len() ==> #[trigger] x[i] != ','
}

proof fn lemma_number_entries(m: Map<Seq<char>, Seq<char>>, n: int)
    ensures
        forall|k: Seq<char>, lo: int, hi: int, least: int|
            holds(m, k, signed_decimal(n)) && lo <= 0 <= hi && lo <= n <= hi ==> #[trigger] int_at(
                m,
                k,
                lo,
                hi,
                least,
            ) == (if n >= least {
                Some(n)
            } else {
                None
            }),
{
    assert forall|k: Seq<char>, lo: int, hi: int, least: int|
        holds(m, k, signed_decimal(n)) && lo <= 0 <= hi && lo <= n <= hi implies #[trigger] int_at(
        m,
        k,
        lo,
        hi,
        least,
    ) == (if n >= least {
        Some(n)
    } else {
        None
    }) by {
        law_numerals_are_read_back(n, lo, hi);
    }
}

proof fn lemma_size_entries(m: Map<Seq<char>, Seq<char>>, n: int)
    ensures
        forall|k: Seq<char>, least: int|
            0 <= n <= u64::MAX ==> {
                let r = #[trigger] bytes_at(m, k, least);
                let kb = n * 1024;
                let mb = n * 1024 * 1024;
                let gb = n * 1024 * 1024 * 1024;
                &&& holds(m, k, signed_decimal(n)) ==> r == (if n >= least {
                    Some(n)
                } else {
                    None
                })
                &&& holds(m, k, signed_decimal(n) + "KB"@) && least <= kb <= u64::MAX ==> r == Some(
                    kb,
                )
                &&& holds(m, k, signed_decimal(n) + "MB"@) && least <= mb <= u64::MAX ==> r == Some(
                    mb,
                )
                &&& holds(m, k, signed_decimal(n) + "GB"@) && least <= gb <= u64::MAX ==> r == Some(
                    gb,
                )
            },
{
    if 0 <= n <= u64::MAX {
        reveal_strlit("KB");
        reveal_strlit("MB");
        reveal_strlit("GB");
        let e = Seq::<char>::empty();
        let d = decimal(n as nat);
        law_byte_sizes(n as nat, e, e, "KB"@, e);
        law_byte_sizes(n as nat, e, e, "MB"@, e);
        law_byte_sizes(n as nat, e, e, "GB"@, e);
        assert(e + d + e =~= d);
        assert(e + (d + e + "KB"@) + e =~= d + "KB"@);
        assert(e + (d + e + "MB"@) + e =~= d + "MB"@);
        assert(e + (d + e + "GB"@) + e =~= d + "GB"@);
    }
}

proof fn lemma_time_entries(m: Map<Seq<char>, Seq<char>>, n: int)
    ensures
        forall|k: Seq<char>|
            {
                let r = #[trigger] time_at(m, k);
                &&& holds(m, k, signed_decimal(n)) && -0x20_0000_0000_0000 <= n
                    <= 0x20_0000_0000_0000 ==> r == Some(n)
                &&& holds(m, k, signed_decimal(n) + "s"@) && 0 <= n && n * 1000
                    <= 0x20_0000_0000_0000 ==> r == Some(n * 1000)
            },
{
    reveal_strlit("s");
    let e = Seq::<char>::empty();
    assert(ascii_lowercase("s"@) =~= "s"@);
    if -0x20_0000_0000_0000 <= n <= 0x20_0000_0000_0000 {
        if n >= 0 {
            let d = decimal(n as nat);
            law_time_texts(e, false, n as nat, e, e, e, 1);
            assert(e + (e + d + e + e) + e =~= d);
            if n * 1000 <= 0x20_0000_0000_0000 {
                law_time_texts(e, false, n as nat, e, "s"@, e, 1000);
                assert(e + (e + d + e + "s"@) + e =~= d + "s"@);
            }
        } else {
            let d = decimal((-n) as nat);
            law_time_texts(e, true, (-n) as nat, e, e, e, 1);
            assert(e + (seq!['-'] + d + e + e) + e =~= seq!['-'] + d);
        }
    }
}

proof fn lemma_switch_entries(m: Map<Seq<char>, Seq<char>>)
    ensures
        forall|k: Seq<char>|
            (holds(m, k, "true"@) ==> #[trigger] switch_at(m, k) == Some(true)) && (holds(
                m,
                k,
                "false"@,
            ) ==> switch_at(m, k) == Some(false)),
        forall|k: Seq<char>|
            (holds(m, k, "true"@) ==> #[trigger] strict_switch_at(m, k) == Some(true)) && (holds(
                m,
                k,
                "false"@,
            ) ==> strict_switch_at(m, k) == Some(false)),
        forall|k: Seq<char>|
            (holds(m, k, "true"@) ==> #[trigger] word_switch_at(m, k) == Some(true)) && (holds(
                m,
                k,
                "false"@,
            ) ==> word_switch_at(m, k) == Some(false)),
{
    let e = Seq::<char>::empty();
    law_switch_words(e, "true"@, e);
    law_switch_words(e, "false"@, e);
}

/// One plain item is a list of itself; two with a comma between them are a list of both.
pub proof fn lemma_list_entries(x: Seq<char>, y: Seq<char>)
    requires
        is_plain_item(x),
        is_plain_item(y),
    ensures
        list_items(x) == seq![x],
        list_items(x + seq![','] + y) == seq![x, y],
{
    let e = Seq::<char>::empty();
    law_list_splits_at_commas(e, x, e, y);
    law_list_splits_at_commas(e, y, e, e);
    assert(e + x + e =~= x);
    assert(e + y + e =~= y);
    assert(seq![x] + seq![y] =~= seq![x, y]);
}

proof fn lemma_word_entries(text: Seq<char>)
    ensures
        ascii_lowercase(text) == "must_cache"@ ==> write_type_named(text) == Some(
            WriteType::MustCache,
        ),
        ascii_lowercase(text) == "try_cache"@ ==> write_type_named(text) == Some(
            WriteType::TryCache,
        ),
        ascii_lowercase(text) == "cache_through"@ ==> write_type_named(text) == Some(
            WriteType::CacheThrough,
        ),
        ascii_lowercase(text) == "through"@ ==> write_type_named(text) == Some(WriteType::Through),
        ascii_lowercase(text) == "async_through"@ ==> write_type_named(text) == Some(
            WriteType::AsyncThrough,
        ),
        ascii_lowercase(text) == "nosasl"@ ==> auth_type_named(text) == Some(AuthType::NoSasl),
        ascii_lowercase(text) == "simple"@ ==> auth_type_named(text) == Some(AuthType::Simple),
        ascii_lowercase(text) == "roundrobin"@ ==> schedule_named(text) == Some(
            MasterPoolSchedule::RoundRobin,
        ),
        ascii_lowercase(text) == "p2c"@ ==> schedule_named(text) == Some(MasterPoolSchedule::P2C),
        ascii_uppercase(text) == "LRU"@ ==> evictor_named(text) == Some(CacheEvictorType::Lru),
        ascii_uppercase(text) == "LFU"@ ==> evictor_named(text) == Some(CacheEvictorType::Lfu),
        ascii_lowercase(text) == "once"@ ==> load_type_named(text) == Some(LoadMetadataPType::Once),
        ascii_lowercase(text) == "always"@ ==> load_type_named(text) == Some(
            LoadMetadataPType::Always,
        ),
        ascii_lowercase(text) == "never"@ ==> load_type_named(text) == Some(
            LoadMetadataPType::Never,
        ),
{
    let e = Seq::<char>::empty();
    law_other_words_are_no_write_types(text);
    if let Some(t) = write_type_named(text) {
        law_write_type_words(text, t);
    }
    law_auth_type_words(text);
    law_schedule_words(text);
    law_load_type_words(e, text, e);
    assert(e + text + e =~= text);
    reveal_strlit("LRU");
    reveal_strlit("LFU");
    if ascii_uppercase(text) == "LRU"@ || ascii_uppercase(text) == "LFU"@ {
        let up = ascii_uppercase(text);
        assert(up.len() == text.len());
        assert(up[0] == 'L');
        assert(up[2] == 'U');
        law_upper_case(text, 0);
        law_upper_case(text, 2);
        law_evictor_words(e, text, e);
    }
    reveal_strlit("roundrobin");
    reveal_strlit("p2c");
    let low = ascii_lowercase(text);
    if low == "roundrobin"@ || low == "p2c"@ {
        lemma_no_separators(low);
    }
}

proof fn lemma_no_separators(s: Seq<char>)
    requires
        forall|i: int| 0 <= i < s.len() ==> #[trigger] s[i] != '-' && s[i] != '_',
    ensures
        without_separators(s) == s,
    decreases s.len(),
{
    if s.len() > 0 {
        lemma_no_separators(s.drop_last());
        law_separators_are_left_out(s.drop_last(), s.last());
        assert(s.drop_last().push(s.last()) =~= s);
    } else {
        law_separators_are_left_out(s, 'a');
        assert(s =~= Seq::<char>::empty());
    }
}

/// What the texts under the keys denote, where they are numerals, switches, names or lists.
pub proof fn lemma_entry_values(
    m: Map<Seq<char>, Seq<char>>,
    n: int,
    text: Seq<char>,
    x: Seq<char>,
    y: Seq<char>,
)
    requires
        is_plain_item(x),
        is_plain_item(y),
    ensures
        forall|k: Seq<char>, lo: int, hi: int, least: int|
            holds(m, k, signed_decimal(n)) && lo <= 0 <= hi && lo <= n <= hi ==> #[trigger] int_at(
                m,
                k,
                lo,
                hi,
                least,
            ) == (if n >= least {
                Some(n)
            } else {
                None
            }),
        forall|k: Seq<char>, least: int|
            0 <= n <= u64::MAX ==> {
                let r = #[trigger] bytes_at(m, k, least);
                let kb = n * 1024;
                let mb = n * 1024 * 1024;
                let gb = n * 1024 * 1024 * 1024;
                &&& holds(m, k, signed_decimal(n)) ==> r == (if n >= least {
                    Some(n)
                } else {
                    None
                })
                &&& holds(m, k, signed_decimal(n) + "KB"@) && least <= kb <= u64::MAX ==> r == Some(
                    kb,
                )
                &&& holds(m, k, signed_decimal(n) + "MB"@) && least <= mb <= u64::MAX ==> r == Some(
                    mb,
                )
                &&& holds(m, k, signed_decimal(n) + "GB"@) && least <= gb <= u64::MAX ==> r == Some(
                    gb,
                )
            },
        forall|k: Seq<char>|
            {
                let r = #[trigger] time_at(m, k);
                &&& holds(m, k, signed_decimal(n)) && -0x20_0000_0000_0000 <= n
                    <= 0x20_0000_0000_0000 ==> r == Some(n)
                &&& holds(m, k, signed_decimal(n) + "s"@) && 0 <= n && n * 1000
                    <= 0x20_0000_0000_0000 ==> r == Some(n * 1000)
            },
        forall|k: Seq<char>|
            (holds(m, k, "true"@) ==> #[trigger] switch_at(m, k) == Some(true)) && (holds(
                m,
                k,
                "false"@,
            ) ==> switch_at(m, k) == Some(false)),
        forall|k: Seq<char>|
            (holds(m, k, "true"@) ==> #[trigger] strict_switch_at(m, k) == Some(true)) && (holds(
                m,
                k,
                "false"@,
            ) ==> strict_switch_at(m, k) == Some(false)),
        forall|k: Seq<char>|
            (holds(m, k, "true"@) ==> #[trigger] word_switch_at(m, k) == Some(true)) && (holds(
                m,
                k,
                "false"@,
            ) ==> word_switch_at(m, k) == Some(false)),
        forall|k: Seq<char>|
            (holds(m, k, x) ==> #[trigger] list_at(m, k) == Some(seq![x])) && (holds(
                m,
                k,
                x + seq![','] + y,
            ) ==> list_at(m, k) == Some(seq![x, y])),
        forall|k: Seq<char>|
            holds(m, k, text) ==> {
                let r = #[trigger] write_type_at(m, k);
                &&& ascii_lowercase(text) == "must_cache"@ ==> r == Some(Some(1i32))
                &&& ascii_lowercase(text) == "try_cache"@ ==> r == Some(Some(2i32))
                &&& ascii_lowercase(text) == "cache_through"@ ==> r == Some(Some(3i32))
                &&& ascii_lowercase(text) == "through"@ ==> r == Some(Some(4i32))
                &&& ascii_lowercase(text) == "async_through"@ ==> r == Some(Some(5i32))
            },
        ascii_lowercase(text) == "nosasl"@ ==> auth_type_named(text) == Some(AuthType::NoSasl),
        ascii_lowercase(text) == "simple"@ ==> auth_type_named(text) == Some(AuthType::Simple),
        ascii_lowercase(text) == "roundrobin"@ ==> schedule_named(text) == Some(
            MasterPoolSchedule::RoundRobin,
        ),
        ascii_lowercase(text) == "p2c"@ ==> schedule_named(text) == Some(MasterPoolSchedule::P2C),
        ascii_uppercase(text) == "LRU"@ ==> evictor_named(text) == Some(CacheEvictorType::Lru),
        ascii_uppercase(text) == "LFU"@ ==> evictor_named(text) == Some(CacheEvictorType::Lfu),
        ascii_lowercase(text) == "once"@ ==> load_type_named(text) == Some(LoadMetadataPType::Once),
        ascii_lowercase(text) == "always"@ ==> load_type_named(text) == Some(
            LoadMetadataPType::Always,
        ),
        ascii_lowercase(text) == "never"@ ==> load_type_named(text) == Some(
            LoadMetadataPType::Never,
        ),
{
    lemma_number_entries(m, n);
    lemma_size_entries(m, n);
    lemma_time_entries(m, n);
    lemma_switch_entries(m);
    lemma_list_entries(x, y);
    lemma_word_entries(text);
    if let Some(t) = write_type_named(text) {
        law_write_type_words(text, t);
    }
}

/// Nothing is read where there is no entry.
pub proof fn law_nothing_is_read_without_an_entry(
    m: Map<Seq<char>, Seq<char>>,
    k: Seq<char>,
    lo: int,
    hi: int,
    least: int,
)
    requires
        !m.contains_key(k),
    ensures
        text_at(m, k) is None,
        list_at(m, k) is None,
        int_at(m, k, lo, hi, least) is None,
        count_at(m, k) is None,
        bytes_at(m, k, least) is None,
        switch_at(m, k) is None,
        strict_switch_at(m, k) is None,
        word_switch_at(m, k) is None,
        time_at(m, k) is None,
        time_nanos_at(m, k) is None,
        millis_nanos_at(m, k, least) is None,
        write_type_at(m, k) is None,
        auth_type_at(m, k) is None,
        evictor_at(m, k) is None,
        schedule_at(m, k) is None,
        load_type_at(m, k) is None,
{
}

/// Texts and lists count unless they are empty, numbers and sizes where they are no less than
/// they may be, and a count of 0 is taken as 1.
pub proof fn law_texts_lists_and_numbers_of_entries(
    m: Map<Seq<char>, Seq<char>>,
    k: Seq<char>,
    lo: int,
    hi: int,
    least: int,
    n: int,
)
    requires
        m.contains_key(k),
    ensures
        m[k].len() == 0 ==> text_at(m, k) is None,
        m[k].len() > 0 ==> text_at(m, k) == Some(m[k]),
        list_items(m[k]).len() == 0 ==> list_at(m, k) is None,
        list_items(m[k]).len() > 0 ==> list_at(m, k) == Some(list_items(m[k])),
        parse_int(m[k], lo, hi) is Err ==> int_at(m, k, lo, hi, least) is None,
        parse_int(m[k], lo, hi) == Ok::<int, IntErrorKind>(n) && n >= least ==> int_at(
            m,
            k,
            lo,
            hi,
            least,
        ) == Some(n),
        parse_int(m[k], lo, hi) == Ok::<int, IntErrorKind>(n) && n < least ==> int_at(
            m,
            k,
            lo,
            hi,
            least,
        ) is None,
        parse_int(m[k], 0, usize::MAX as int) == Ok::<int, IntErrorKind>(0) ==> count_at(m, k)
            == Some(1int),
        parse_int(m[k], 0, usize::MAX as int) == Ok::<int, IntErrorKind>(n) && n >= 1 ==> count_at(
            m,
            k,
        ) == Some(n),
        parse_int(m[k], 0, usize::MAX as int) is Err ==> count_at(m, k) is None,
        byte_size(m[k]) is Err ==> bytes_at(m, k, least) is None,
        byte_size(m[k]) == Ok::<int, Seq<char>>(n) && n >= least ==> bytes_at(m, k, least) == Some(
            n,
        ),
        byte_size(m[k]) == Ok::<int, Seq<char>>(n) && n < least ==> bytes_at(m, k, least) is None,
{
}

/// A span of time is a million nanoseconds for each millisecond, and none where it is
/// negative; a number of milliseconds counts where it is no less than it may be.
pub proof fn law_times_of_entries(
    m: Map<Seq<char>, Seq<char>>,
    k: Seq<char>,
    least: int,
    ms: int,
)
    requires
        m.contains_key(k),
    ensures
        time_at(m, k) == time_size(m[k]),
        time_size(m[k]) == Some(ms) && ms >= 0 ==> time_nanos_at(m, k) == Some(ms * 1000 * 1000),
        time_size(m[k]) == Some(ms) && ms < 0 ==> time_nanos_at(m, k) == Some(0int),
        time_size(m[k]) is None ==> time_nanos_at(m, k) is None,
        parse_int(m[k], 0, u64::MAX as int) == Ok::<int, IntErrorKind>(ms) && ms >= least
            ==> millis_nanos_at(m, k, least) == Some(ms * 1000 * 1000),
        parse_int(m[k], 0, u64::MAX as int) == Ok::<int, IntErrorKind>(ms) && ms < least
            ==> millis_nanos_at(m, k, least) is None,
        parse_int(m[k], 0, u64::MAX as int) is Err ==> millis_nanos_at(m, k, least) is None,
{
}

} // verus!
