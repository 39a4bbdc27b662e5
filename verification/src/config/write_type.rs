//! The write type of new files.

use vstd::prelude::*;
use vstd::string::*;

use crate::proto::WritePType;
use crate::text::{ascii_lowercase, str_eq, to_ascii_lowercase};

verus! {

/// How the data of a new file is kept.
///
/// Each variant has a name in lower case, with words joined by `_`; names are
/// read whatever the case of their letters.
#[derive(Clone, Copy, Debug, PartialEq, Eq, Hash, Structural)]
pub enum WriteType {
    /// In the cache only.
    MustCache,
    /// In the cache, or in the underlying storage where the cache is full.
    TryCache,
    /// In the cache, and at once in the underlying storage.
    CacheThrough,
    /// In the underlying storage only.
    Through,
    /// In the cache, and later in the underlying storage.
    AsyncThrough,
}

/// The write type that `s` names, whatever the case of its letters.
pub open spec fn write_type_named(s: Seq<char>) -> Option<WriteType> {
    let name = ascii_lowercase(s);
    if name == "must_cache"@ {
        Some(WriteType::MustCache)
    } else if name == "try_cache"@ {
        Some(WriteType::TryCache)
    } else if name == "cache_through"@ {
        Some(WriteType::CacheThrough)
    } else if name == "through"@ {
        Some(WriteType::Through)
    } else if name == "async_through"@ {
        Some(WriteType::AsyncThrough)
    } else {
        None
    }
}

impl WriteType {
    /// The name of the write type.
    pub open spec fn name(self) -> Seq<char> {
        match self {
            WriteType::MustCache => "must_cache"@,
            WriteType::TryCache => "try_cache"@,
            WriteType::CacheThrough => "cache_through"@,
            WriteType::Through => "through"@,
            WriteType::AsyncThrough => "async_through"@,
        }
    }

    /// The write type of the wire format.
    pub open spec fn proto(self) -> WritePType {
        match self {
            WriteType::MustCache => WritePType::MustCache,
            WriteType::TryCache => WritePType::TryCache,
            WriteType::CacheThrough => WritePType::CacheThrough,
            WriteType::Through => WritePType::Through,
            WriteType::AsyncThrough => WritePType::AsyncThrough,
        }
    }

    /// All write types, in the order of their numbers on the wire.
    pub fn all() -> (r: Vec<WriteType>)
        ensures
            r@ == seq![
                WriteType::MustCache,
                WriteType::TryCache,
                WriteType::CacheThrough,
                WriteType::Through,
                WriteType::AsyncThrough,
            ],
    {
        let mut v: Vec<WriteType> = Vec::new();
        v.push(WriteType::MustCache);
        v.push(WriteType::TryCache);
        v.push(WriteType::CacheThrough);
        v.push(WriteType::Through);
        v.push(WriteType::AsyncThrough);
        v
    }

    /// The name of the write type.
    pub fn as_str(&self) -> (r: &'static str)
        ensures
            r@ == self.name(),
    {
        match self {
            WriteType::MustCache => "must_cache",
            WriteType::TryCache => "try_cache",
            WriteType::CacheThrough => "cache_through",
            WriteType::Through => "through",
            WriteType::AsyncThrough => "async_through",
        }
    }

    /// The name of the write type, as an owned string.
    pub fn to_string(&self) -> (r: String)
        ensures
            r@ == self.name(),
    {
        self.as_str().to_owned()
    }

    /// The number of the write type on the wire.
    pub fn as_i32(&self) -> (r: i32)
        ensures
            r == self.proto().number(),
    {
        WritePType::from(*self).as_i32()
    }

    /// The write type that `s` names (case-insensitive).
    pub fn parse(s: &str) -> (r: Result<WriteType, String>)
        ensures
            match r {
                Ok(t) => write_type_named(s@) == Some(t),
                Err(e) => write_type_named(s@) is None && e@ == "unknown write type '"@ + s@
                    + "'. Expected one of: "@
                    + "must_cache, try_cache, cache_through, through, async_through"@,
            },
    {
        let name: String = to_ascii_lowercase(s);
        if str_eq(&name, "must_cache") {
            Ok(WriteType::MustCache)
        } else if str_eq(&name, "try_cache") {
            Ok(WriteType::TryCache)
        } else if str_eq(&name, "cache_through") {
            Ok(WriteType::CacheThrough)
        } else if str_eq(&name, "through") {
            Ok(WriteType::Through)
        } else if str_eq(&name, "async_through") {
            Ok(WriteType::AsyncThrough)
        } else {
            let mut e: String = "unknown write type '".to_owned();
            e.append(s);
            e.append("'. Expected one of: ");
            e.append("must_cache, try_cache, cache_through, through, async_through");
            Err(e)
        }
    }

    /// The write type of a value of the wire format. Fails for the two values
    /// that denote no write type.
    pub fn try_from_proto(pt: WritePType) -> (r: Result<WriteType, String>)
        ensures
            match r {
                Ok(t) => t.proto() == pt,
                Err(e) => (pt == WritePType::UnspecifiedWriteType || pt == WritePType::NoneType)
                    && e@ == "cannot convert WritePType::"@ + pt.name() + " to WriteType"@,
            },
    {
        match pt {
            WritePType::MustCache => Ok(WriteType::MustCache),
            WritePType::TryCache => Ok(WriteType::TryCache),
            WritePType::CacheThrough => Ok(WriteType::CacheThrough),
            WritePType::Through => Ok(WriteType::Through),
            WritePType::AsyncThrough => Ok(WriteType::AsyncThrough),
            other => {
                let mut e: String = "cannot convert WritePType::".to_owned();
                e.append(other.variant_name());
                e.append(" to WriteType");
                Err(e)
            },
        }
    }
}

impl std::str::FromStr for WriteType {
    type Err = String;

    /// The write type that `s` names, as [`WriteType::parse`] reads it.
    fn from_str(s: &str) -> (r: Result<WriteType, String>)
        ensures
            match r {
                Ok(t) => write_type_named(s@) == Some(t),
                Err(e) => write_type_named(s@) is None && e@ == "unknown write type '"@ + s@
                    + "'. Expected one of: "@
                    + "must_cache, try_cache, cache_through, through, async_through"@,
            },
    {
        WriteType::parse(s)
    }
}

impl From<WriteType> for WritePType {
    fn from(wt: WriteType) -> (r: WritePType) {
        match wt {
            WriteType::MustCache => WritePType::MustCache,
            WriteType::TryCache => WritePType::TryCache,
            WriteType::CacheThrough => WritePType::CacheThrough,
            WriteType::Through => WritePType::Through,
            WriteType::AsyncThrough => WritePType::AsyncThrough,
        }
    }
}

impl vstd::std_specs::convert::FromSpecImpl<WriteType> for WritePType {
    open spec fn obeys_from_spec() -> bool {
        true
    }

    open spec fn from_spec(wt: WriteType) -> WritePType {
        wt.proto()
    }
}

/// A name with no capital letter is its own lower case.
proof fn lemma_lowercase_of_lower(s: Seq<char>)
    requires
        forall|i: int| 0 <= i < s.len() ==> !('A' <= #[trigger] s[i] <= 'Z'),
    ensures
        ascii_lowercase(s) == s,
{
    assert(ascii_lowercase(s) =~= s);
}

/// Every write type is what its own name denotes.
pub proof fn law_name_round_trip(wt: WriteType)
    ensures
        write_type_named(wt.name()) == Some(wt),
{
    reveal_strlit("must_cache");
    reveal_strlit("try_cache");
    reveal_strlit("cache_through");
    reveal_strlit("through");
    reveal_strlit("async_through");
    lemma_lowercase_of_lower(wt.name());
    assert("must_cache"@[0] == 'm');
    assert("try_cache"@[0] == 't' && "try_cache"@[1] == 'r');
    assert("cache_through"@[0] == 'c');
    assert("through"@[0] == 't' && "through"@[1] == 'h');
    assert("async_through"@[0] == 'a');
}

/// Names are read whatever the case of their letters.
pub proof fn law_names_ignore_case(a: Seq<char>, b: Seq<char>)
    requires
        ascii_lowercase(a) == ascii_lowercase(b),
    ensures
        write_type_named(a) == write_type_named(b),
{
}

/// Going to the wire format and back gives the write type one started from, and
/// each write type has a wire value of its own.
pub proof fn law_proto_round_trip(a: WriteType, b: WriteType)
    ensures
        a.proto() == b.proto() ==> a == b,
        a.proto().number() == b.proto().number() ==> a == b,
        1 <= a.proto().number() <= 5,
{
}

/// The names of the write types, in letters of any case, and their numbers on the wire, from
/// 1 to 5 in this order: only in the cache, in the cache if it has room, in both places, only
/// in the underlying storage, and there later.
pub proof fn law_write_type_words(word: Seq<char>, t: WriteType)
    requires
        write_type_named(word) == Some(t),
    ensures
        t is MustCache <==> ascii_lowercase(word) == "must_cache"@,
        t is TryCache <==> ascii_lowercase(word) == "try_cache"@,
        t is CacheThrough <==> ascii_lowercase(word) == "cache_through"@,
        t is Through <==> ascii_lowercase(word) == "through"@,
        t is AsyncThrough <==> ascii_lowercase(word) == "async_through"@,
        t is MustCache <==> t.proto().number() == 1,
        t is TryCache <==> t.proto().number() == 2,
        t is CacheThrough <==> t.proto().number() == 3,
        t is Through <==> t.proto().number() == 4,
        t is AsyncThrough <==> t.proto().number() == 5,
{
    reveal_strlit("must_cache");
    reveal_strlit("try_cache");
    reveal_strlit("cache_through");
    reveal_strlit("through");
    reveal_strlit("async_through");
    assert("must_cache"@[0] == 'm');
    assert("try_cache"@[0] == 't' && "try_cache"@[1] == 'r');
    assert("cache_through"@[0] == 'c');
    assert("through"@[0] == 't' && "through"@[1] == 'h');
    assert("async_through"@[0] == 'a');
}

/// Exactly these five names, in letters of any case, name a write type.
pub proof fn law_other_words_are_no_write_types(word: Seq<char>)
    ensures
        write_type_named(word) is Some <==> {
            let name = ascii_lowercase(word);
            name == "must_cache"@ || name == "try_cache"@ || name == "cache_through"@ || name
                == "through"@ || name == "async_through"@
        },
{
}

} // verus!
