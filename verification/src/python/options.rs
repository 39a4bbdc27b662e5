//! Options as Python callers pass them, and what they stand for.

use crate::config::write_type::WriteType;
use crate::fs::options::{CreateFileOptions, DeleteOptions, InStreamOptions, ReadType};
use crate::fs::write_type::WriteTypeXAttr;
use crate::text::{decimal, signed_decimal, signed_decimal_string};
use vstd::prelude::*;
use vstd::string::*;

verus! {

/// Whether workers cache what is read.
#[derive(Clone, Copy, Debug, PartialEq, Eq, Structural)]
pub enum PyReadType {
    /// Read without caching in workers.
    NoCache,
    /// Read, and cache in the nearest worker.
    Cache,
}

impl PyReadType {
    /// The read type.
    pub open spec fn sdk(self) -> ReadType {
        match self {
            PyReadType::NoCache => ReadType::NoCache,
            PyReadType::Cache => ReadType::Cache,
        }
    }

    /// The name.
    pub open spec fn name(self) -> Seq<char> {
        match self {
            PyReadType::NoCache => "NoCache"@,
            PyReadType::Cache => "Cache"@,
        }
    }

    /// The read type.
    pub fn into_sdk(self) -> (r: ReadType)
        ensures
            r == self.sdk(),
    {
        match self {
            PyReadType::NoCache => ReadType::NoCache,
            PyReadType::Cache => ReadType::Cache,
        }
    }

    fn label(self) -> (r: &'static str)
        ensures
            r@ == self.name(),
    {
        match self {
            PyReadType::NoCache => "NoCache",
            PyReadType::Cache => "Cache",
        }
    }
}

/// How a file is written.
#[derive(Clone, Copy, Debug, PartialEq, Eq, Structural)]
pub enum PyWriteType {
    /// Cache only.
    MustCache,
    /// Cache if there is room.
    TryCache,
    /// Cache, and persist synchronously.
    CacheThrough,
    /// Persist only.
    Through,
    /// Cache, and persist later.
    AsyncThrough,
}

impl PyWriteType {
    /// The write type.
    pub open spec fn sdk(self) -> WriteType {
        match self {
            PyWriteType::MustCache => WriteType::MustCache,
            PyWriteType::TryCache => WriteType::TryCache,
            PyWriteType::CacheThrough => WriteType::CacheThrough,
            PyWriteType::Through => WriteType::Through,
            PyWriteType::AsyncThrough => WriteType::AsyncThrough,
        }
    }

    /// The name.
    pub open spec fn name(self) -> Seq<char> {
        match self {
            PyWriteType::MustCache => "MustCache"@,
            PyWriteType::TryCache => "TryCache"@,
            PyWriteType::CacheThrough => "CacheThrough"@,
            PyWriteType::Through => "Through"@,
            PyWriteType::AsyncThrough => "AsyncThrough"@,
        }
    }

    /// The write type.
    pub fn into_sdk(self) -> (r: WriteType)
        ensures
            r == self.sdk(),
    {
        match self {
            PyWriteType::MustCache => WriteType::MustCache,
            PyWriteType::TryCache => WriteType::TryCache,
            PyWriteType::CacheThrough => WriteType::CacheThrough,
            PyWriteType::Through => WriteType::Through,
            PyWriteType::AsyncThrough => WriteType::AsyncThrough,
        }
    }

    fn label(self) -> (r: &'static str)
        ensures
            r@ == self.name(),
    {
        match self {
            PyWriteType::MustCache => "MustCache",
            PyWriteType::TryCache => "TryCache",
            PyWriteType::CacheThrough => "CacheThrough",
            PyWriteType::Through => "Through",
            PyWriteType::AsyncThrough => "AsyncThrough",
        }
    }
}

/// `None`, or `Some(..)` around a text.
pub open spec fn optional_text(v: Option<Seq<char>>) -> Seq<char> {
    match v {
        None => "None"@,
        Some(s) => "Some("@ + s + seq![')'],
    }
}

/// `true` or `false`.
pub open spec fn bool_text(b: bool) -> Seq<char> {
    if b {
        "true"@
    } else {
        "false"@
    }
}

fn bool_label(b: bool) -> (r: &'static str)
    ensures
        r@ == bool_text(b),
{
    if b {
        "true"
    } else {
        "false"
    }
}

/// The text of a number that may be missing.
pub open spec fn optional_number(v: Option<int>) -> Seq<char> {
    optional_text(
        match v {
            Some(n) => Some(signed_decimal(n)),
            None => None,
        },
    )
}

fn append_optional_number(out: &mut String, v: Option<i64>)
    ensures
        final(out)@ == old(out)@ + optional_number(
            match v {
                Some(n) => Some(n as int),
                None => None,
            },
        ),
{
    match v {
        None => {
            out.append("None");
        },
        Some(n) => {
            let digits: String = signed_decimal_string(n);
            out.append("Some(");
            out.append(&digits);
            out.push(')');
            assert(out@ =~= old(out)@ + optional_number(Some(n as int)));
        },
    }
}

/// How a file is opened for reading, as a whole.
#[derive(Clone, Copy, Debug, PartialEq, Eq, Structural)]
pub struct SdkOpenFileOptions {
    /// How the stream reads.
    pub in_stream_options: InStreamOptions,
    /// Whether the Master notes the access.
    pub update_last_access_time: bool,
    /// Whether the parent directory may name another read type.
    pub inherit_read_type: bool,
}

/// How a file is opened for reading.
#[derive(Clone, Copy, Debug, PartialEq, Eq, Structural)]
pub struct PyOpenFileOptions {
    /// The read type that the caller named. Without one the parent directory may name it.
    pub explicit_read_type: Option<PyReadType>,
}

impl PyOpenFileOptions {
    /// The read type in force where the parent directory names none.
    pub open spec fn effective(self) -> PyReadType {
        match self.explicit_read_type {
            Some(t) => t,
            None => PyReadType::Cache,
        }
    }

    /// The options with this read type.
    pub fn new(read_type: Option<PyReadType>) -> (r: Self)
        ensures
            r.explicit_read_type == read_type,
    {
        PyOpenFileOptions { explicit_read_type: read_type }
    }

    /// The read type in force where the parent directory names none.
    pub fn read_type(&self) -> (r: PyReadType)
        ensures
            r == self.effective(),
    {
        match self.explicit_read_type {
            Some(t) => t,
            None => PyReadType::Cache,
        }
    }

    /// The options as a call that makes them.
    pub fn repr(&self) -> (r: String)
        ensures
            r@ == "OpenFileOptions(read_type="@ + self.effective().name() + seq![')'],
    {
        let mut out: String = "OpenFileOptions(read_type=".to_owned();
        out.append(self.read_type().label());
        out.push(')');
        assert(out@ =~= "OpenFileOptions(read_type="@ + self.effective().name() + seq![')']);
        out
    }

    /// What the options stand for. A read type that the caller named is never replaced by
    /// that of the parent directory.
    pub fn into_sdk(self) -> (r: SdkOpenFileOptions)
        ensures
            r == (SdkOpenFileOptions {
                in_stream_options: InStreamOptions {
                    read_type: self.effective().sdk(),
                    position_short: false,
                    max_ufs_read_concurrency: 8,
                    prefetch_window: 1,
                },
                update_last_access_time: true,
                inherit_read_type: self.explicit_read_type is None,
            }),
    {
        let inherit: bool = self.explicit_read_type.is_none();
        let in_stream: InStreamOptions = InStreamOptions {
            read_type: self.read_type().into_sdk(),
            ..InStreamOptions::default()
        };
        SdkOpenFileOptions {
            in_stream_options: in_stream,
            update_last_access_time: true,
            inherit_read_type: inherit,
        }
    }
}

/// How a file is created.
#[derive(Clone, Copy, Debug, PartialEq, Eq, Structural)]
pub struct PyCreateFileOptions {
    /// The write type; without one the parent directory names it.
    pub write_type: Option<PyWriteType>,
    /// Block size in bytes.
    pub block_size_bytes: Option<i64>,
    /// How many replicas a block may have.
    pub replication_max: Option<i32>,
    /// Whether missing parent directories are created.
    pub recursive: bool,
}

impl PyCreateFileOptions {
    /// The options with these values.
    pub fn new(
        write_type: Option<PyWriteType>,
        block_size_bytes: Option<i64>,
        replication_max: Option<i32>,
        recursive: bool,
    ) -> (r: Self)
        ensures
            r == (PyCreateFileOptions { write_type, block_size_bytes, replication_max, recursive }),
    {
        PyCreateFileOptions { write_type, block_size_bytes, replication_max, recursive }
    }

    /// The write type.
    pub fn write_type(&self) -> (r: Option<PyWriteType>)
        ensures
            r == self.write_type,
    {
        self.write_type
    }

    /// Block size in bytes.
    pub fn block_size_bytes(&self) -> (r: Option<i64>)
        ensures
            r == self.block_size_bytes,
    {
        self.block_size_bytes
    }

    /// How many replicas a block may have.
    pub fn replication_max(&self) -> (r: Option<i32>)
        ensures
            r == self.replication_max,
    {
        self.replication_max
    }

    /// Whether missing parent directories are created.
    pub fn recursive(&self) -> (r: bool)
        ensures
            r == self.recursive,
    {
        self.recursive
    }

    /// The options as a call that makes them.
    pub open spec fn text(self) -> Seq<char> {
        "CreateFileOptions(write_type="@ + optional_text(
            match self.write_type {
                Some(t) => Some(t.name()),
                None => None,
            },
        ) + ", block_size_bytes="@ + optional_number(
            match self.block_size_bytes {
                Some(n) => Some(n as int),
                None => None,
            },
        ) + ", replication_max="@ + optional_number(
            match self.replication_max {
                Some(n) => Some(n as int),
                None => None,
            },
        ) + ", recursive="@ + bool_text(self.recursive) + seq![')']
    }

    /// The options as a call that makes them.
    pub fn repr(&self) -> (r: String)
        ensures
            r@ == self.text(),
    {
        let mut out: String = "CreateFileOptions(write_type=".to_owned();
        let ghost head = out@;
        match self.write_type {
            None => {
                out.append("None");
            },
            Some(t) => {
                out.append("Some(");
                out.append(t.label());
                out.push(')');
            },
        }
        assert(out@ =~= head + optional_text(
            match self.write_type {
                Some(t) => Some(t.name()),
                None => None,
            },
        ));
        out.append(", block_size_bytes=");
        append_optional_number(&mut out, self.block_size_bytes);
        out.append(", replication_max=");
        let replication: Option<i64> = match self.replication_max {
            Some(n) => Some(n as i64),
            None => None,
        };
        append_optional_number(&mut out, replication);
        out.append(", recursive=");
        out.append(bool_label(self.recursive));
        out.push(')');
        assert(out@ =~= self.text());
        out
    }

    /// What the options stand for.
    pub fn into_sdk(self) -> (r: CreateFileOptions)
        ensures
            r == (CreateFileOptions {
                write_type: match self.write_type {
                    Some(t) => WriteTypeXAttr::Explicit(t.sdk()),
                    None => WriteTypeXAttr::Inherit,
                },
                block_size_bytes: self.block_size_bytes,
                replication_max: self.replication_max,
                recursive: self.recursive,
            }),
    {
        CreateFileOptions {
            write_type: match self.write_type {
                Some(t) => WriteTypeXAttr::Explicit(t.into_sdk()),
                None => WriteTypeXAttr::Inherit,
            },
            block_size_bytes: self.block_size_bytes,
            replication_max: self.replication_max,
            recursive: self.recursive,
        }
    }
}

/// How a file or directory is deleted.
#[derive(Clone, Copy, Debug, PartialEq, Eq, Structural)]
pub struct PyDeleteOptions {
    /// Whether directories are deleted with what they hold.
    pub recursive: bool,
    /// Whether checks are skipped.
    pub unchecked: bool,
    /// Whether the underlying storage is left alone.
    pub goosefs_only: bool,
}

impl PyDeleteOptions {
    /// The options with these values.
    pub fn new(recursive: bool, unchecked: bool, goosefs_only: bool) -> (r: Self)
        ensures
            r == (PyDeleteOptions { recursive, unchecked, goosefs_only }),
    {
        PyDeleteOptions { recursive, unchecked, goosefs_only }
    }

    /// Whether directories are deleted with what they hold.
    pub fn recursive(&self) -> (r: bool)
        ensures
            r == self.recursive,
    {
        self.recursive
    }

    /// Whether checks are skipped.
    pub fn unchecked(&self) -> (r: bool)
        ensures
            r == self.unchecked,
    {
        self.unchecked
    }

    /// Whether the underlying storage is left alone.
    pub fn goosefs_only(&self) -> (r: bool)
        ensures
            r == self.goosefs_only,
    {
        self.goosefs_only
    }

    /// The options as a call that makes them.
    pub open spec fn text(self) -> Seq<char> {
        "DeleteOptions(recursive="@ + bool_text(self.recursive) + ", unchecked="@ + bool_text(
            self.unchecked,
        ) + ", goosefs_only="@ + bool_text(self.goosefs_only) + seq![')']
    }

    /// The options as a call that makes them.
    pub fn repr(&self) -> (r: String)
        ensures
            r@ == self.text(),
    {
        let mut out: String = "DeleteOptions(recursive=".to_owned();
        out.append(bool_label(self.recursive));
        out.append(", unchecked=");
        out.append(bool_label(self.unchecked));
        out.append(", goosefs_only=");
        out.append(bool_label(self.goosefs_only));
        out.push(')');
        assert(out@ =~= self.text());
        out
    }

    /// What the options stand for.
    pub fn into_sdk(self) -> (r: DeleteOptions)
        ensures
            r == (DeleteOptions {
                recursive: self.recursive,
                unchecked: self.unchecked,
                goosefs_only: self.goosefs_only,
            }),
    {
        DeleteOptions {
            recursive: self.recursive,
            unchecked: self.unchecked,
            goosefs_only: self.goosefs_only,
        }
    }
}

/// The types that a Python caller names stand for those of the same name, and are shown under
/// that name.
pub proof fn law_types_are_those_of_the_same_name(r: PyReadType, w: PyWriteType)
    ensures
        r is NoCache <==> r.sdk() is NoCache,
        r is Cache <==> r.sdk() is Cache,
        r is NoCache ==> r.name() == "NoCache"@,
        r is Cache ==> r.name() == "Cache"@,
        w is MustCache <==> w.sdk() is MustCache,
        w is TryCache <==> w.sdk() is TryCache,
        w is CacheThrough <==> w.sdk() is CacheThrough,
        w is Through <==> w.sdk() is Through,
        w is AsyncThrough <==> w.sdk() is AsyncThrough,
        w is MustCache ==> w.name() == "MustCache"@,
        w is TryCache ==> w.name() == "TryCache"@,
        w is CacheThrough ==> w.name() == "CacheThrough"@,
        w is Through ==> w.name() == "Through"@,
        w is AsyncThrough ==> w.name() == "AsyncThrough"@,
{
}

/// A file is read with the type that the caller names, and with caching where there is none.
pub proof fn law_read_type_that_counts(o: PyOpenFileOptions)
    ensures
        o.explicit_read_type matches Some(t) ==> o.effective() == t,
        o.explicit_read_type is None ==> o.effective() is Cache,
{
}

/// How an option that is set, and one that is not, is shown.
pub proof fn law_how_options_are_shown(s: Seq<char>, n: nat, b: bool)
    ensures
        optional_text(None) == "None"@,
        optional_text(Some(s)) == "Some("@ + s + ")"@,
        optional_number(None) == "None"@,
        optional_number(Some(n as int)) == "Some("@ + decimal(n) + ")"@,
        n > 0 ==> optional_number(Some(-(n as int))) == "Some(-"@ + decimal(n) + ")"@,
        b ==> bool_text(b) == "true"@,
        !b ==> bool_text(b) == "false"@,
{
    reveal_strlit(")");
    reveal_strlit("Some(");
    reveal_strlit("Some(-");
    assert(seq![')'] =~= ")"@);
    if n > 0 {
        assert("Some("@ + (seq!['-'] + decimal(n)) + ")"@ =~= "Some(-"@ + decimal(n) + ")"@);
    }
}

/// Options are shown field by field, each under its own name.
pub proof fn law_options_are_shown_by_field(c: PyCreateFileOptions, d: PyDeleteOptions)
    ensures
        c.text() == "CreateFileOptions(write_type="@ + optional_text(
            match c.write_type {
                Some(t) => Some(t.name()),
                None => None,
            },
        ) + ", block_size_bytes="@ + optional_number(
            match c.block_size_bytes {
                Some(n) => Some(n as int),
                None => None,
            },
        ) + ", replication_max="@ + optional_number(
            match c.replication_max {
                Some(n) => Some(n as int),
                None => None,
            },
        ) + ", recursive="@ + bool_text(c.recursive) + ")"@,
        d.text() == "DeleteOptions(recursive="@ + bool_text(d.recursive) + ", unchecked="@
            + bool_text(d.unchecked) + ", goosefs_only="@ + bool_text(d.goosefs_only) + ")"@,
{
    reveal_strlit(")");
    assert(seq![')'] =~= ")"@);
}

} // verus!
