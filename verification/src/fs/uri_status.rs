//! The status of a path.

use crate::proto::{BlockLocation, FileBlockInfo, FileInfo};
use vstd::prelude::*;
use vstd::string::*;

verus! {

/// The status of a path, with every field filled in.
#[derive(Clone, Debug)]
pub struct URIStatus {
    /// Identifier of the inode; 0 where it is not known.
    pub file_id: i64,
    /// The path.
    pub path: String,
    /// Path in the underlying storage; empty where there is none.
    pub ufs_path: String,
    /// Length in bytes.
    pub length: i64,
    /// Size of the blocks in bytes.
    pub block_size_bytes: i64,
    /// Whether the writer has closed the file.
    pub completed: bool,
    /// Whether the path is a directory.
    pub folder: bool,
    /// Whether workers may cache the data.
    pub cacheable: bool,
    /// The blocks in the order of the file.
    pub block_ids: Vec<i64>,
    /// Time of the last change, in milliseconds.
    pub last_modification_time_ms: i64,
    /// Identifier of the mount point.
    pub mount_id: i64,
    /// The blocks with their replicas.
    pub file_block_infos: Vec<FileBlockInfo>,
}

/// The number in `v`; 0 where there is none.
pub open spec fn number_or_zero(v: Option<i64>) -> i64 {
    match v {
        Some(n) => n,
        None => 0,
    }
}

/// The text in `v`; empty where there is none.
pub open spec fn text_or_empty(v: Option<String>) -> Seq<char> {
    match v {
        Some(s) => s@,
        None => Seq::empty(),
    }
}

/// The identifier of the block in `fbi`.
pub open spec fn id_of(fbi: FileBlockInfo) -> Option<i64> {
    match fbi.block_info {
        Some(bi) => bi.block_id,
        None => None,
    }
}

/// The first place at which `infos` holds the block `id`; the length of `infos` where it
/// does not.
pub open spec fn place_of(infos: Seq<FileBlockInfo>, id: i64) -> nat
    decreases infos.len(),
{
    if infos.len() == 0 {
        0
    } else if id_of(infos[0]) == Some(id) {
        0
    } else {
        1 + place_of(infos.drop_first(), id)
    }
}

/// The replicas of the block `id`; none where the block is not known.
pub open spec fn replicas(infos: Seq<FileBlockInfo>, id: i64) -> Seq<BlockLocation> {
    if place_of(infos, id) < infos.len() {
        match infos[place_of(infos, id) as int].block_info {
            Some(bi) => bi.locations@,
            None => Seq::empty(),
        }
    } else {
        Seq::empty()
    }
}

proof fn lemma_place(infos: Seq<FileBlockInfo>, id: i64, k: int)
    requires
        0 <= k <= infos.len(),
        forall|j: int| 0 <= j < k ==> id_of(#[trigger] infos[j]) != Some(id),
        k < infos.len() ==> id_of(infos[k]) == Some(id),
    ensures
        place_of(infos, id) == k,
    decreases infos.len(),
{
    if infos.len() > 0 && k > 0 {
        let rest = infos.drop_first();
        assert(id_of(infos[0]) != Some(id));
        assert forall|j: int| 0 <= j < k - 1 implies id_of(#[trigger] rest[j]) != Some(id) by {
            assert(rest[j] == infos[j + 1]);
        }
        if k < infos.len() {
            assert(rest[k - 1] == infos[k]);
        }
        lemma_place(rest, id, k - 1);
    }
}

/// The replicas of the block `id`; none where the block is not known.
pub fn replicas_of(infos: &Vec<FileBlockInfo>, id: i64) -> (r: Option<&Vec<BlockLocation>>)
    ensures
        match r {
            Some(v) => v@ == replicas(infos@, id),
            None => replicas(infos@, id).len() == 0,
        },
{
    let mut i: usize = 0;
    while i < infos.len()
        invariant
            i <= infos@.len(),
            forall|j: int| 0 <= j < i ==> id_of(#[trigger] infos@[j]) != Some(id),
        decreases infos@.len() - i,
    {
        if let Some(bi) = &infos[i].block_info {
            if let Some(found) = bi.block_id {
                if found == id {
                    proof {
                        lemma_place(infos@, id, i as int);
                    }
                    return Some(&bi.locations);
                }
            }
        }
        i += 1;
    }
    proof {
        lemma_place(infos@, id, i as int);
    }
    None
}

fn number(v: Option<i64>) -> (r: i64)
    ensures
        r == number_or_zero(v),
{
    match v {
        Some(n) => n,
        None => 0,
    }
}

fn text(v: Option<String>) -> (r: String)
    ensures
        r@ == text_or_empty(v),
{
    match v {
        Some(s) => s,
        None => String::new(),
    }
}

fn switch(v: Option<bool>, default: bool) -> (r: bool)
    ensures
        r == (match v {
            Some(b) => b,
            None => default,
        }),
{
    match v {
        Some(b) => b,
        None => default,
    }
}

impl URIStatus {
    /// Whether `self` says the same as `info`, with numbers that are missing taken as 0,
    /// texts as empty, and files taken as open, as no directories, and as cacheable.
    pub open spec fn describes(self, info: FileInfo) -> bool {
        &&& self.file_id == number_or_zero(info.file_id)
        &&& self.path@ == text_or_empty(info.path)
        &&& self.ufs_path@ == text_or_empty(info.ufs_path)
        &&& self.length == number_or_zero(info.length)
        &&& self.block_size_bytes == number_or_zero(info.block_size_bytes)
        &&& self.completed == (info.completed == Some(true))
        &&& self.folder == (info.folder == Some(true))
        &&& self.cacheable == (info.cacheable != Some(false))
        &&& self.block_ids == info.block_ids
        &&& self.last_modification_time_ms == number_or_zero(info.last_modification_time_ms)
        &&& self.mount_id == number_or_zero(info.mount_id)
        &&& self.file_block_infos == info.file_block_infos
    }

    /// The status that the Master reports.
    pub fn from_proto(info: FileInfo) -> (r: Self)
        ensures
            r.describes(info),
    {
        URIStatus {
            file_id: number(info.file_id),
            path: text(info.path),
            ufs_path: text(info.ufs_path),
            length: number(info.length),
            block_size_bytes: number(info.block_size_bytes),
            completed: switch(info.completed, false),
            folder: switch(info.folder, false),
            cacheable: switch(info.cacheable, true),
            block_ids: info.block_ids,
            last_modification_time_ms: number(info.last_modification_time_ms),
            mount_id: number(info.mount_id),
            file_block_infos: info.file_block_infos,
        }
    }

    /// Whether the path is a directory.
    pub fn is_folder(&self) -> (r: bool)
        ensures
            r == self.folder,
    {
        self.folder
    }

    /// Whether the writer has closed the file.
    pub fn is_completed(&self) -> (r: bool)
        ensures
            r == self.completed,
    {
        self.completed
    }
}

/// The status of a path says what the Master reports, field by field. What is missing is taken
/// as 0, as an empty text, as a file that is still being written, as no directory, and as
/// cacheable.
pub proof fn law_status_is_as_reported(u: URIStatus, info: FileInfo)
    requires
        u.describes(info),
    ensures
        info.file_id matches Some(n) ==> u.file_id == n,
        info.file_id is None ==> u.file_id == 0,
        info.path matches Some(s) ==> u.path@ == s@,
        info.path is None ==> u.path@.len() == 0,
        info.ufs_path matches Some(s) ==> u.ufs_path@ == s@,
        info.ufs_path is None ==> u.ufs_path@.len() == 0,
        info.length matches Some(n) ==> u.length == n,
        info.length is None ==> u.length == 0,
        info.block_size_bytes matches Some(n) ==> u.block_size_bytes == n,
        info.block_size_bytes is None ==> u.block_size_bytes == 0,
        info.completed matches Some(b) ==> u.completed == b,
        info.completed is None ==> !u.completed,
        info.folder matches Some(b) ==> u.folder == b,
        info.folder is None ==> !u.folder,
        info.cacheable matches Some(b) ==> u.cacheable == b,
        info.cacheable is None ==> u.cacheable,
        u.block_ids@ == info.block_ids@,
        info.last_modification_time_ms matches Some(n) ==> u.last_modification_time_ms == n,
        info.last_modification_time_ms is None ==> u.last_modification_time_ms == 0,
        info.mount_id matches Some(n) ==> u.mount_id == n,
        info.mount_id is None ==> u.mount_id == 0,
        u.file_block_infos@ == info.file_block_infos@,
{
}

/// The replicas of a block are those of the first entry of the list with its identifier, and
/// there are none where no entry has it.
pub proof fn law_replicas_of_a_block(infos: Seq<FileBlockInfo>, id: i64, k: int)
    requires
        0 <= k <= infos.len(),
        forall|j: int|
            0 <= j < k ==> !((#[trigger] infos[j]).block_info matches Some(b) && b.block_id == Some(
                id,
            )),
        k < infos.len() ==> (infos[k].block_info matches Some(b) && b.block_id == Some(id)),
    ensures
        k < infos.len() ==> replicas(infos, id) == infos[k].block_info->0.locations@,
        k == infos.len() ==> replicas(infos, id).len() == 0,
{
    lemma_place(infos, id, k);
}

} // verus!
