//! Which files the page cache has been told of lately.

use crate::time::Instant;
use vstd::prelude::*;

verus! {

/// How long the page cache need not be told again of a file that has not changed, in
/// nanoseconds: 60 seconds.
pub const ON_FILE_OPEN_DEDUP_TTL: u128 = 60_000_000_000;

/// How many files are remembered before those that were told of long ago are forgotten.
pub const ON_FILE_OPEN_DEDUP_LIMIT: usize = 4096;

/// A file as it is at one time: its identifier, its length and the time of its last change.
pub type FileVersion = (i64, i64, i64);

/// When `key` was told of last.
pub open spec fn told(entries: Seq<(FileVersion, Instant)>, key: FileVersion) -> Option<Instant>
    decreases entries.len(),
{
    if entries.len() == 0 {
        None
    } else if entries.last().0 == key {
        Some(entries.last().1)
    } else {
        told(entries.drop_last(), key)
    }
}

/// Whether a time lies less than the limit before `now`.
pub open spec fn recent(at: Instant, now: Instant) -> bool {
    now.nanos_since(at) < ON_FILE_OPEN_DEDUP_TTL
}

/// Whether `after` is `before` with `key` told of at `now`. Where `before` holds many
/// files, those that were told of long ago are forgotten.
pub open spec fn noted(
    before: Seq<(FileVersion, Instant)>,
    after: Seq<(FileVersion, Instant)>,
    key: FileVersion,
    now: Instant,
) -> bool {
    &&& told(after, key) == Some(now)
    &&& forall|k: FileVersion|
        k != key ==> #[trigger] told(after, k) == (match told(before, k) {
            Some(at) => if before.len() > ON_FILE_OPEN_DEDUP_LIMIT && !recent(at, now) {
                None
            } else {
                Some(at)
            },
            None => None,
        })
}

/// Whether no file is remembered twice.
pub open spec fn distinct(entries: Seq<(FileVersion, Instant)>) -> bool {
    forall|i: int, j: int|
        0 <= i < j < entries.len() ==> (#[trigger] entries[i]).0 != (#[trigger] entries[j]).0
}

proof fn lemma_told(entries: Seq<(FileVersion, Instant)>, i: int)
    requires
        distinct(entries),
        0 <= i < entries.len(),
    ensures
        told(entries, entries[i].0) == Some(entries[i].1),
    decreases entries.len(),
{
    if i < entries.len() - 1 {
        let head = entries.drop_last();
        assert(entries[i].0 != entries[entries.len() - 1].0);
        assert(head[i] == entries[i]);
        assert(distinct(head)) by {
            assert forall|a: int, b: int| 0 <= a < b < head.len() implies (#[trigger] head[a]).0
                != (#[trigger] head[b]).0 by {
                assert(head[a] == entries[a] && head[b] == entries[b]);
            }
        }
        lemma_told(head, i);
    }
}

proof fn lemma_not_told(entries: Seq<(FileVersion, Instant)>, key: FileVersion)
    requires
        forall|i: int| 0 <= i < entries.len() ==> (#[trigger] entries[i]).0 != key,
    ensures
        told(entries, key) is None,
    decreases entries.len(),
{
    if entries.len() > 0 {
        let head = entries.drop_last();
        assert(entries[entries.len() - 1].0 != key);
        assert forall|i: int| 0 <= i < head.len() implies (#[trigger] head[i]).0 != key by {
            assert(head[i] == entries[i]);
        }
        lemma_not_told(head, key);
    }
}

proof fn lemma_told_is_there(entries: Seq<(FileVersion, Instant)>, key: FileVersion)
    requires
        told(entries, key) is Some,
    ensures
        exists|i: int|
            0 <= i < entries.len() && (#[trigger] entries[i]).0 == key && told(entries, key)
                == Some(entries[i].1),
    decreases entries.len(),
{
    if entries.last().0 == key {
        assert(entries[entries.len() - 1].0 == key);
    } else {
        let head = entries.drop_last();
        lemma_told_is_there(head, key);
        let i = choose|i: int|
            0 <= i < head.len() && (#[trigger] head[i]).0 == key && told(head, key) == Some(
                head[i].1,
            );
        assert(entries[i] == head[i]);
    }
}

/// The files that the page cache has been told of.
#[derive(Debug)]
pub struct OpenDedup {
    entries: Vec<(FileVersion, Instant)>,
}

impl OpenDedup {
    /// The files with the times at which they were told of.
    pub closed spec fn entries(self) -> Seq<(FileVersion, Instant)> {
        self.entries@
    }

    /// Whether no file is remembered twice.
    pub open spec fn wf(self) -> bool {
        distinct(self.entries())
    }

    /// No files.
    pub fn new() -> (r: Self)
        ensures
            r.wf(),
            r.entries().len() == 0,
    {
        OpenDedup { entries: Vec::new() }
    }

    fn position(&self, key: FileVersion) -> (r: Option<usize>)
        requires
            self.wf(),
        ensures
            match r {
                Some(i) => i < self.entries().len() && self.entries()[i as int].0 == key && told(
                    self.entries(),
                    key,
                ) == Some(self.entries()[i as int].1),
                None => told(self.entries(), key) is None && forall|i: int|
                    0 <= i < self.entries().len() ==> (#[trigger] self.entries()[i]).0 != key,
            },
    {
        let mut i: usize = 0;
        while i < self.entries.len()
            invariant
                self.wf(),
                i <= self.entries().len(),
                forall|j: int| 0 <= j < i ==> (#[trigger] self.entries()[j]).0 != key,
            decreases self.entries().len() - i,
        {
            let at: FileVersion = self.entries[i].0;
            if at.0 == key.0 && at.1 == key.1 && at.2 == key.2 {
                proof {
                    lemma_told(self.entries(), i as int);
                }
                return Some(i);
            }
            i += 1;
        }
        proof {
            lemma_not_told(self.entries(), key);
        }
        None
    }

    /// Whether the page cache need not be told of `key` at `now`.
    pub fn skip(&self, key: FileVersion, now: Instant) -> (r: bool)
        requires
            self.wf(),
        ensures
            r == (told(self.entries(), key) matches Some(at) && recent(at, now)),
    {
        match self.position(key) {
            None => false,
            Some(i) => now.duration_since(self.entries[i].1).nanos < ON_FILE_OPEN_DEDUP_TTL,
        }
    }

    /// Forgets the files that were told of long ago.
    fn forget_old(&mut self, now: Instant)
        requires
            old(self).wf(),
        ensures
            final(self).wf(),
            final(self).entries().len() <= old(self).entries().len(),
            forall|k: FileVersion| #[trigger]
                told(final(self).entries(), k) == (match told(old(self).entries(), k) {
                    Some(at) => if recent(at, now) {
                        Some(at)
                    } else {
                        None
                    },
                    None => None,
                }),
    {
        let ghost all = self.entries@;
        let mut kept: Vec<(FileVersion, Instant)> = Vec::new();
        let mut from: Ghost<Seq<int>> = Ghost(Seq::empty());
        let mut i: usize = 0;
        while i < self.entries.len()
            invariant
                i <= all.len(),
                self.entries@ == all,
                distinct(all),
                kept@.len() <= i,
                from@.len() == kept@.len(),
                forall|a: int|
                    0 <= a < kept@.len() ==> 0 <= #[trigger] from@[a] < i && kept@[a]
                        == all[from@[a]] && recent(kept@[a].1, now),
                forall|a: int, b: int|
                    0 <= a < b < kept@.len() ==> #[trigger] from@[a] < #[trigger] from@[b],
                forall|j: int|
                    0 <= j < i && recent((#[trigger] all[j]).1, now) ==> from@.contains(j),
            decreases all.len() - i,
        {
            let entry: (FileVersion, Instant) = self.entries[i];
            if now.duration_since(entry.1).nanos < ON_FILE_OPEN_DEDUP_TTL {
                let ghost before = from@;
                kept.push(entry);
                proof {
                    from@ = from@.push(i as int);
                    assert forall|j: int| 0 <= j < i + 1 && recent(
                        (#[trigger] all[j]).1,
                        now,
                    ) implies from@.contains(j) by {
                        if j == i {
                            assert(from@[from@.len() - 1] == j);
                        } else {
                            assert(before.contains(j));
                            let a = choose|a: int| 0 <= a < before.len() && before[a] == j;
                            assert(from@[a] == j);
                        }
                    }
                }
            }
            i += 1;
        }
        proof {
            assert(distinct(kept@)) by {
                assert forall|a: int, b: int| 0 <= a < b < kept@.len() implies (
                #[trigger] kept@[a]).0 != (#[trigger] kept@[b]).0 by {
                    assert(from@[a] < from@[b]);
                    assert(all[from@[a]].0 != all[from@[b]].0);
                }
            }
            assert forall|k: FileVersion| #[trigger] told(kept@, k) == (match told(all, k) {
                Some(at) => if recent(at, now) {
                    Some(at)
                } else {
                    None
                },
                None => None,
            }) by {
                if told(kept@, k) is Some {
                    lemma_told_is_there(kept@, k);
                    let a = choose|a: int|
                        0 <= a < kept@.len() && (#[trigger] kept@[a]).0 == k && told(kept@, k)
                            == Some(kept@[a].1);
                    assert(kept@[a] == all[from@[a]]);
                    lemma_told(all, from@[a]);
                } else if told(all, k) is Some {
                    lemma_told_is_there(all, k);
                    let j = choose|j: int|
                        0 <= j < all.len() && (#[trigger] all[j]).0 == k && told(all, k) == Some(
                            all[j].1,
                        );
                    if recent(all[j].1, now) {
                        assert(from@.contains(j));
                        let a = choose|a: int| 0 <= a < from@.len() && from@[a] == j;
                        assert(kept@[a] == all[from@[a]]);
                        lemma_told(kept@, a);
                    }
                }
            }
        }
        self.entries = kept;
    }

    /// Notes that the page cache was told of `key` at `now`. Where many files are
    /// remembered, those that were told of long ago are forgotten first.
    pub fn note(&mut self, key: FileVersion, now: Instant)
        requires
            old(self).wf(),
        ensures
            final(self).wf(),
            noted(old(self).entries(), final(self).entries(), key, now),
    {
        if self.entries.len() > ON_FILE_OPEN_DEDUP_LIMIT {
            self.forget_old(now);
        }
        let ghost mid = self.entries@;
        match self.position(key) {
            Some(i) => {
                self.entries.set(i, (key, now));
                proof {
                    let after = self.entries@;
                    assert(distinct(after)) by {
                        assert forall|a: int, b: int| 0 <= a < b < after.len() implies (
                        #[trigger] after[a]).0 != (#[trigger] after[b]).0 by {
                            assert(mid[a].0 != mid[b].0);
                        }
                    }
                    lemma_told(after, i as int);
                    assert forall|k: FileVersion| k != key implies #[trigger] told(after, k)
                        == told(mid, k) by {
                        lemma_same_told(mid, after, k);
                    }
                }
            },
            None => {
                self.entries.push((key, now));
                proof {
                    let after = self.entries@;
                    assert(after.drop_last() =~= mid);
                    assert(distinct(after)) by {
                        assert forall|a: int, b: int| 0 <= a < b < after.len() implies (
                        #[trigger] after[a]).0 != (#[trigger] after[b]).0 by {
                            if b < mid.len() {
                                assert(mid[a].0 != mid[b].0);
                            } else {
                                assert(mid[a].0 != key);
                            }
                        }
                    }
                }
            },
        }
    }
}

proof fn lemma_same_told(
    a: Seq<(FileVersion, Instant)>,
    b: Seq<(FileVersion, Instant)>,
    k: FileVersion,
)
    requires
        a.len() == b.len(),
        forall|i: int| #![trigger a[i]] #![trigger b[i]] 0 <= i < a.len() ==> a[i].0 == b[i].0,
        forall|i: int| 0 <= i < a.len() && (#[trigger] a[i]).0 == k ==> a[i] == b[i],
    ensures
        told(a, k) == told(b, k),
    decreases a.len(),
{
    if a.len() > 0 {
        let n = a.len() - 1;
        assert(a[n].0 == b[n].0);
        let x = a.drop_last();
        let y = b.drop_last();
        assert forall|i: int|
            #![trigger x[i]]
            #![trigger y[i]]
            0 <= i < x.len() implies x[i].0 == y[i].0 by {
            assert(a[i].0 == b[i].0);
        }
        assert forall|i: int| 0 <= i < x.len() && (#[trigger] x[i]).0 == k implies x[i] == y[i] by {
            assert(a[i] == b[i]);
        }
        lemma_same_told(x, y, k);
    }
}

/// A file that has changed is told of again: its length or the time of its last change is
/// another, so that it is not the file that was told of.
pub proof fn law_changed_file_is_told_again(
    before: Seq<(FileVersion, Instant)>,
    after: Seq<(FileVersion, Instant)>,
    key: FileVersion,
    now: Instant,
    changed: FileVersion,
)
    requires
        noted(before, after, key, now),
        told(before, changed) is None,
        changed != key,
    ensures
        told(after, changed) is None,
{
}

/// Whether a file is told of again depends on when it was told of last, and not on what
/// has been forgotten meanwhile.
pub proof fn law_forgetting_changes_no_decision(
    before: Seq<(FileVersion, Instant)>,
    after: Seq<(FileVersion, Instant)>,
    key: FileVersion,
    now: Instant,
    other: FileVersion,
    later: Instant,
)
    requires
        noted(before, after, key, now),
        other != key,
        later.nanos >= now.nanos,
    ensures
        (told(before, other) matches Some(at) && recent(at, later)) <==> (told(after, other) matches Some(at)
            && recent(at, later)),
{
}

/// A file that was told of is not told of again for a minute.
pub proof fn law_told_file_is_skipped_for_a_minute(
    before: Seq<(FileVersion, Instant)>,
    after: Seq<(FileVersion, Instant)>,
    key: FileVersion,
    now: Instant,
    later: Instant,
)
    requires
        noted(before, after, key, now),
        later.nanos >= now.nanos,
    ensures
        (told(after, key) matches Some(at) && recent(at, later)) <==> later.nanos - now.nanos < 60
            * 1_000_000_000,
{
}

/// When a file was told of is what its entry says; a file without an entry was never told of.
pub proof fn law_entries_say_when(
    entries: Seq<(FileVersion, Instant)>,
    key: FileVersion,
    i: int,
)
    requires
        forall|a: int, b: int|
            0 <= a < b < entries.len() ==> (#[trigger] entries[a]).0 != (#[trigger] entries[b]).0,
    ensures
        0 <= i < entries.len() ==> told(entries, entries[i].0) == Some(entries[i].1),
        (forall|a: int| 0 <= a < entries.len() ==> (#[trigger] entries[a]).0 != key) ==> told(
            entries,
            key,
        ) is None,
{
    assert(distinct(entries));
    if 0 <= i < entries.len() {
        lemma_told(entries, i);
    }
    if forall|a: int| 0 <= a < entries.len() ==> (#[trigger] entries[a]).0 != key {
        lemma_not_told(entries, key);
    }
}

/// Other files are remembered as before, but where more than 4096 are remembered: then those
/// that were told of a minute ago or earlier are forgotten.
pub proof fn law_other_files_are_remembered(
    before: Seq<(FileVersion, Instant)>,
    after: Seq<(FileVersion, Instant)>,
    key: FileVersion,
    now: Instant,
    other: FileVersion,
)
    requires
        noted(before, after, key, now),
        other != key,
    ensures
        told(after, key) == Some(now),
        before.len() <= 4096 ==> told(after, other) == told(before, other),
        told(before, other) is None ==> told(after, other) is None,
        told(before, other) matches Some(at) ==> now.nanos - at.nanos < 60 * 1_000_000_000 ==> told(
            after,
            other,
        ) == Some(at),
        told(before, other) matches Some(at) ==> before.len() > 4096 && now.nanos - at.nanos >= 60
            * 1_000_000_000 ==> told(after, other) is None,
{
}

} // verus!
