//! Seen-item store: which item identifiers have already been alerted on.

use vstd::prelude::*;
use vstd::hash_map::StringHashMap;

verus! {

/// One record of a durable snapshot: an item identifier and the item's own time
/// in seconds since the Unix epoch.
#[derive(Debug, PartialEq, Eq)]
pub struct Entry {
    pub id: String,
    pub timestamp: i64,
}

impl Clone for Entry {
    fn clone(&self) -> (r: Entry)
        ensures
            r == *self,
    {
        Entry { id: self.id.clone(), timestamp: self.timestamp }
    }
}

impl View for Entry {
    type V = (Seq<char>, i64);

    open spec fn view(&self) -> (Seq<char>, i64) {
        (self.id@, self.timestamp)
    }
}

/// What reading the durable snapshot came back with.
#[derive(Debug)]
pub enum Snapshot {
    /// There is no snapshot file.
    Missing,
    /// The file exists but could not be read.
    Unreadable,
    /// The file was read but is not a sequence of records.
    Malformed,
    /// The records of the file, in file order.
    Records(Vec<Entry>),
}

/// Why a load failed.
#[derive(Debug, Clone, Copy, PartialEq, Eq, Structural)]
pub enum LoadError {
    /// The snapshot is not a sequence of records.
    Deserialization,
}

/// How a load ends: a missing or unreadable file is no error, a malformed one
/// is, and a file of records never is.
pub open spec fn load_outcome(snapshot: Snapshot) -> Result<(), LoadError> {
    match snapshot {
        Snapshot::Malformed => Err(LoadError::Deserialization),
        _ => Ok(()),
    }
}

/// `base` after the records of `records` that are not older than `cutoff` have
/// been written over it in order.
pub open spec fn retained(base: Map<Seq<char>, i64>, records: Seq<Entry>, cutoff: int) -> Map<
    Seq<char>,
    i64,
>
    decreases records.len(),
{
    if records.len() == 0 {
        base
    } else {
        let before = retained(base, records.drop_last(), cutoff);
        if records.last().timestamp >= cutoff {
            before.insert(records.last().id@, records.last().timestamp)
        } else {
            before
        }
    }
}

/// The store after a load at the clock time `now`: the records that are not
/// older than `now` less the retention window written over what the store
/// held; what it held, where the file gave no records.
pub open spec fn loaded(base: Map<Seq<char>, i64>, snapshot: Snapshot, now: u64, retention: u64) -> Map<
    Seq<char>,
    i64,
> {
    match snapshot {
        Snapshot::Records(records) => retained(base, records@, now - retention),
        _ => base,
    }
}

/// Whether `records` is a snapshot of `store`: every record is a pair of the
/// store, every pair of the store has its record, and no identifier has two.
pub open spec fn is_snapshot_of(records: Seq<Entry>, store: Map<Seq<char>, i64>) -> bool {
    &&& forall|i: int|
        0 <= i < records.len() ==> store.contains_key((#[trigger] records[i]).id@)
            && store[records[i].id@] == records[i].timestamp
    &&& forall|k: Seq<char>|
        store.contains_key(k) ==> exists|i: int|
            0 <= i < records.len() && (#[trigger] records[i]).id@ == k
    &&& forall|i: int, j: int|
        0 <= i < j < records.len() ==> (#[trigger] records[i]).id@ != (#[trigger] records[j]).id@
}

/// The in-memory store of one source. Its view is the mapping from identifier
/// to timestamp.
pub struct Manager {
    file_path: String,
    seen_ids: StringHashMap<i64>,
    order: Vec<String>,
    memory_duration: u64,
}

impl View for Manager {
    type V = Map<Seq<char>, i64>;

    closed spec fn view(&self) -> Map<Seq<char>, i64> {
        self.seen_ids@
    }
}

impl Manager {
    /// Well-formedness: the list of keys holds every key of the map exactly
    /// once. Every constructor establishes it and every method keeps it.
    pub closed spec fn wf(&self) -> bool {
        &&& forall|i: int, j: int|
            0 <= i < j < self.order@.len() ==> self.order@[i]@ != self.order@[j]@
        &&& forall|i: int|
            0 <= i < self.order@.len() ==> self.seen_ids@.contains_key(#[trigger] self.order@[i]@)
        &&& forall|k: Seq<char>|
            self.seen_ids@.contains_key(k) ==> exists|i: int|
                0 <= i < self.order@.len() && #[trigger] self.order@[i]@ == k
    }

    /// Path of the durable snapshot of this store.
    pub closed spec fn path(&self) -> Seq<char> {
        self.file_path@
    }

    /// Retention window in seconds.
    pub closed spec fn retention(&self) -> u64 {
        self.memory_duration
    }

    /// An empty store whose snapshot lives at `file_name` and whose records are
    /// honoured for `memory_duration` seconds.
    pub fn new(file_name: String, memory_duration: u64) -> (r: Manager)
        ensures
            r.wf(),
            r@ == Map::<Seq<char>, i64>::empty(),
            r.path() == file_name@,
            r.retention() == memory_duration,
    {
        Manager {
            file_path: file_name,
            seen_ids: StringHashMap::new(),
            order: Vec::new(),
            memory_duration,
        }
    }

    /// Path of the durable snapshot of this store.
    pub fn file_path(&self) -> (r: &str)
        ensures
            r@ == self.path(),
    {
        self.file_path.as_str()
    }

    /// Retention window in seconds.
    pub fn memory_duration(&self) -> (r: u64)
        ensures
            r == self.retention(),
    {
        self.memory_duration
    }

    /// Whether `id` has been recorded.
    pub fn is_seen(&self, id: &str) -> (r: bool)
        ensures
            r == self@.contains_key(id@),
    {
        self.seen_ids.contains_key(id)
    }

    /// Records `id` with `timestamp`, replacing an earlier timestamp of the
    /// same identifier.
    pub fn add(&mut self, id: String, timestamp: i64)
        requires
            old(self).wf(),
        ensures
            final(self).wf(),
            final(self)@ == old(self)@.insert(id@, timestamp),
            final(self).path() == old(self).path(),
            final(self).retention() == old(self).retention(),
    {
        let ghost before = *self;
        if !self.seen_ids.contains_key(id.as_str()) {
            self.order.push(id.clone());
        }
        self.seen_ids.insert(id, timestamp);
        proof {
            assert forall|k: Seq<char>| self.seen_ids@.contains_key(k) implies exists|i: int|
                0 <= i < self.order@.len() && #[trigger] self.order@[i]@ == k by {
                if before.seen_ids@.contains_key(k) {
                    let i = choose|i: int|
                        0 <= i < before.order@.len() && #[trigger] before.order@[i]@ == k;
                    assert(self.order@[i]@ == k);
                } else {
                    assert(self.order@[before.order@.len() as int]@ == k);
                }
            }
        }
    }

    /// Takes in what reading the durable snapshot came back with, at the
    /// clock time `now` in seconds since the Unix epoch.
    ///
    /// A missing or unreadable file leaves the store as it is and is no error.
    /// A malformed file is an error and leaves the store as it is. Records are
    /// written over the store, but for those older than `now` less the
    /// retention window; where the window reaches back beyond the epoch, the
    /// cutoff is negative.
    pub fn load(&mut self, snapshot: Snapshot, now: u64) -> (r: Result<(), LoadError>)
        requires
            old(self).wf(),
        ensures
            final(self).wf(),
            r == load_outcome(snapshot),
            final(self)@ == loaded(old(self)@, snapshot, now, old(self).retention()),
            final(self).path() == old(self).path(),
            final(self).retention() == old(self).retention(),
    {
        match snapshot {
            Snapshot::Missing => Ok(()),
            Snapshot::Unreadable => Ok(()),
            Snapshot::Malformed => Err(LoadError::Deserialization),
            Snapshot::Records(records) => {
                let cutoff: i128 = now as i128 - self.memory_duration as i128;
                let ghost base = self@;
                let ghost all = records@;
                for entry in iter: records.into_iter()
                    invariant
                        iter.seq() == all,
                        self.wf(),
                        self.path() == old(self).path(),
                        self.retention() == old(self).retention(),
                        self@ == retained(base, all.take(iter.index()), cutoff as int),
                {
                    proof {
                        assert(all.take(iter.index() + 1).drop_last() == all.take(iter.index()));
                    }
                    if entry.timestamp as i128 >= cutoff {
                        self.add(entry.id, entry.timestamp);
                    }
                }
                proof {
                    assert(all.take(all.len() as int) == all);
                }
                Ok(())
            },
        }
    }

    /// The records to write as the durable snapshot: one for every identifier
    /// of the store.
    pub fn save(&self) -> (r: Vec<Entry>)
        requires
            self.wf(),
        ensures
            is_snapshot_of(r@, self@),
    {
        let mut out: Vec<Entry> = Vec::new();
        let n = self.order.len();
        let mut i: usize = 0;
        while i < n
            invariant
                self.wf(),
                n == self.order@.len(),
                i <= n,
                out@.len() == i,
                forall|j: int|
                    0 <= j < i ==> (#[trigger] out@[j]).id@ == self.order@[j]@ && out@[j].timestamp
                        == self.seen_ids@[self.order@[j]@],
            decreases n - i,
        {
            let id = self.order[i].clone();
            let timestamp: i64 = match self.seen_ids.get(id.as_str()) {
                Some(t) => *t,
                None => vstd::pervasive::unreached(),
            };
            out.push(Entry { id, timestamp });
            i += 1;
        }
        proof {
            assert forall|k: Seq<char>| self@.contains_key(k) implies exists|j: int|
                0 <= j < out@.len() && (#[trigger] out@[j]).id@ == k by {
                let j = choose|j: int| 0 <= j < self.order@.len() && #[trigger] self.order@[j]@ == k;
                assert(out@[j].id@ == k);
            }
        }
        out
    }
}

/// The store after the pairs of `adds` have been added to `base` in order.
pub open spec fn added(base: Map<Seq<char>, i64>, adds: Seq<(Seq<char>, i64)>) -> Map<
    Seq<char>,
    i64,
>
    decreases adds.len(),
{
    if adds.len() == 0 {
        base
    } else {
        added(base, adds.drop_last()).insert(adds.last().0, adds.last().1)
    }
}

/// An identifier is seen exactly from its first add on: after any run of adds
/// to an empty store, the store holds the identifiers that were added and no
/// others.
pub proof fn lemma_seen_exactly_the_added(adds: Seq<(Seq<char>, i64)>, id: Seq<char>)
    ensures
        added(Map::empty(), adds).contains_key(id) <==> exists|i: int|
            0 <= i < adds.len() && (#[trigger] adds[i]).0 == id,
    decreases adds.len(),
{
    if adds.len() > 0 {
        let rest = adds.drop_last();
        lemma_seen_exactly_the_added(rest, id);
        if exists|i: int| 0 <= i < rest.len() && (#[trigger] rest[i]).0 == id {
            let i = choose|i: int| 0 <= i < rest.len() && (#[trigger] rest[i]).0 == id;
            assert(adds[i].0 == id);
        }
        if exists|i: int| 0 <= i < adds.len() && (#[trigger] adds[i]).0 == id {
            let i = choose|i: int| 0 <= i < adds.len() && (#[trigger] adds[i]).0 == id;
            if i < rest.len() {
                assert(rest[i].0 == id);
            }
        }
    }
}

/// After a load the store holds an identifier exactly if it held it before or
/// a record within the retention window carries it.
pub proof fn lemma_retained_contains(
    base: Map<Seq<char>, i64>,
    records: Seq<Entry>,
    cutoff: int,
    id: Seq<char>,
)
    ensures
        retained(base, records, cutoff).contains_key(id) <==> (base.contains_key(id) || exists|
            i: int,
        |
            0 <= i < records.len() && (#[trigger] records[i]).id@ == id && records[i].timestamp
                >= cutoff),
    decreases records.len(),
{
    if records.len() > 0 {
        let rest = records.drop_last();
        lemma_retained_contains(base, rest, cutoff, id);
        if exists|i: int|
            0 <= i < rest.len() && (#[trigger] rest[i]).id@ == id && rest[i].timestamp >= cutoff {
            let i = choose|i: int|
                0 <= i < rest.len() && (#[trigger] rest[i]).id@ == id && rest[i].timestamp
                    >= cutoff;
            assert(records[i].id@ == id);
        }
        if exists|i: int|
            0 <= i < records.len() && (#[trigger] records[i]).id@ == id && records[i].timestamp
                >= cutoff {
            let i = choose|i: int|
                0 <= i < records.len() && (#[trigger] records[i]).id@ == id
                    && records[i].timestamp >= cutoff;
            if i < rest.len() {
                assert(rest[i].id@ == id);
            }
        }
    }
}

/// A load gives an identifier the time of the last record within the window
/// that carries it.
pub proof fn lemma_retained_value(
    base: Map<Seq<char>, i64>,
    records: Seq<Entry>,
    cutoff: int,
    i: int,
)
    requires
        0 <= i < records.len(),
        records[i].timestamp >= cutoff,
        forall|j: int|
            i < j < records.len() && (#[trigger] records[j]).id@ == records[i].id@
                ==> records[j].timestamp < cutoff,
    ensures
        retained(base, records, cutoff).contains_key(records[i].id@),
        retained(base, records, cutoff)[records[i].id@] == records[i].timestamp,
    decreases records.len(),
{
    if i < records.len() - 1 {
        let rest = records.drop_last();
        assert(rest[i] == records[i]);
        assert forall|j: int|
            i < j < rest.len() && (#[trigger] rest[j]).id@ == rest[i].id@ implies rest[j].timestamp
            < cutoff by {
            assert(records[j].id@ == records[i].id@);
        }
        lemma_retained_value(base, rest, cutoff, i);
        let last = records.len() - 1;
        if records[last].id@ == records[i].id@ {
            assert(records[last].timestamp < cutoff);
        }
    }
}

/// A load never brings back a record that is older than the retention
/// window: an identifier that the store did not hold, and that only records
/// older than the cutoff carry, is not in the store afterwards.
pub proof fn lemma_expired_stay_out(
    base: Map<Seq<char>, i64>,
    records: Seq<Entry>,
    cutoff: int,
    id: Seq<char>,
)
    requires
        !base.contains_key(id),
        forall|i: int|
            0 <= i < records.len() && (#[trigger] records[i]).id@ == id ==> records[i].timestamp
                < cutoff,
    ensures
        !retained(base, records, cutoff).contains_key(id),
{
    lemma_retained_contains(base, records, cutoff, id);
}

/// Every time that a load into an empty store records is within the window.
pub proof fn lemma_retained_within_window(records: Seq<Entry>, cutoff: int, id: Seq<char>)
    requires
        retained(Map::empty(), records, cutoff).contains_key(id),
    ensures
        retained(Map::empty(), records, cutoff)[id] >= cutoff,
    decreases records.len(),
{
    if records.len() > 0 {
        let rest = records.drop_last();
        if !(records.last().timestamp >= cutoff && records.last().id@ == id) {
            lemma_retained_within_window(rest, cutoff, id);
        }
    }
}

/// Loading a snapshot into an empty store and saving it at once gives the
/// snapshot back, in some order, less the records older than the retention
/// window; and loading what was saved gives the same store again. This holds
/// of a snapshot in which no identifier occurs twice, as every saved snapshot
/// is.
pub proof fn lemma_load_then_save(records: Seq<Entry>, cutoff: int, saved: Seq<Entry>)
    requires
        forall|i: int, j: int|
            0 <= i < j < records.len() ==> (#[trigger] records[i]).id@ != (
            #[trigger] records[j]).id@,
        is_snapshot_of(saved, retained(Map::empty(), records, cutoff)),
    ensures
        forall|e: (Seq<char>, i64)|
            saved.map_values(|r: Entry| r@).contains(e) <==> (records.map_values(
                |r: Entry| r@,
            ).contains(e) && e.1 >= cutoff),
        retained(Map::empty(), saved, cutoff) == retained(Map::empty(), records, cutoff),
{
    let store = retained(Map::empty(), records, cutoff);
    let saved_views = saved.map_values(|r: Entry| r@);
    let record_views = records.map_values(|r: Entry| r@);
    assert forall|e: (Seq<char>, i64)| saved_views.contains(e) implies record_views.contains(e)
        && e.1 >= cutoff by {
        let s = choose|s: int| 0 <= s < saved_views.len() && saved_views[s] == e;
        assert(saved[s]@ == e);
        lemma_retained_contains(Map::empty(), records, cutoff, e.0);
        let i = choose|i: int|
            0 <= i < records.len() && (#[trigger] records[i]).id@ == e.0 && records[i].timestamp
                >= cutoff;
        lemma_retained_value(Map::empty(), records, cutoff, i);
        assert(record_views[i] == e);
    }
    assert forall|e: (Seq<char>, i64)| record_views.contains(e) && e.1 >= cutoff implies saved_views.contains(
        e,
    ) by {
        let i = choose|i: int| 0 <= i < record_views.len() && record_views[i] == e;
        assert(records[i]@ == e);
        lemma_retained_value(Map::empty(), records, cutoff, i);
        let s = choose|s: int| 0 <= s < saved.len() && (#[trigger] saved[s]).id@ == e.0;
        assert(saved_views[s] == e);
    }
    let again = retained(Map::empty(), saved, cutoff);
    assert forall|k: Seq<char>| again.contains_key(k) <==> store.contains_key(k) by {
        lemma_retained_contains(Map::empty(), saved, cutoff, k);
        if store.contains_key(k) {
            let s = choose|s: int| 0 <= s < saved.len() && (#[trigger] saved[s]).id@ == k;
            lemma_retained_within_window(records, cutoff, k);
        }
    }
    assert forall|k: Seq<char>| again.contains_key(k) implies again[k] == store[k] by {
        let s = choose|s: int| 0 <= s < saved.len() && (#[trigger] saved[s]).id@ == k;
        lemma_retained_within_window(records, cutoff, k);
        lemma_retained_value(Map::empty(), saved, cutoff, s);
    }
    assert(again =~= store);
}

/// Saving a store and loading what was saved into an empty store gives the
/// same store, where every time of the store is within the retention window.
pub proof fn lemma_save_then_load(store: Map<Seq<char>, i64>, saved: Seq<Entry>, cutoff: int)
    requires
        is_snapshot_of(saved, store),
        forall|id: Seq<char>| store.contains_key(id) ==> #[trigger] store[id] >= cutoff,
    ensures
        retained(Map::empty(), saved, cutoff) == store,
{
    let again = retained(Map::empty(), saved, cutoff);
    assert forall|k: Seq<char>| again.contains_key(k) <==> store.contains_key(k) by {
        lemma_retained_contains(Map::empty(), saved, cutoff, k);
        if store.contains_key(k) {
            let s = choose|s: int| 0 <= s < saved.len() && (#[trigger] saved[s]).id@ == k;
            assert(store[k] >= cutoff);
        }
    }
    assert forall|k: Seq<char>| again.contains_key(k) implies again[k] == store[k] by {
        let s = choose|s: int| 0 <= s < saved.len() && (#[trigger] saved[s]).id@ == k;
        assert(store[k] >= cutoff);
        lemma_retained_value(Map::empty(), saved, cutoff, s);
    }
    assert(again =~= store);
}

} // verus!
