//! The registry of accepted pipelines.
//!
//! The registry is the one store of pipeline records. Its value is a map from
//! id to record; records enter through [`Registry::create`], change only their
//! state, through [`Registry::transition`], and never leave. Whoever shares a
//! registry between threads guards it as a whole: every operation here works
//! on a consistent table and hands out copies, never references into it.
//!
//! Beside the table the registry keeps the latest time at which it gave a
//! record its creation time, so that creation times never go back.

use crate::clock::next_instant;
use crate::models::pipeline::{LifecycleState, PipelineInfo, PipelineRecord, PipelineState};
use crate::text::same_text;
use vstd::prelude::*;

verus! {

/// The failure of an operation on an id that no record has.
#[derive(Debug, Clone, Copy, PartialEq, Eq, Structural)]
pub enum RegistryError {
    NotFound,
}

/// What a lookup of `id` in `table` gives.
pub open spec fn lookup(table: Map<Seq<char>, PipelineRecord>, id: Seq<char>) -> Option<
    PipelineRecord,
> {
    if table.contains_key(id) {
        Some(table[id])
    } else {
        None
    }
}

/// The table after `record` was stored under its id.
pub open spec fn stored(table: Map<Seq<char>, PipelineRecord>, record: PipelineRecord) -> Map<
    Seq<char>,
    PipelineRecord,
> {
    table.insert(record.id, record)
}

/// The table after the record `id` was moved to `state`, or `NotFound` where
/// the table has no such record. The state the record was in plays no part.
pub open spec fn transitioned(
    table: Map<Seq<char>, PipelineRecord>,
    id: Seq<char>,
    state: LifecycleState,
) -> Result<Map<Seq<char>, PipelineRecord>, RegistryError> {
    if table.contains_key(id) {
        Ok(table.insert(id, table[id].with_state(state)))
    } else {
        Err(RegistryError::NotFound)
    }
}

/// Whether `records` lists `table`: each record of the table once, under its
/// own id, and nothing else. The order is left open.
pub open spec fn lists(records: Seq<PipelineInfo>, table: Map<Seq<char>, PipelineRecord>) -> bool {
    &&& forall|i: int|
        0 <= i < records.len() ==> table.contains_key(#[trigger] records[i].id@) && table[records[i].id@]
            == records[i]@
    &&& forall|i: int, j: int|
        0 <= i < j < records.len() ==> #[trigger] records[i].id@ != #[trigger] records[j].id@
    &&& forall|id: Seq<char>| #[trigger]
        table.contains_key(id) ==> exists|i: int| 0 <= i < records.len() && records[i].id@ == id
}

/// Whether some record of `records` has the id `id`.
spec fn holds_id(records: Seq<PipelineInfo>, id: Seq<char>) -> bool {
    exists|i: int| 0 <= i < records.len() && #[trigger] records[i].id@ == id
}

/// The position in `records` of a record with the id `id`.
spec fn index_of(records: Seq<PipelineInfo>, id: Seq<char>) -> int {
    choose|i: int| 0 <= i < records.len() && #[trigger] records[i].id@ == id
}

/// Whether no two records of `records` share an id.
spec fn distinct_ids(records: Seq<PipelineInfo>) -> bool {
    forall|i: int, j: int|
        0 <= i < j < records.len() ==> #[trigger] records[i].id@ != #[trigger] records[j].id@
}

/// The map from id to record that `records` stands for.
spec fn table_of(records: Seq<PipelineInfo>) -> Map<Seq<char>, PipelineRecord> {
    Map::new(|id: Seq<char>| holds_id(records, id), |id: Seq<char>| records[index_of(records, id)]@)
}

proof fn lemma_table_entry(records: Seq<PipelineInfo>, i: int)
    requires
        distinct_ids(records),
        0 <= i < records.len(),
    ensures
        table_of(records).contains_key(records[i].id@),
        table_of(records)[records[i].id@] == records[i]@,
{
    let id = records[i].id@;
    assert(holds_id(records, id));
    let j = index_of(records, id);
    assert(0 <= j < records.len() && records[j].id@ == id);
    assert(j == i);
}

proof fn lemma_table_lists(records: Seq<PipelineInfo>)
    requires
        distinct_ids(records),
    ensures
        lists(records, table_of(records)),
{
    assert forall|i: int| 0 <= i < records.len() implies table_of(records).contains_key(
        #[trigger] records[i].id@,
    ) && table_of(records)[records[i].id@] == records[i]@ by {
        lemma_table_entry(records, i);
    }
}

proof fn lemma_table_replace(records: Seq<PipelineInfo>, i: int, record: PipelineInfo)
    requires
        distinct_ids(records),
        0 <= i < records.len(),
        record.id@ == records[i].id@,
    ensures
        distinct_ids(records.update(i, record)),
        table_of(records.update(i, record)) == table_of(records).insert(record.id@, record@),
{
    let after = records.update(i, record);
    assert(distinct_ids(after)) by {
        assert forall|a: int, b: int| 0 <= a < b < after.len() implies #[trigger] after[a].id@
            != #[trigger] after[b].id@ by {
            assert(after[a].id@ == records[a].id@);
            assert(after[b].id@ == records[b].id@);
        }
    }
    let expected = table_of(records).insert(record.id@, record@);
    assert forall|id: Seq<char>| table_of(after).contains_key(id) == expected.contains_key(
        id,
    ) by {
        if holds_id(after, id) {
            let k = index_of(after, id);
            assert(records[k].id@ == id);
        }
        if holds_id(records, id) {
            let k = index_of(records, id);
            assert(after[k].id@ == id);
        }
        assert(after[i].id@ == record.id@);
    }
    assert forall|id: Seq<char>| table_of(after).contains_key(id) implies table_of(after)[id]
        == expected[id] by {
        let k = index_of(after, id);
        lemma_table_entry(after, k);
        if k != i {
            assert(records[k].id@ == id);
            lemma_table_entry(records, k);
        }
    }
    assert(table_of(after) =~= expected);
}

proof fn lemma_table_push(records: Seq<PipelineInfo>, record: PipelineInfo)
    requires
        distinct_ids(records),
        !holds_id(records, record.id@),
    ensures
        distinct_ids(records.push(record)),
        table_of(records.push(record)) == table_of(records).insert(record.id@, record@),
{
    let after = records.push(record);
    let n = records.len() as int;
    assert(distinct_ids(after)) by {
        assert forall|a: int, b: int| 0 <= a < b < after.len() implies #[trigger] after[a].id@
            != #[trigger] after[b].id@ by {
            if b == n {
                assert(records[a].id@ != record.id@);
            }
        }
    }
    let expected = table_of(records).insert(record.id@, record@);
    assert forall|id: Seq<char>| table_of(after).contains_key(id) == expected.contains_key(
        id,
    ) by {
        if holds_id(after, id) {
            let k = index_of(after, id);
            if k < n {
                assert(records[k].id@ == id);
            }
        }
        if holds_id(records, id) {
            let k = index_of(records, id);
            assert(after[k].id@ == id);
        }
        assert(after[n].id@ == record.id@);
    }
    assert forall|id: Seq<char>| table_of(after).contains_key(id) implies table_of(after)[id]
        == expected[id] by {
        let k = index_of(after, id);
        lemma_table_entry(after, k);
        if k < n {
            assert(records[k].id@ == id);
            lemma_table_entry(records, k);
        }
    }
    assert(table_of(after) =~= expected);
}

/// A table that `records` lists is finite and has as many records as the
/// listing is long.
pub proof fn lemma_listing_length(records: Seq<PipelineInfo>, table: Map<Seq<char>, PipelineRecord>)
    requires
        lists(records, table),
    ensures
        table.dom().finite(),
        table.dom().len() == records.len(),
    decreases records.len(),
{
    if records.len() == 0 {
        assert(table.dom() =~= Set::empty());
    } else {
        let last = records.last();
        let rest = records.drop_last();
        let smaller = table.remove(last.id@);
        assert(lists(rest, smaller)) by {
            assert forall|i: int| 0 <= i < rest.len() implies smaller.contains_key(
                #[trigger] rest[i].id@,
            ) && smaller[rest[i].id@] == rest[i]@ by {
                assert(rest[i] == records[i]);
                assert(records[i].id@ != records[records.len() - 1].id@);
            }
            assert forall|i: int, j: int| 0 <= i < j < rest.len() implies #[trigger] rest[i].id@
                != #[trigger] rest[j].id@ by {
                assert(rest[i] == records[i]);
                assert(rest[j] == records[j]);
            }
            assert forall|id: Seq<char>| #[trigger] smaller.contains_key(id) implies exists|i: int|
                0 <= i < rest.len() && rest[i].id@ == id by {
                assert(table.contains_key(id));
                let i = choose|i: int| 0 <= i < records.len() && records[i].id@ == id;
                assert(rest[i] == records[i]);
            }
        }
        lemma_listing_length(rest, smaller);
        assert(table.contains_key(records[records.len() - 1].id@));
        assert(table.dom() =~= smaller.dom().insert(last.id@));
    }
}

/// The position in `records` of the record with the id `id`, if there is one.
fn position(records: &Vec<PipelineInfo>, id: &str) -> (found: Option<usize>)
    ensures
        match found {
            Some(i) => i < records@.len() && records@[i as int].id@ == id@,
            None => !holds_id(records@, id@),
        },
{
    let mut i: usize = 0;
    while i < records.len()
        invariant
            i <= records@.len(),
            forall|j: int| 0 <= j < i ==> (#[trigger] records@[j]).id@ != id@,
        decreases records@.len() - i,
    {
        if same_text(records[i].id.as_str(), id) {
            return Some(i);
        }
        i += 1;
    }
    None
}

/// Records never leave: whatever is stored or moved, every id that the table
/// had it still has.
pub proof fn law_records_never_leave(
    table: Map<Seq<char>, PipelineRecord>,
    record: PipelineRecord,
    id: Seq<char>,
    state: LifecycleState,
    known: Seq<char>,
)
    requires
        table.contains_key(known),
    ensures
        stored(table, record).contains_key(known),
        transitioned(table, id, state) matches Ok(after) ==> after.contains_key(known)
            && after.dom() == table.dom(),
{
    if table.contains_key(id) {
        let after = transitioned(table, id, state)->Ok_0;
        assert(after.dom() =~= table.dom());
    }
}

/// A transition changes the state of one record and nothing else: the other
/// records stay as they are, and so does the rest of the record that moved.
pub proof fn law_transition_changes_state_only(
    table: Map<Seq<char>, PipelineRecord>,
    id: Seq<char>,
    state: LifecycleState,
    other: Seq<char>,
)
    requires
        table.contains_key(id),
        other != id,
    ensures
        transitioned(table, id, state) matches Ok(after) && lookup(after, other) == lookup(
            table,
            other,
        ) && after[id] == (PipelineRecord { state, ..table[id] }),
{
}

/// The store of pipeline records, keyed by id.
pub struct Registry {
    records: Vec<PipelineInfo>,
    latest_ns: i64,
}

impl View for Registry {
    type V = Map<Seq<char>, PipelineRecord>;

    closed spec fn view(&self) -> Map<Seq<char>, PipelineRecord> {
        table_of(self.records@)
    }
}

impl Registry {
    #[verifier::type_invariant]
    spec fn well_formed(self) -> bool {
        distinct_ids(self.records@)
    }

    /// The latest creation time that the registry has given out, in
    /// nanoseconds since the start of 1970; the least count where it has
    /// given none.
    pub closed spec fn latest(&self) -> int {
        self.latest_ns as int
    }

    /// A registry without records, which has given out no creation time.
    pub fn new() -> (registry: Self)
        ensures
            registry@ == Map::<Seq<char>, PipelineRecord>::empty(),
            registry.latest() == i64::MIN,
    {
        let registry = Registry { records: Vec::new(), latest_ns: i64::MIN };
        assert(registry@ =~= Map::<Seq<char>, PipelineRecord>::empty());
        registry
    }

    /// Every record is kept under its own id.
    pub proof fn law_records_are_keyed_by_id(&self)
        ensures
            forall|id: Seq<char>| self@.contains_key(id) ==> (#[trigger] self@[id]).id == id,
    {
        assert forall|id: Seq<char>| self@.contains_key(id) implies (#[trigger] self@[id]).id
            == id by {
            assert(holds_id(self.records@, id));
            let i = index_of(self.records@, id);
            assert(self.records@[i].id@ == id);
        }
    }

    /// The latest creation time that the registry has given out.
    pub fn latest_instant(&self) -> (instant: i64)
        ensures
            instant == self.latest(),
    {
        self.latest_ns
    }

    /// Whether a record has the id `id`.
    pub fn contains(&self, id: &str) -> (b: bool)
        ensures
            b == self@.contains_key(id@),
    {
        proof {
            use_type_invariant(self);
        }
        match position(&self.records, id) {
            Some(i) => {
                proof {
                    lemma_table_entry(self.records@, i as int);
                }
                true
            },
            None => false,
        }
    }

    /// Gives out the creation time of a record that is created when the
    /// clock reads `reading`: the reading, or the latest creation time where
    /// the reading lies before it. The table stays as it is.
    pub fn stamp(&mut self, reading: i64) -> (instant: i64)
        ensures
            instant == next_instant(old(self).latest(), reading as int),
            final(self).latest() == instant,
            final(self)@ == old(self)@,
    {
        proof {
            use_type_invariant(&*self);
        }
        let instant = if reading < self.latest_ns {
            self.latest_ns
        } else {
            reading
        };
        self.latest_ns = instant;
        instant
    }

    /// The number of records.
    pub fn len(&self) -> (n: usize)
        ensures
            self@.dom().finite(),
            n == self@.dom().len(),
    {
        proof {
            use_type_invariant(self);
            lemma_table_lists(self.records@);
            lemma_listing_length(self.records@, self@);
        }
        self.records.len()
    }

    /// Stores `record` under its id, whatever stood there before, and returns
    /// the stored record.
    pub fn create(&mut self, record: PipelineInfo) -> (kept: PipelineInfo)
        ensures
            final(self)@ == stored(old(self)@, record@),
            final(self).latest() == old(self).latest(),
            kept@ == record@,
    {
        proof {
            use_type_invariant(&*self);
        }
        let kept = record.clone();
        let mut records: Vec<PipelineInfo> = Vec::new();
        std::mem::swap(&mut records, &mut self.records);
        match position(&records, record.id.as_str()) {
            Some(i) => {
                proof {
                    lemma_table_replace(records@, i as int, record);
                }
                records.set(i, record);
            },
            None => {
                proof {
                    lemma_table_push(records@, record);
                }
                records.push(record);
            },
        }
        self.records = records;
        kept
    }

    /// A copy of the record with the id `id`, if there is one.
    pub fn get(&self, id: &str) -> (found: Option<PipelineInfo>)
        ensures
            match found {
                Some(record) => lookup(self@, id@) == Some(record@),
                None => lookup(self@, id@) is None,
            },
    {
        proof {
            use_type_invariant(self);
        }
        match position(&self.records, id) {
            Some(i) => {
                proof {
                    lemma_table_entry(self.records@, i as int);
                }
                Some(self.records[i].clone())
            },
            None => None,
        }
    }

    /// Copies of all records, each once, in no particular order.
    pub fn list(&self) -> (all: Vec<PipelineInfo>)
        ensures
            lists(all@, self@),
            self@.dom().finite(),
            all@.len() == self@.dom().len(),
    {
        proof {
            use_type_invariant(self);
        }
        let mut all: Vec<PipelineInfo> = Vec::new();
        let mut i: usize = 0;
        while i < self.records.len()
            invariant
                i <= self.records@.len(),
                all@ == self.records@.take(i as int),
            decreases self.records@.len() - i,
        {
            all.push(self.records[i].clone());
            i += 1;
        }
        proof {
            assert(all@ == self.records@);
            lemma_table_lists(self.records@);
            lemma_listing_length(self.records@, self@);
        }
        all
    }

    /// Moves the record with the id `id` to `new_state`, whatever state it was
    /// in; fails with `NotFound`, and changes nothing, where no record has
    /// that id.
    pub fn transition(&mut self, id: &str, new_state: PipelineState) -> (r: Result<
        (),
        RegistryError,
    >)
        ensures
            match r {
                Ok(()) => transitioned(old(self)@, id@, new_state@) == Ok::<
                    Map<Seq<char>, PipelineRecord>,
                    RegistryError,
                >(final(self)@),
                Err(e) => e == RegistryError::NotFound && transitioned(old(self)@, id@, new_state@)
                    is Err && final(self)@ == old(self)@,
            },
            final(self).latest() == old(self).latest(),
    {
        proof {
            use_type_invariant(&*self);
        }
        let mut records: Vec<PipelineInfo> = Vec::new();
        std::mem::swap(&mut records, &mut self.records);
        let found = position(&records, id);
        let r = match found {
            Some(i) => {
                let current = &records[i];
                let moved = PipelineInfo {
                    id: current.id.clone(),
                    description: current.description.clone(),
                    state: new_state,
                    pipeline_string: current.pipeline_string.clone(),
                    created_at: current.created_at.clone(),
                    source_url: match &current.source_url {
                        Some(s) => Some(s.clone()),
                        None => None,
                    },
                };
                proof {
                    lemma_table_entry(records@, i as int);
                    lemma_table_replace(records@, i as int, moved);
                    assert(moved@ == records@[i as int]@.with_state(new_state@));
                }
                records.set(i, moved);
                Ok(())
            },
            None => Err(RegistryError::NotFound),
        };
        self.records = records;
        r
    }
}

} // verus!
