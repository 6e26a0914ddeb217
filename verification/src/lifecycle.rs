//! Submission of pipelines: how a pipeline is accepted.
//!
//! A submission is validated first, and only a valid one is recorded, in
//! state `Created`, under an id that no record has yet, and with a creation
//! time no earlier than that of any record accepted before. A refused
//! submission leaves the registry as it was. [`Registry::create`] stores
//! without asking; whoever calls it directly answers for the id.

use crate::clock::{law_creation_times_do_not_go_back, next_instant, to_reading};
use crate::models::pipeline::{
    optional_text, LifecycleState, PipelineInfo, PipelineRecord, PipelineState,
};
use crate::platform::{
    clock_nanos, random_id, rfc3339_of, rfc3339_text, ID_LENGTH, MIN_TIMESTAMP_LENGTH,
};
use crate::registry::{
    lemma_listing_length, lists, lookup, stored, transitioned, Registry, RegistryError,
};
use crate::services::validation::{
    validate_pipeline_string, validated, EngineVerdict, ValidationError, ValidationFault,
};
use vstd::prelude::*;

verus! {

/// How many ids a submission draws at most before it gives up.
pub const ID_DRAWS: usize = 8;

/// Why a submission was refused.
#[derive(Debug)]
pub enum SubmissionError {
    /// The description did not pass validation.
    Invalid(ValidationError),
    /// A record has the id already: the id that was given, or each of the
    /// ids that were drawn.
    IdInUse,
}

/// The mathematical value of a [`SubmissionError`].
pub enum SubmissionFault {
    Invalid(ValidationFault),
    IdInUse,
}

impl View for SubmissionError {
    type V = SubmissionFault;

    open spec fn view(&self) -> SubmissionFault {
        match self {
            SubmissionError::Invalid(e) => SubmissionFault::Invalid(e@),
            SubmissionError::IdInUse => SubmissionFault::IdInUse,
        }
    }
}

impl SubmissionFault {
    /// The text that tells a client what is wrong.
    pub open spec fn message(self) -> Seq<char> {
        match self {
            SubmissionFault::Invalid(fault) => fault.message(),
            SubmissionFault::IdInUse => "Pipeline id is already in use"@,
        }
    }
}

impl SubmissionError {
    /// The text that tells a client what is wrong.
    pub fn message(&self) -> (text: String)
        ensures
            text@ == self@.message(),
    {
        match self {
            SubmissionError::Invalid(e) => e.message(),
            SubmissionError::IdInUse => String::from_str("Pipeline id is already in use"),
        }
    }
}

/// The record of a pipeline that was just accepted.
pub open spec fn fresh_record(
    id: Seq<char>,
    created_at: Seq<char>,
    descriptor: Seq<char>,
    description: Seq<char>,
    source_locator: Option<Seq<char>>,
) -> PipelineRecord {
    PipelineRecord {
        id,
        description,
        state: LifecycleState::Created,
        descriptor,
        created_at,
        source_locator,
    }
}

/// Why the submission of the description `descriptor` under the id `id` is
/// refused, if it is. Validation comes first; of a valid submission the id
/// must be one that no record has.
pub open spec fn refusal(
    table: Map<Seq<char>, PipelineRecord>,
    id: Seq<char>,
    descriptor: Seq<char>,
    engine: EngineVerdict,
) -> Option<SubmissionFault> {
    match validated(descriptor, engine) {
        Err(fault) => Some(SubmissionFault::Invalid(fault)),
        Ok(()) => if table.contains_key(id) {
            Some(SubmissionFault::IdInUse)
        } else {
            None
        },
    }
}

/// The table after the submission of `record`, of whose description the
/// engine said `engine`, or why the submission is refused.
pub open spec fn submitted(
    table: Map<Seq<char>, PipelineRecord>,
    record: PipelineRecord,
    engine: EngineVerdict,
) -> Result<Map<Seq<char>, PipelineRecord>, SubmissionFault> {
    match refusal(table, record.id, record.descriptor, engine) {
        Some(fault) => Err(fault),
        None => Ok(stored(table, record)),
    }
}

/// Submits a pipeline under the id `id`, while the clock reads `reading`.
///
/// `engine` is what the engine's parser said of `descriptor`. The submission
/// succeeds if and only if the description is valid and no record has the
/// id. The pipeline is then recorded in state `Created`, created at the
/// reading or, where that lies before it, at the latest creation time so
/// far. A refused submission changes nothing.
pub fn submit_as(
    registry: &mut Registry,
    id: String,
    reading: i64,
    descriptor: String,
    description: String,
    source_locator: Option<String>,
    engine: &EngineVerdict,
) -> (r: Result<PipelineInfo, SubmissionError>)
    ensures
        match r {
            Ok(record) => {
                &&& refusal(old(registry)@, id@, descriptor@, *engine) is None
                &&& record@ == fresh_record(
                    id@,
                    record.created_at@,
                    descriptor@,
                    description@,
                    optional_text(source_locator),
                )
                &&& final(registry)@ == stored(old(registry)@, record@)
                &&& final(registry).latest() == next_instant(
                    old(registry).latest(),
                    reading as int,
                )
                &&& record.created_at@ == rfc3339_of(final(registry).latest())
                &&& record.created_at@.len() >= MIN_TIMESTAMP_LENGTH
            },
            Err(e) => {
                &&& refusal(old(registry)@, id@, descriptor@, *engine) == Some(e@)
                &&& final(registry)@ == old(registry)@
                &&& final(registry).latest() == old(registry).latest()
            },
        },
{
    match validate_pipeline_string(descriptor.as_str(), engine) {
        Err(e) => Err(SubmissionError::Invalid(e)),
        Ok(()) => {
            if registry.contains(id.as_str()) {
                Err(SubmissionError::IdInUse)
            } else {
                let instant = registry.stamp(reading);
                let record = PipelineInfo {
                    id,
                    description,
                    state: PipelineState::Created,
                    pipeline_string: descriptor,
                    created_at: rfc3339_text(instant),
                    source_url: source_locator,
                };
                Ok(registry.create(record))
            }
        },
    }
}

/// Draws random ids until one comes that no record has, `ID_DRAWS` times at
/// most. It gives up only after a drawn id was found in use, so never on a
/// registry without records.
fn draw_fresh_id(registry: &Registry) -> (drawn: Option<String>)
    ensures
        drawn matches Some(id) ==> !registry@.contains_key(id@) && id@.len() == ID_LENGTH,
        drawn is None ==> registry@ != Map::<Seq<char>, PipelineRecord>::empty(),
{
    let mut draws: usize = 0;
    while draws < ID_DRAWS
        invariant
            draws <= ID_DRAWS,
            draws > 0 ==> registry@ != Map::<Seq<char>, PipelineRecord>::empty(),
        decreases ID_DRAWS - draws,
    {
        let id = random_id();
        if !registry.contains(id.as_str()) {
            return Some(id);
        }
        draws += 1;
    }
    None
}

/// Submits a pipeline under a fresh random id, created now.
///
/// `engine` is what the engine's parser said of `descriptor`. An invalid
/// submission is always refused as invalid. A valid one is recorded in state
/// `Created`, with the description, the label and the source as given, under
/// an id that no record had, and created no earlier than any record accepted
/// before; the record is returned. On a registry without records a valid
/// submission always succeeds. On any other it is refused only where every
/// id that was drawn is in use. A refused submission changes nothing.
pub fn submit(
    registry: &mut Registry,
    descriptor: String,
    description: String,
    source_locator: Option<String>,
    engine: &EngineVerdict,
) -> (r: Result<PipelineInfo, SubmissionError>)
    ensures
        validated(descriptor@, *engine) matches Err(fault) ==> (r matches Err(e) && e@
            == SubmissionFault::Invalid(fault)),
        validated(descriptor@, *engine) is Ok && old(registry)@ == Map::<
            Seq<char>,
            PipelineRecord,
        >::empty() ==> r is Ok,
        match r {
            Ok(record) => {
                &&& validated(descriptor@, *engine) is Ok
                &&& !old(registry)@.contains_key(record.id@)
                &&& record.id@.len() == ID_LENGTH
                &&& record@ == fresh_record(
                    record.id@,
                    record.created_at@,
                    descriptor@,
                    description@,
                    optional_text(source_locator),
                )
                &&& final(registry)@ == stored(old(registry)@, record@)
                &&& final(registry).latest() >= old(registry).latest()
                &&& record.created_at@ == rfc3339_of(final(registry).latest())
                &&& record.created_at@.len() >= MIN_TIMESTAMP_LENGTH
            },
            Err(e) => {
                &&& e@ is IdInUse ==> validated(descriptor@, *engine) is Ok && old(registry)@
                    != Map::<Seq<char>, PipelineRecord>::empty()
                &&& e@ matches SubmissionFault::Invalid(fault) ==> validated(descriptor@, *engine)
                    == Err::<(), ValidationFault>(fault)
                &&& final(registry)@ == old(registry)@
                &&& final(registry).latest() == old(registry).latest()
            },
        },
{
    match draw_fresh_id(registry) {
        Some(id) => {
            let reading = to_reading(clock_nanos());
            proof {
                law_creation_times_do_not_go_back(registry.latest(), reading as int, 0);
            }
            submit_as(registry, id, reading, descriptor, description, source_locator, engine)
        },
        None => match validate_pipeline_string(descriptor.as_str(), engine) {
            Err(e) => Err(SubmissionError::Invalid(e)),
            Ok(()) => Err(SubmissionError::IdInUse),
        },
    }
}

/// The table after the records of `records` were stored in `table`, one
/// after the other.
pub open spec fn stored_all(table: Map<Seq<char>, PipelineRecord>, records: Seq<PipelineRecord>) -> Map<
    Seq<char>,
    PipelineRecord,
>
    decreases records.len(),
{
    if records.len() == 0 {
        table
    } else {
        stored(stored_all(table, records.drop_last()), records.last())
    }
}

/// The table after the records of `records` were submitted to `table`, one
/// after the other, each with the engine's verdict at its place in
/// `engines`; `None` where one of the submissions is refused.
pub open spec fn submitted_all(
    table: Map<Seq<char>, PipelineRecord>,
    records: Seq<PipelineRecord>,
    engines: Seq<EngineVerdict>,
) -> Option<Map<Seq<char>, PipelineRecord>>
    decreases records.len(),
{
    if records.len() == 0 {
        Some(table)
    } else {
        match submitted_all(table, records.drop_last(), engines.drop_last()) {
            Some(before) => match submitted(before, records.last(), engines.last()) {
                Ok(after) => Some(after),
                Err(_) => None,
            },
            None => None,
        }
    }
}

/// An id that no record has is not found: a lookup gives nothing and a
/// transition fails with `NotFound`, to whatever state.
pub proof fn law_unknown_id_is_not_found(
    table: Map<Seq<char>, PipelineRecord>,
    id: Seq<char>,
    state: LifecycleState,
)
    requires
        !table.contains_key(id),
    ensures
        lookup(table, id) is None,
        transitioned(table, id, state) == Err::<Map<Seq<char>, PipelineRecord>, RegistryError>(
            RegistryError::NotFound,
        ),
{
}

/// After a successful submission the record can be looked up by its id, and
/// is in state `Created` with the description, the creation time and the
/// source that were submitted. Its id is one that no record had, the table
/// has grown by this one record, and every other record is as it was.
pub proof fn law_submitted_record_is_found(
    table: Map<Seq<char>, PipelineRecord>,
    id: Seq<char>,
    created_at: Seq<char>,
    descriptor: Seq<char>,
    description: Seq<char>,
    source_locator: Option<Seq<char>>,
    engine: EngineVerdict,
)
    requires
        table.dom().finite(),
        submitted(
            table,
            fresh_record(id, created_at, descriptor, description, source_locator),
            engine,
        ) is Ok,
    ensures
        ({
            let after = submitted(
                table,
                fresh_record(id, created_at, descriptor, description, source_locator),
                engine,
            )->Ok_0;
            &&& lookup(after, id) matches Some(record)
            &&& record.id == id
            &&& record.state == LifecycleState::Created
            &&& record.descriptor == descriptor
            &&& record.source_locator == source_locator
            &&& record.created_at == created_at
            &&& record.description == description
            &&& !table.contains_key(id)
            &&& after.dom().finite()
            &&& after.dom().len() == table.dom().len() + 1
            &&& forall|other: Seq<char>|
                table.contains_key(other) ==> #[trigger] lookup(after, other) == Some(table[other])
        }),
{
}

/// An invalid submission is never stored: it is refused as invalid, whatever
/// its id, and a refused submission leaves no table behind.
pub proof fn law_invalid_is_never_stored(
    table: Map<Seq<char>, PipelineRecord>,
    record: PipelineRecord,
    engine: EngineVerdict,
)
    ensures
        validated(record.descriptor, engine) matches Err(fault) ==> submitted(table, record, engine)
            == Err::<Map<Seq<char>, PipelineRecord>, SubmissionFault>(
            SubmissionFault::Invalid(fault),
        ),
        submitted(table, record, engine) is Ok <==> validated(record.descriptor, engine) is Ok
            && !table.contains_key(record.id),
{
}

/// A transition does not ask where the record stands, so moving a record to
/// a state twice is the same as moving it once: both transitions succeed, the
/// second changes nothing, and the record is in that state.
pub proof fn law_transition_is_idempotent(
    table: Map<Seq<char>, PipelineRecord>,
    id: Seq<char>,
    state: LifecycleState,
)
    requires
        table.contains_key(id),
    ensures
        transitioned(table, id, state) is Ok,
        ({
            let once = transitioned(table, id, state)->Ok_0;
            &&& transitioned(once, id, state) == Ok::<
                Map<Seq<char>, PipelineRecord>,
                RegistryError,
            >(once)
            &&& lookup(once, id) matches Some(record)
            &&& record.state == state
            &&& record == table[id].with_state(state)
        }),
{
    let once = transitioned(table, id, state)->Ok_0;
    assert(once.insert(id, once[id].with_state(state)) =~= once);
}

/// Records stored under ids that differ from each other and from those of
/// the table are all there afterwards: the table has grown by their number
/// and each is found under its id.
pub proof fn lemma_stored_records_are_all_there(
    table: Map<Seq<char>, PipelineRecord>,
    records: Seq<PipelineRecord>,
)
    requires
        table.dom().finite(),
        forall|i: int| 0 <= i < records.len() ==> !table.contains_key(#[trigger] records[i].id),
        forall|i: int, j: int|
            0 <= i < j < records.len() ==> #[trigger] records[i].id != #[trigger] records[j].id,
    ensures
        stored_all(table, records).dom().finite(),
        stored_all(table, records).dom().len() == table.dom().len() + records.len(),
        forall|i: int|
            0 <= i < records.len() ==> lookup(stored_all(table, records), #[trigger] records[i].id)
                == Some(records[i]),
        forall|id: Seq<char>|
            table.contains_key(id) ==> #[trigger] lookup(stored_all(table, records), id) == Some(
                table[id],
            ),
        forall|id: Seq<char>| #[trigger]
            stored_all(table, records).contains_key(id) ==> table.contains_key(id) || exists|
                i: int,
            |
                0 <= i < records.len() && records[i].id == id,
    decreases records.len(),
{
    if records.len() > 0 {
        let front = records.drop_last();
        let last = records.last();
        let before = stored_all(table, front);
        assert forall|i: int| 0 <= i < front.len() implies !table.contains_key(
            #[trigger] front[i].id,
        ) by {
            assert(front[i] == records[i]);
        }
        assert forall|i: int, j: int| 0 <= i < j < front.len() implies #[trigger] front[i].id
            != #[trigger] front[j].id by {
            assert(front[i] == records[i]);
            assert(front[j] == records[j]);
        }
        lemma_stored_records_are_all_there(table, front);
        assert(!before.contains_key(last.id)) by {
            if before.contains_key(last.id) {
                assert(last == records[records.len() - 1]);
                if table.contains_key(last.id) {
                } else {
                    let i = choose|i: int| 0 <= i < front.len() && front[i].id == last.id;
                    assert(front[i] == records[i]);
                }
            }
        }
        assert forall|i: int| 0 <= i < records.len() implies lookup(
            stored_all(table, records),
            #[trigger] records[i].id,
        ) == Some(records[i]) by {
            if i < front.len() {
                assert(front[i] == records[i]);
                assert(lookup(before, front[i].id) == Some(front[i]));
            }
        }
        assert forall|id: Seq<char>| table.contains_key(id) implies #[trigger] lookup(
            stored_all(table, records),
            id,
        ) == Some(table[id]) by {
            assert(lookup(before, id) == Some(table[id]));
            assert(records[records.len() - 1].id != id);
        }
        assert forall|id: Seq<char>| #[trigger]
            stored_all(table, records).contains_key(id) implies table.contains_key(id) || exists|
            i: int,
        |
            0 <= i < records.len() && records[i].id == id by {
            if id == last.id {
                assert(records[records.len() - 1].id == id);
            } else if !table.contains_key(id) {
                assert(before.contains_key(id));
                let i = choose|i: int| 0 <= i < front.len() && front[i].id == id;
                assert(records[i].id == id);
            }
        }
    }
}

/// Submissions that all succeed have stored their records under ids that
/// differ from each other and from those that the table had.
proof fn lemma_submissions_are_fresh(
    table: Map<Seq<char>, PipelineRecord>,
    records: Seq<PipelineRecord>,
    engines: Seq<EngineVerdict>,
)
    requires
        table.dom().finite(),
        engines.len() == records.len(),
        submitted_all(table, records, engines) is Some,
    ensures
        submitted_all(table, records, engines) == Some(stored_all(table, records)),
        forall|i: int| 0 <= i < records.len() ==> !table.contains_key(#[trigger] records[i].id),
        forall|i: int, j: int|
            0 <= i < j < records.len() ==> #[trigger] records[i].id != #[trigger] records[j].id,
    decreases records.len(),
{
    if records.len() > 0 {
        let front = records.drop_last();
        let last = records.last();
        lemma_submissions_are_fresh(table, front, engines.drop_last());
        let before = stored_all(table, front);
        assert(!before.contains_key(last.id));
        assert forall|i: int| 0 <= i < front.len() implies !table.contains_key(
            #[trigger] records[i].id,
        ) && records[i].id != last.id by {
            assert(front[i] == records[i]);
            lemma_stored_records_are_all_there(table, front);
            assert(lookup(before, front[i].id) == Some(front[i]));
        }
        assert(!table.contains_key(last.id)) by {
            lemma_stored_records_are_all_there(table, front);
            if table.contains_key(last.id) {
                assert(lookup(before, last.id) == Some(table[last.id]));
            }
        }
        assert(last == records[records.len() - 1]);
        assert forall|i: int, j: int| 0 <= i < j < records.len() implies #[trigger] records[i].id
            != #[trigger] records[j].id by {
            if j < front.len() {
                assert(front[i] == records[i]);
                assert(front[j] == records[j]);
            }
        }
    }
}

/// After any number of successful submissions to an empty registry the
/// registry holds exactly that many records, a listing of it is that long,
/// each record is found under its id, and no two of them share an id.
pub proof fn law_each_submission_is_listed(
    records: Seq<PipelineRecord>,
    engines: Seq<EngineVerdict>,
    listing: Seq<PipelineInfo>,
)
    requires
        engines.len() == records.len(),
        submitted_all(Map::empty(), records, engines) matches Some(table) && lists(listing, table),
    ensures
        ({
            let table = submitted_all(Map::empty(), records, engines)->0;
            &&& table.dom().finite()
            &&& table.dom().len() == records.len()
            &&& listing.len() == records.len()
            &&& forall|i: int|
                0 <= i < records.len() ==> lookup(table, #[trigger] records[i].id) == Some(
                    records[i],
                )
            &&& forall|i: int, j: int|
                0 <= i < j < records.len() ==> #[trigger] records[i].id != #[trigger] records[j].id
        }),
{
    let empty = Map::<Seq<char>, PipelineRecord>::empty();
    lemma_submissions_are_fresh(empty, records, engines);
    lemma_stored_records_are_all_there(empty, records);
    lemma_listing_length(listing, stored_all(empty, records));
}

/// Two submissions that succeed one after the other give their records
/// different ids, and the second record is created no earlier than the
/// first, whatever the clock read: where `latest` is the latest creation
/// time before the two, the first is created at
/// `next_instant(latest, first_reading)` and the second at the next instant
/// after that.
pub proof fn law_later_submissions_differ_and_follow(
    table: Map<Seq<char>, PipelineRecord>,
    latest: int,
    first: PipelineRecord,
    first_engine: EngineVerdict,
    first_reading: int,
    second: PipelineRecord,
    second_engine: EngineVerdict,
    second_reading: int,
)
    requires
        submitted(table, first, first_engine) matches Ok(between) && submitted(
            between,
            second,
            second_engine,
        ) is Ok,
    ensures
        first.id != second.id,
        next_instant(latest, first_reading) >= latest,
        next_instant(next_instant(latest, first_reading), second_reading) >= next_instant(
            latest,
            first_reading,
        ),
{
}

} // verus!
