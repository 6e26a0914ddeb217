//! Custom pipelines, the registry's read and stop operations, and the
//! analysis of a remote source.

use crate::clock::to_reading;
use crate::handlers::{id_conflict, refuse, refuse_with, HttpFailure, HttpStatus, Refusal};
use crate::lifecycle::{fresh_record, submit, SubmissionError};
use crate::models::pipeline::{LifecycleState, PipelineInfo, PipelineRecord, PipelineState};
use crate::models::requests::CreatePipelineRequest;
use crate::platform::{
    clock_nanos, percent_decode, percent_decoded, rfc3339_of, rfc3339_text, ID_LENGTH,
    MIN_TIMESTAMP_LENGTH,
};
use crate::registry::{lists, lookup, stored, transitioned, Registry, RegistryError};
use crate::services::probe::ProbeError;
use crate::services::validation::{validated, EngineVerdict, ValidationFault};
use crate::services::MediaInfo;
use vstd::prelude::*;

verus! {

/// The answer to a stop request that was carried out.
#[derive(Debug)]
pub struct StopConfirmation {
    pub message: String,
    pub pipeline_id: String,
}

/// The answer to an analysis request: what the probe found, for which
/// locator, and when.
#[derive(Debug)]
pub struct MediaAnalysis {
    pub url: String,
    pub format: String,
    pub duration: Option<u64>,
    pub width: Option<u32>,
    pub height: Option<u32>,
    pub bitrate: Option<u32>,
    pub analysis_timestamp: String,
}

/// The refusal of a request for a pipeline that the registry does not have.
pub open spec fn not_found() -> Refusal {
    Refusal { status: HttpStatus::NotFound, error: "Pipeline not found"@, details: None }
}

/// The refusal of a custom pipeline with which validation found `fault`.
pub open spec fn invalid_configuration(fault: ValidationFault) -> Refusal {
    Refusal {
        status: HttpStatus::BadRequest,
        error: "Invalid pipeline configuration"@,
        details: Some(fault.message()),
    }
}

/// The refusal of an analysis that failed with the diagnostic text `detail`.
pub open spec fn analysis_failed(detail: Seq<char>) -> Refusal {
    Refusal {
        status: HttpStatus::UnprocessableEntity,
        error: "Failed to analyze media"@,
        details: Some("Could not retrieve media information: "@ + detail),
    }
}

/// The refusal of a locator that cannot be decoded.
pub open spec fn invalid_encoding() -> Refusal {
    Refusal { status: HttpStatus::BadRequest, error: "Invalid URL encoding"@, details: None }
}

/// Creates a custom pipeline under a fresh id.
///
/// `engine` is what the engine's parser said of the description in
/// `payload`. An invalid description is always a bad request, with what
/// validation found as details. A valid one is recorded in state `Created`,
/// without a source, under an id that no record had and created no earlier
/// than any pipeline before; the record is the answer. On a registry
/// without records a valid description always succeeds. On any other it is
/// refused, as a fault of the service, only where every id that was drawn is
/// in use. A refused request changes nothing.
pub fn create_pipeline(
    registry: &mut Registry,
    payload: CreatePipelineRequest,
    engine: &EngineVerdict,
) -> (r: Result<PipelineInfo, HttpFailure>)
    ensures
        validated(payload.pipeline@, *engine) matches Err(fault) ==> (r matches Err(f) && f@
            == invalid_configuration(fault)),
        validated(payload.pipeline@, *engine) is Ok && old(registry)@ == Map::<
            Seq<char>,
            PipelineRecord,
        >::empty() ==> r is Ok,
        match r {
            Ok(record) => {
                &&& validated(payload.pipeline@, *engine) is Ok
                &&& !old(registry)@.contains_key(record.id@)
                &&& record.id@.len() == ID_LENGTH
                &&& record@ == fresh_record(
                    record.id@,
                    record.created_at@,
                    payload.pipeline@,
                    payload.description@,
                    None,
                )
                &&& final(registry)@ == stored(old(registry)@, record@)
                &&& final(registry).latest() >= old(registry).latest()
                &&& record.created_at@ == rfc3339_of(final(registry).latest())
            },
            Err(f) => {
                &&& f@ == id_conflict() ==> validated(payload.pipeline@, *engine) is Ok && old(
                    registry,
                )@ != Map::<Seq<char>, PipelineRecord>::empty()
                &&& f@ == id_conflict() || (validated(payload.pipeline@, *engine) matches Err(
                    fault,
                ) && f@ == invalid_configuration(fault))
                &&& final(registry)@ == old(registry)@
                &&& final(registry).latest() == old(registry).latest()
            },
        },
{
    let CreatePipelineRequest { description, pipeline } = payload;
    match submit(registry, pipeline, description, None, engine) {
        Ok(record) => Ok(record),
        Err(SubmissionError::Invalid(e)) => Err(
            refuse_with(
                HttpStatus::BadRequest,
                "Invalid pipeline configuration",
                e.message().as_str(),
            ),
        ),
        Err(SubmissionError::IdInUse) => Err(
            refuse(HttpStatus::InternalServerError, "Pipeline id is already in use"),
        ),
    }
}

/// All pipelines, each once, in no particular order.
pub fn list_pipelines(registry: &Registry) -> (all: Vec<PipelineInfo>)
    ensures
        lists(all@, registry@),
        registry@.dom().finite(),
        all@.len() == registry@.dom().len(),
{
    registry.list()
}

/// The pipeline with the id `id`, or a refusal with status `NotFound`.
pub fn get_pipeline(registry: &Registry, id: &str) -> (r: Result<PipelineInfo, HttpFailure>)
    ensures
        match r {
            Ok(record) => lookup(registry@, id@) == Some(record@),
            Err(f) => lookup(registry@, id@) is None && f@ == not_found(),
        },
{
    match registry.get(id) {
        Some(record) => Ok(record),
        None => Err(refuse(HttpStatus::NotFound, "Pipeline not found")),
    }
}

/// Stops the pipeline with the id `id`: moves it to `Stopped`, whatever
/// state it was in, so that stopping a stopped pipeline succeeds as well.
/// Where no pipeline has that id, the answer is a refusal with status
/// `NotFound` and nothing changes. The latest creation time stays as it is
/// either way.
pub fn stop_pipeline(registry: &mut Registry, id: &str) -> (r: Result<
    StopConfirmation,
    HttpFailure,
>)
    ensures
        match r {
            Ok(done) => {
                &&& transitioned(old(registry)@, id@, LifecycleState::Stopped) == Ok::<
                    Map<Seq<char>, PipelineRecord>,
                    RegistryError,
                >(final(registry)@)
                &&& done.message@ == "Pipeline stopped successfully"@
                &&& done.pipeline_id@ == id@
            },
            Err(f) => {
                &&& !old(registry)@.contains_key(id@)
                &&& f@ == not_found()
                &&& final(registry)@ == old(registry)@
            },
        },
        final(registry).latest() == old(registry).latest(),
{
    match registry.transition(id, PipelineState::Stopped) {
        Ok(()) => Ok(
            StopConfirmation {
                message: String::from_str("Pipeline stopped successfully"),
                pipeline_id: id.to_owned(),
            },
        ),
        Err(_) => Err(refuse(HttpStatus::NotFound, "Pipeline not found")),
    }
}

/// The locator to analyse, given what decoding the request's locator gave:
/// the decoded text, or a bad request where there is none.
pub fn analysis_target_of(decoded: Option<String>) -> (r: Result<String, HttpFailure>)
    ensures
        match r {
            Ok(target) => decoded == Some(target),
            Err(f) => decoded is None && f@ == invalid_encoding(),
        },
{
    match decoded {
        Some(target) => Ok(target),
        None => Err(refuse(HttpStatus::BadRequest, "Invalid URL encoding")),
    }
}

/// The locator to analyse: the percent-decoded form of the locator in the
/// request. A locator whose decoded bytes are no text is a bad request.
pub fn analysis_target(url: &str) -> (r: Result<String, HttpFailure>)
    ensures
        match r {
            Ok(target) => percent_decoded(url@) == Some(target@),
            Err(f) => percent_decoded(url@) is None && f@ == invalid_encoding(),
        },
        !url@.contains('%') ==> (r matches Ok(target) && target@ == url@),
{
    analysis_target_of(percent_decode(url))
}

/// Answers an analysis request for the locator `url`, given the outcome of
/// the probe, while the clock reads `reading`. A finished probe is reported
/// field by field, with the timestamp of the reading. A failed probe is
/// answered as a source that cannot be processed, with the engine's text as
/// details.
pub fn analyze_media_at(url: &str, outcome: Result<MediaInfo, ProbeError>, reading: i64) -> (r:
    Result<MediaAnalysis, HttpFailure>)
    ensures
        match r {
            Ok(report) => {
                &&& outcome matches Ok(info)
                &&& report.url@ == url@
                &&& report.format@ == info.format@
                &&& report.duration == info.duration
                &&& report.width == info.width
                &&& report.height == info.height
                &&& report.bitrate == info.bitrate
                &&& report.analysis_timestamp@ == rfc3339_of(reading as int)
                &&& report.analysis_timestamp@.len() >= MIN_TIMESTAMP_LENGTH
            },
            Err(f) => outcome matches Err(e) && f@ == analysis_failed(e.detail()),
        },
{
    match outcome {
        Ok(info) => Ok(
            MediaAnalysis {
                url: url.to_owned(),
                format: info.format,
                duration: info.duration,
                width: info.width,
                height: info.height,
                bitrate: info.bitrate,
                analysis_timestamp: rfc3339_text(reading),
            },
        ),
        Err(e) => {
            let mut details = String::from_str("Could not retrieve media information: ");
            details.append(e.message().as_str());
            Err(
                refuse_with(
                    HttpStatus::UnprocessableEntity,
                    "Failed to analyze media",
                    details.as_str(),
                ),
            )
        },
    }
}

/// Answers an analysis request for the locator `url`, given the outcome of
/// the probe. A finished probe is reported field by field, with the
/// timestamp of the report. A failed probe is answered as a source that
/// cannot be processed, with the engine's text as details.
pub fn analyze_media(url: &str, outcome: Result<MediaInfo, ProbeError>) -> (r: Result<
    MediaAnalysis,
    HttpFailure,
>)
    ensures
        match r {
            Ok(report) => {
                &&& outcome matches Ok(info)
                &&& report.url@ == url@
                &&& report.format@ == info.format@
                &&& report.duration == info.duration
                &&& report.width == info.width
                &&& report.height == info.height
                &&& report.bitrate == info.bitrate
                &&& report.analysis_timestamp@.len() >= MIN_TIMESTAMP_LENGTH
            },
            Err(f) => outcome matches Err(e) && f@ == analysis_failed(e.detail()),
        },
{
    analyze_media_at(url, outcome, to_reading(clock_nanos()))
}

} // verus!
