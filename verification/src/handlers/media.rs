//! Conversion, thumbnails and streams.
//!
//! Each operation runs in two steps, because the engine has to see the
//! description before the pipeline is recorded. The first step checks the
//! request and plans the job under a fresh id: its description, its label
//! and the answer. The caller lets the engine parse the planned description.
//! The second step takes the plan with the engine's verdict, records the
//! pipeline and answers.

use crate::clock::{law_creation_times_do_not_go_back, to_reading};
use crate::handlers::{id_conflict, refuse, refuse_with, HttpFailure, HttpStatus, Refusal};
use crate::lifecycle::{fresh_record, refusal, submit_as, SubmissionError, SubmissionFault};
use crate::models::pipeline::{optional_text, PipelineInfo, PipelineRecord};
use crate::models::requests::{ConvertRequest, StreamRequest, ThumbnailRequest};
use crate::models::responses::{ConvertResponse, StreamResponse, ThumbnailInfo, ThumbnailResponse};
use crate::platform::{clock_nanos, random_id, rfc3339_of, ID_LENGTH};
use crate::registry::{stored, Registry};
use crate::services::validation::{
    conversion_pipeline, conversion_stages, create_conversion_pipeline,
    create_hls_stream_pipeline, create_thumbnail_pipeline, hls_stream_pipeline,
    law_built_in_descriptions_have_sound_shape, thumbnail_pipeline, validated, EngineVerdict,
    ValidationFault,
};
use crate::text::{has_prefix, same_text, starts_with};
use vstd::prelude::*;

verus! {

/// A job that is planned and not yet recorded.
#[derive(Debug)]
pub struct Job {
    /// The id under which the pipeline will be recorded.
    pub id: String,
    /// The label of the pipeline.
    pub description: String,
    /// The description of the graph, for the engine to parse.
    pub descriptor: String,
    /// The remote source.
    pub source_url: String,
}

/// A planned conversion: the job, and the answer once it is recorded.
#[derive(Debug)]
pub struct ConversionPlan {
    pub job: Job,
    pub response: ConvertResponse,
}

/// A planned thumbnail: the job, and the answer once it is recorded.
#[derive(Debug)]
pub struct ThumbnailPlan {
    pub job: Job,
    pub response: ThumbnailResponse,
}

/// A planned stream: the job, and the answer once it is recorded.
#[derive(Debug)]
pub struct StreamPlan {
    pub job: Job,
    pub response: StreamResponse,
}

/// The width of a thumbnail where the request names none.
pub const DEFAULT_THUMBNAIL_WIDTH: u32 = 320;

/// The height of a thumbnail where the request names none.
pub const DEFAULT_THUMBNAIL_HEIGHT: u32 = 240;

/// Whether a source locator is one that the service fetches.
pub open spec fn is_web_address(url: Seq<char>) -> bool {
    has_prefix(url, "http"@)
}

/// The refusal of a source that is no web address.
pub open spec fn invalid_source() -> Refusal {
    Refusal {
        status: HttpStatus::BadRequest,
        error: "Source URL must be a valid HTTP(S) URL"@,
        details: None,
    }
}

/// The refusal of a job whose generated description validation found
/// `fault` with; `complaint` names the kind of job.
pub open spec fn generated_invalid(complaint: Seq<char>, fault: ValidationFault) -> Refusal {
    Refusal {
        status: HttpStatus::InternalServerError,
        error: complaint,
        details: Some(fault.message()),
    }
}

/// The file that the conversion `id` to `format` writes.
pub open spec fn conversion_output(id: Seq<char>, format: Seq<char>) -> Seq<char> {
    "output_"@ + id + "."@ + format
}

/// The file that the thumbnail job `id` writes.
pub open spec fn thumbnail_output(id: Seq<char>) -> Seq<char> {
    "thumb_"@ + id + ".png"@
}

/// The directory that the stream `id` writes to.
pub open spec fn stream_directory(id: Seq<char>) -> Seq<char> {
    "stream_"@ + id
}

/// The address of the playlist of the stream `id`.
pub open spec fn stream_address(id: Seq<char>) -> Seq<char> {
    "http://localhost:8080/stream/"@ + id + "/playlist.m3u8"@
}

/// Why a conversion request is refused, if it is: the source is no web
/// address, or the format is not supported.
pub open spec fn conversion_refusal(payload: ConvertRequest) -> Option<Refusal> {
    if !is_web_address(payload.source_url@) {
        Some(invalid_source())
    } else if conversion_stages(payload.output_format@) is None {
        Some(
            Refusal {
                status: HttpStatus::BadRequest,
                error: "Unsupported format conversion"@,
                details: Some("Unsupported output format: "@ + payload.output_format@),
            },
        )
    } else {
        None
    }
}

/// Whether `plan` is the plan of the conversion that `payload` asks for,
/// under the id `id`.
pub open spec fn is_conversion_plan(plan: ConversionPlan, payload: ConvertRequest, id: Seq<char>) -> bool {
    &&& plan.job.id@ == id
    &&& plan.job.description@ == "Convert to "@ + payload.output_format@
    &&& conversion_pipeline(
        payload.source_url@,
        payload.output_format@,
        conversion_output(id, payload.output_format@),
    ) == Ok::<Seq<char>, Seq<char>>(plan.job.descriptor@)
    &&& plan.job.source_url@ == payload.source_url@
    &&& plan.response.pipeline_id@ == id
    &&& plan.response.status@ == "created"@
    &&& plan.response.message@ == "Conversion to "@ + payload.output_format@ + " initiated"@
    &&& optional_text(plan.response.estimated_duration) == Some("2-5 minutes"@)
}

/// Why a thumbnail request is refused, if it is: the source is no web
/// address.
pub open spec fn thumbnail_refusal(payload: ThumbnailRequest) -> Option<Refusal> {
    if !is_web_address(payload.source_url@) {
        Some(invalid_source())
    } else {
        None
    }
}

/// The width of the thumbnail that `payload` asks for.
pub open spec fn thumbnail_width(payload: ThumbnailRequest) -> u32 {
    match payload.width {
        Some(w) => w,
        None => DEFAULT_THUMBNAIL_WIDTH,
    }
}

/// The height of the thumbnail that `payload` asks for.
pub open spec fn thumbnail_height(payload: ThumbnailRequest) -> u32 {
    match payload.height {
        Some(h) => h,
        None => DEFAULT_THUMBNAIL_HEIGHT,
    }
}

/// The position in the video that `payload` asks for.
pub open spec fn thumbnail_position(payload: ThumbnailRequest) -> Seq<char> {
    match payload.timestamp {
        Some(t) => t@,
        None => "00:00:10"@,
    }
}

/// Whether `plan` is the plan of the thumbnail that `payload` asks for,
/// under the id `id`.
pub open spec fn is_thumbnail_plan(plan: ThumbnailPlan, payload: ThumbnailRequest, id: Seq<char>) -> bool {
    &&& plan.job.id@ == id
    &&& plan.job.description@ == "Generate thumbnail"@
    &&& plan.job.descriptor@ == thumbnail_pipeline(
        payload.source_url@,
        thumbnail_output(id),
        thumbnail_width(payload),
        thumbnail_height(payload),
    )
    &&& plan.job.source_url@ == payload.source_url@
    &&& plan.response.pipeline_id@ == id
    &&& plan.response.status@ == "created"@
    &&& plan.response.message@ == "Thumbnail generation initiated"@
    &&& plan.response.output_info matches Some(info)
    &&& info.width == thumbnail_width(payload)
    &&& info.height == thumbnail_height(payload)
    &&& info.format@ == "PNG"@
    &&& info.timestamp@ == thumbnail_position(payload)
}

/// Why a stream request is refused, if it is: the source is no web address,
/// or the kind of stream is not `hls`.
pub open spec fn stream_refusal(payload: StreamRequest) -> Option<Refusal> {
    if !is_web_address(payload.source_url@) {
        Some(invalid_source())
    } else if payload.stream_type@ != "hls"@ {
        Some(
            Refusal {
                status: HttpStatus::BadRequest,
                error: "Unsupported stream type. Currently supported: hls"@,
                details: None,
            },
        )
    } else {
        None
    }
}

/// Whether `plan` is the plan of the stream that `payload` asks for, under
/// the id `id`.
pub open spec fn is_stream_plan(plan: StreamPlan, payload: StreamRequest, id: Seq<char>) -> bool {
    &&& plan.job.id@ == id
    &&& plan.job.description@ == "HLS streaming"@
    &&& plan.job.descriptor@ == hls_stream_pipeline(payload.source_url@, stream_directory(id))
    &&& plan.job.source_url@ == payload.source_url@
    &&& plan.response.pipeline_id@ == id
    &&& plan.response.status@ == "created"@
    &&& optional_text(plan.response.stream_url) == Some(stream_address(id))
    &&& plan.response.message@ == "HLS stream created successfully"@
}

/// Whether `after` is `before` with the pipeline of `job` recorded in state
/// `Created`, at whatever time, under an id that no record had.
pub open spec fn records_job(
    before: Map<Seq<char>, PipelineRecord>,
    after: Map<Seq<char>, PipelineRecord>,
    job: Job,
) -> bool {
    &&& !before.contains_key(job.id@)
    &&& after.contains_key(job.id@)
    &&& after[job.id@] == fresh_record(
        job.id@,
        after[job.id@].created_at,
        job.descriptor@,
        job.description@,
        Some(job.source_url@),
    )
    &&& after == stored(before, after[job.id@])
}

/// Why a planned job is not admitted, if it is not. A description that the
/// service generated and that is not valid is the service's fault, and
/// `complaint` says so; so is an id that a record has already.
pub open spec fn admission_refusal(
    table: Map<Seq<char>, PipelineRecord>,
    job: Job,
    engine: EngineVerdict,
    complaint: Seq<char>,
) -> Option<Refusal> {
    match refusal(table, job.id@, job.descriptor@, engine) {
        Some(SubmissionFault::Invalid(fault)) => Some(generated_invalid(complaint, fault)),
        Some(SubmissionFault::IdInUse) => Some(id_conflict()),
        None => None,
    }
}

/// Plans the conversion that `payload` asks for, under the id `id`.
pub fn plan_conversion_as(payload: &ConvertRequest, id: String) -> (r: Result<
    ConversionPlan,
    HttpFailure,
>)
    ensures
        match r {
            Ok(plan) => conversion_refusal(*payload) is None && is_conversion_plan(
                plan,
                *payload,
                id@,
            ),
            Err(f) => conversion_refusal(*payload) == Some(f@),
        },
{
    if !starts_with(payload.source_url.as_str(), "http") {
        return Err(refuse(HttpStatus::BadRequest, "Source URL must be a valid HTTP(S) URL"));
    }
    let mut output_path = String::from_str("output_");
    output_path.append(id.as_str());
    output_path.append(".");
    output_path.append(payload.output_format.as_str());
    let descriptor = match create_conversion_pipeline(
        payload.source_url.as_str(),
        payload.output_format.as_str(),
        output_path.as_str(),
    ) {
        Ok(descriptor) => descriptor,
        Err(e) => {
            return Err(
                refuse_with(HttpStatus::BadRequest, "Unsupported format conversion", e.as_str()),
            );
        },
    };
    let mut description = String::from_str("Convert to ");
    description.append(payload.output_format.as_str());
    let mut message = String::from_str("Conversion to ");
    message.append(payload.output_format.as_str());
    message.append(" initiated");
    Ok(
        ConversionPlan {
            job: Job {
                id: id.clone(),
                description,
                descriptor,
                source_url: payload.source_url.clone(),
            },
            response: ConvertResponse {
                pipeline_id: id,
                status: String::from_str("created"),
                message,
                estimated_duration: Some(String::from_str("2-5 minutes")),
            },
        },
    )
}

/// Plans the conversion that `payload` asks for, under a fresh id. A source
/// that is no web address and a format that is not supported are bad
/// requests.
pub fn plan_conversion(payload: &ConvertRequest) -> (r: Result<ConversionPlan, HttpFailure>)
    ensures
        match r {
            Ok(plan) => {
                &&& conversion_refusal(*payload) is None
                &&& is_conversion_plan(plan, *payload, plan.job.id@)
                &&& plan.job.id@.len() == ID_LENGTH
            },
            Err(f) => conversion_refusal(*payload) == Some(f@),
        },
{
    plan_conversion_as(payload, random_id())
}

/// Plans the thumbnail that `payload` asks for, under the id `id`.
pub fn plan_thumbnail_as(payload: &ThumbnailRequest, id: String) -> (r: Result<
    ThumbnailPlan,
    HttpFailure,
>)
    ensures
        match r {
            Ok(plan) => thumbnail_refusal(*payload) is None && is_thumbnail_plan(
                plan,
                *payload,
                id@,
            ),
            Err(f) => thumbnail_refusal(*payload) == Some(f@),
        },
{
    let timestamp = match &payload.timestamp {
        Some(t) => t.clone(),
        None => String::from_str("00:00:10"),
    };
    let width = match payload.width {
        Some(w) => w,
        None => DEFAULT_THUMBNAIL_WIDTH,
    };
    let height = match payload.height {
        Some(h) => h,
        None => DEFAULT_THUMBNAIL_HEIGHT,
    };
    if !starts_with(payload.source_url.as_str(), "http") {
        return Err(refuse(HttpStatus::BadRequest, "Source URL must be a valid HTTP(S) URL"));
    }
    let mut output_path = String::from_str("thumb_");
    output_path.append(id.as_str());
    output_path.append(".png");
    let descriptor = create_thumbnail_pipeline(
        payload.source_url.as_str(),
        output_path.as_str(),
        width,
        height,
        timestamp.as_str(),
    );
    Ok(
        ThumbnailPlan {
            job: Job {
                id: id.clone(),
                description: String::from_str("Generate thumbnail"),
                descriptor,
                source_url: payload.source_url.clone(),
            },
            response: ThumbnailResponse {
                pipeline_id: id,
                status: String::from_str("created"),
                message: String::from_str("Thumbnail generation initiated"),
                output_info: Some(
                    ThumbnailInfo { width, height, format: String::from_str("PNG"), timestamp },
                ),
            },
        },
    )
}

/// Plans the thumbnail that `payload` asks for, under a fresh id. Where the
/// request names no size the thumbnail is 320 by 240 pixels, and where it
/// names no position the position is `00:00:10`. A source that is no web
/// address is a bad request.
pub fn plan_thumbnail(payload: &ThumbnailRequest) -> (r: Result<ThumbnailPlan, HttpFailure>)
    ensures
        match r {
            Ok(plan) => {
                &&& thumbnail_refusal(*payload) is None
                &&& is_thumbnail_plan(plan, *payload, plan.job.id@)
                &&& plan.job.id@.len() == ID_LENGTH
            },
            Err(f) => thumbnail_refusal(*payload) == Some(f@),
        },
{
    plan_thumbnail_as(payload, random_id())
}

/// Plans the stream that `payload` asks for, under the id `id`.
pub fn plan_stream_as(payload: &StreamRequest, id: String) -> (r: Result<StreamPlan, HttpFailure>)
    ensures
        match r {
            Ok(plan) => stream_refusal(*payload) is None && is_stream_plan(plan, *payload, id@),
            Err(f) => stream_refusal(*payload) == Some(f@),
        },
{
    if !starts_with(payload.source_url.as_str(), "http") {
        return Err(refuse(HttpStatus::BadRequest, "Source URL must be a valid HTTP(S) URL"));
    }
    if !same_text(payload.stream_type.as_str(), "hls") {
        return Err(
            refuse(HttpStatus::BadRequest, "Unsupported stream type. Currently supported: hls"),
        );
    }
    let mut output_dir = String::from_str("stream_");
    output_dir.append(id.as_str());
    let descriptor = create_hls_stream_pipeline(payload.source_url.as_str(), output_dir.as_str());
    let mut stream_url = String::from_str("http://localhost:8080/stream/");
    stream_url.append(id.as_str());
    stream_url.append("/playlist.m3u8");
    Ok(
        StreamPlan {
            job: Job {
                id: id.clone(),
                description: String::from_str("HLS streaming"),
                descriptor,
                source_url: payload.source_url.clone(),
            },
            response: StreamResponse {
                pipeline_id: id,
                status: String::from_str("created"),
                stream_url: Some(stream_url),
                message: String::from_str("HLS stream created successfully"),
            },
        },
    )
}

/// Plans the stream that `payload` asks for, under a fresh id. A source that
/// is no web address and a kind of stream other than `hls` are bad requests.
pub fn plan_stream(payload: &StreamRequest) -> (r: Result<StreamPlan, HttpFailure>)
    ensures
        match r {
            Ok(plan) => {
                &&& stream_refusal(*payload) is None
                &&& is_stream_plan(plan, *payload, plan.job.id@)
                &&& plan.job.id@.len() == ID_LENGTH
            },
            Err(f) => stream_refusal(*payload) == Some(f@),
        },
{
    plan_stream_as(payload, random_id())
}

/// Records the pipeline of a planned job, created now, if its description is
/// valid and no record has its id. `engine` is what the engine's parser said
/// of the description. The record is created no earlier than any pipeline
/// before. A job that is not admitted changes nothing.
pub fn admit_job(registry: &mut Registry, job: Job, engine: &EngineVerdict, complaint: &str) -> (r:
    Result<PipelineInfo, HttpFailure>)
    ensures
        match r {
            Ok(record) => {
                &&& admission_refusal(old(registry)@, job, *engine, complaint@) is None
                &&& records_job(old(registry)@, final(registry)@, job)
                &&& record@ == final(registry)@[job.id@]
                &&& final(registry).latest() >= old(registry).latest()
                &&& record.created_at@ == rfc3339_of(final(registry).latest())
            },
            Err(f) => {
                &&& admission_refusal(old(registry)@, job, *engine, complaint@) == Some(f@)
                &&& final(registry)@ == old(registry)@
                &&& final(registry).latest() == old(registry).latest()
            },
        },
{
    let reading = to_reading(clock_nanos());
    proof {
        law_creation_times_do_not_go_back(registry.latest(), reading as int, 0);
    }
    let Job { id, description, descriptor, source_url } = job;
    match submit_as(registry, id, reading, descriptor, description, Some(source_url), engine) {
        Ok(record) => Ok(record),
        Err(SubmissionError::Invalid(e)) => Err(
            refuse_with(HttpStatus::InternalServerError, complaint, e.message().as_str()),
        ),
        Err(SubmissionError::IdInUse) => Err(
            refuse(HttpStatus::InternalServerError, "Pipeline id is already in use"),
        ),
    }
}

/// Carries out a planned conversion. `engine` is what the engine's parser said of
/// the plan's description. With a valid description and an id that no record
/// has, the pipeline is recorded in state `Created`, created no earlier than
/// any pipeline before, and the plan's answer is given. Otherwise the request
/// fails as a fault of the service and nothing is recorded.
pub fn convert_media(registry: &mut Registry, plan: ConversionPlan, engine: &EngineVerdict) -> (r: Result<
    ConvertResponse,
    HttpFailure,
>)
    ensures
        match r {
            Ok(response) => {
                &&& admission_refusal(old(registry)@, plan.job, *engine, "Generated invalid pipeline"@) is None
                &&& response == plan.response
                &&& records_job(old(registry)@, final(registry)@, plan.job)
                &&& final(registry).latest() >= old(registry).latest()
                &&& final(registry)@[plan.job.id@].created_at == rfc3339_of(
                    final(registry).latest(),
                )
            },
            Err(f) => {
                &&& admission_refusal(old(registry)@, plan.job, *engine, "Generated invalid pipeline"@) == Some(f@)
                &&& final(registry)@ == old(registry)@
                &&& final(registry).latest() == old(registry).latest()
            },
        },
{
    let ConversionPlan { job, response } = plan;
    match admit_job(registry, job, engine, "Generated invalid pipeline") {
        Ok(_) => Ok(response),
        Err(f) => Err(f),
    }
}

/// Carries out a planned thumbnail. `engine` is what the engine's parser said of
/// the plan's description. With a valid description and an id that no record
/// has, the pipeline is recorded in state `Created`, created no earlier than
/// any pipeline before, and the plan's answer is given. Otherwise the request
/// fails as a fault of the service and nothing is recorded.
pub fn generate_thumbnail(registry: &mut Registry, plan: ThumbnailPlan, engine: &EngineVerdict) -> (r: Result<
    ThumbnailResponse,
    HttpFailure,
>)
    ensures
        match r {
            Ok(response) => {
                &&& admission_refusal(old(registry)@, plan.job, *engine, "Generated invalid thumbnail pipeline"@) is None
                &&& response == plan.response
                &&& records_job(old(registry)@, final(registry)@, plan.job)
                &&& final(registry).latest() >= old(registry).latest()
                &&& final(registry)@[plan.job.id@].created_at == rfc3339_of(
                    final(registry).latest(),
                )
            },
            Err(f) => {
                &&& admission_refusal(old(registry)@, plan.job, *engine, "Generated invalid thumbnail pipeline"@) == Some(f@)
                &&& final(registry)@ == old(registry)@
                &&& final(registry).latest() == old(registry).latest()
            },
        },
{
    let ThumbnailPlan { job, response } = plan;
    match admit_job(registry, job, engine, "Generated invalid thumbnail pipeline") {
        Ok(_) => Ok(response),
        Err(f) => Err(f),
    }
}

/// Carries out a planned stream. `engine` is what the engine's parser said of
/// the plan's description. With a valid description and an id that no record
/// has, the pipeline is recorded in state `Created`, created no earlier than
/// any pipeline before, and the plan's answer is given. Otherwise the request
/// fails as a fault of the service and nothing is recorded.
pub fn create_stream(registry: &mut Registry, plan: StreamPlan, engine: &EngineVerdict) -> (r: Result<
    StreamResponse,
    HttpFailure,
>)
    ensures
        match r {
            Ok(response) => {
                &&& admission_refusal(old(registry)@, plan.job, *engine, "Generated invalid streaming pipeline"@) is None
                &&& response == plan.response
                &&& records_job(old(registry)@, final(registry)@, plan.job)
                &&& final(registry).latest() >= old(registry).latest()
                &&& final(registry)@[plan.job.id@].created_at == rfc3339_of(
                    final(registry).latest(),
                )
            },
            Err(f) => {
                &&& admission_refusal(old(registry)@, plan.job, *engine, "Generated invalid streaming pipeline"@) == Some(f@)
                &&& final(registry)@ == old(registry)@
                &&& final(registry).latest() == old(registry).latest()
            },
        },
{
    let StreamPlan { job, response } = plan;
    match admit_job(registry, job, engine, "Generated invalid streaming pipeline") {
        Ok(_) => Ok(response),
        Err(f) => Err(f),
    }
}

/// Whether the built-in job with the description `descriptor` is recorded
/// rests with the engine alone: the description is valid if and only if the
/// engine accepted it.
pub open spec fn rests_with_engine(descriptor: Seq<char>, engine: EngineVerdict) -> bool {
    validated(descriptor, engine) is Ok <==> engine is Accepted
}

/// A planned conversion is recorded if and only if the engine accepted its
/// description.
pub proof fn law_conversion_rests_with_engine(
    plan: ConversionPlan,
    payload: ConvertRequest,
    id: Seq<char>,
    engine: EngineVerdict,
)
    requires
        is_conversion_plan(plan, payload, id),
    ensures
        rests_with_engine(plan.job.descriptor@, engine),
{
    law_built_in_descriptions_have_sound_shape(
        payload.source_url@,
        payload.output_format@,
        conversion_output(id, payload.output_format@),
        0,
        0,
    );
}

/// A planned thumbnail is recorded if and only if the engine accepted its
/// description.
pub proof fn law_thumbnail_rests_with_engine(
    plan: ThumbnailPlan,
    payload: ThumbnailRequest,
    id: Seq<char>,
    engine: EngineVerdict,
)
    requires
        is_thumbnail_plan(plan, payload, id),
    ensures
        rests_with_engine(plan.job.descriptor@, engine),
{
    law_built_in_descriptions_have_sound_shape(
        payload.source_url@,
        Seq::empty(),
        thumbnail_output(id),
        thumbnail_width(payload),
        thumbnail_height(payload),
    );
}

/// A planned stream is recorded if and only if the engine accepted its
/// description.
pub proof fn law_stream_rests_with_engine(
    plan: StreamPlan,
    payload: StreamRequest,
    id: Seq<char>,
    engine: EngineVerdict,
)
    requires
        is_stream_plan(plan, payload, id),
    ensures
        rests_with_engine(plan.job.descriptor@, engine),
{
    law_built_in_descriptions_have_sound_shape(
        payload.source_url@,
        Seq::empty(),
        stream_directory(id),
        0,
        0,
    );
}

} // verus!
