//! The operations that the service offers, without their transport.
//!
//! Each function decides what one request leads to: a change of the
//! registry and an answer, or a refusal with the status that tells a client
//! whose fault it was. Reading the request, calling the engine and sending
//! the answer are left to the caller.

pub mod media;
pub mod pipeline;
pub mod samples;

pub use media::{
    convert_media, create_stream, generate_thumbnail, plan_conversion, plan_stream, plan_thumbnail,
};
pub use pipeline::{
    analysis_target, analyze_media, analyze_media_at, create_pipeline, get_pipeline,
    list_pipelines, stop_pipeline,
};
pub use samples::{health_check, list_sample_media};

use crate::models::pipeline::optional_text;
use crate::models::responses::ApiError;
use vstd::prelude::*;

verus! {

/// The status of a refusal.
#[derive(Debug, Clone, Copy, PartialEq, Eq, Structural)]
pub enum HttpStatus {
    /// The request is at fault and can be corrected.
    BadRequest,
    /// No pipeline has the id that was asked for.
    NotFound,
    /// The source could not be analysed.
    UnprocessableEntity,
    /// The service is at fault.
    InternalServerError,
}

impl HttpStatus {
    /// The number of the status.
    pub open spec fn number(self) -> u16 {
        match self {
            HttpStatus::BadRequest => 400,
            HttpStatus::NotFound => 404,
            HttpStatus::UnprocessableEntity => 422,
            HttpStatus::InternalServerError => 500,
        }
    }

    /// The number of the status.
    pub fn code(&self) -> (n: u16)
        ensures
            n == self.number(),
    {
        match self {
            HttpStatus::BadRequest => 400,
            HttpStatus::NotFound => 404,
            HttpStatus::UnprocessableEntity => 422,
            HttpStatus::InternalServerError => 500,
        }
    }
}

/// A refused request: the status and the body of the answer.
#[derive(Debug)]
pub struct HttpFailure {
    pub status: HttpStatus,
    pub body: ApiError,
}

/// The mathematical value of an [`HttpFailure`].
pub struct Refusal {
    pub status: HttpStatus,
    pub error: Seq<char>,
    pub details: Option<Seq<char>>,
}

impl View for HttpFailure {
    type V = Refusal;

    open spec fn view(&self) -> Refusal {
        Refusal {
            status: self.status,
            error: self.body.error@,
            details: optional_text(self.body.details),
        }
    }
}

/// The refusal of a pipeline whose id a record has already. Ids are drawn by
/// the service, so the fault is the service's.
pub open spec fn id_conflict() -> Refusal {
    Refusal {
        status: HttpStatus::InternalServerError,
        error: "Pipeline id is already in use"@,
        details: None,
    }
}

/// A refusal without details.
pub fn refuse(status: HttpStatus, error: &str) -> (f: HttpFailure)
    ensures
        f@ == (Refusal { status, error: error@, details: None }),
{
    HttpFailure { status, body: ApiError::new(error) }
}

/// A refusal with details.
pub fn refuse_with(status: HttpStatus, error: &str, details: &str) -> (f: HttpFailure)
    ensures
        f@ == (Refusal { status, error: error@, details: Some(details@) }),
{
    HttpFailure { status, body: ApiError::with_details(error, details) }
}

} // verus!
