//! Bodies of the responses, and the error body shared by all operations.

use vstd::prelude::*;

verus! {

/// Answer to a conversion request.
#[derive(Debug)]
pub struct ConvertResponse {
    pub pipeline_id: String,
    pub status: String,
    pub message: String,
    pub estimated_duration: Option<String>,
}

/// Answer to a thumbnail request.
#[derive(Debug)]
pub struct ThumbnailResponse {
    pub pipeline_id: String,
    pub status: String,
    pub message: String,
    pub output_info: Option<ThumbnailInfo>,
}

/// What the thumbnail will look like.
#[derive(Debug)]
pub struct ThumbnailInfo {
    pub width: u32,
    pub height: u32,
    pub format: String,
    pub timestamp: String,
}

/// Answer to a stream request.
#[derive(Debug)]
pub struct StreamResponse {
    pub pipeline_id: String,
    pub status: String,
    pub stream_url: Option<String>,
    pub message: String,
}

/// A publicly available media file to try the service with.
#[derive(Debug)]
pub struct SampleMedia {
    pub name: String,
    pub url: String,
    pub media_type: String,
    pub duration: Option<String>,
    pub description: String,
}

/// The body of every error answer: what went wrong and, where known, why.
#[derive(Debug)]
pub struct ApiError {
    pub error: String,
    pub details: Option<String>,
}

impl ApiError {
    /// An error without details.
    pub fn new(error: &str) -> (e: Self)
        ensures
            e.error@ == error@,
            e.details is None,
    {
        ApiError { error: error.to_owned(), details: None }
    }

    /// An error with details.
    pub fn with_details(error: &str, details: &str) -> (e: Self)
        ensures
            e.error@ == error@,
            e.details matches Some(d) && d@ == details@,
    {
        ApiError { error: error.to_owned(), details: Some(details.to_owned()) }
    }
}

} // verus!
