//! Data types of the service: pipeline records, requests and responses.

pub mod pipeline;
pub mod requests;
pub mod responses;

pub use pipeline::{LifecycleState, PipelineInfo, PipelineRecord, PipelineState};
pub use requests::{ConvertRequest, CreatePipelineRequest, StreamRequest, ThumbnailRequest};
pub use responses::{
    ApiError, ConvertResponse, SampleMedia, StreamResponse, ThumbnailInfo, ThumbnailResponse,
};
