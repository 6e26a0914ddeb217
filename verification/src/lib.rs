//! Control plane for media processing jobs on remote sources.
//!
//! The library validates pipeline descriptions, keeps the registry of accepted
//! pipelines with their lifecycle state, decides each step of a media probe,
//! and shapes the answers to requests. The media engine and the network stay
//! outside: what the engine said or did is handed in as plain values.

pub mod clock;
pub mod handlers;
pub mod lifecycle;
pub mod models;
pub mod platform;
pub mod registry;
pub mod services;
pub mod text;

pub use models::{
    ApiError, ConvertRequest, ConvertResponse, CreatePipelineRequest, PipelineInfo, PipelineState,
    SampleMedia, StreamRequest, StreamResponse, ThumbnailInfo, ThumbnailRequest,
    ThumbnailResponse,
};
pub use registry::Registry;
pub use services::MediaInfo;
