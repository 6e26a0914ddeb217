//! Bodies of the requests that create pipelines.

use vstd::prelude::*;

verus! {

/// A custom pipeline: a label and the full description of the graph.
#[derive(Debug)]
pub struct CreatePipelineRequest {
    /// Human-readable label.
    pub description: String,
    /// The execution-graph description.
    pub pipeline: String,
}

/// A format conversion of a remote source.
#[derive(Debug)]
pub struct ConvertRequest {
    /// HTTP(S) address of the source.
    pub source_url: String,
    /// Target format: `webm`, `mp4` or `avi`.
    pub output_format: String,
}

/// A still image taken from a remote video.
#[derive(Debug)]
pub struct ThumbnailRequest {
    /// HTTP(S) address of the source.
    pub source_url: String,
    /// Position in the video, `HH:MM:SS`; `00:00:10` when absent.
    pub timestamp: Option<String>,
    /// Width in pixels; 320 when absent.
    pub width: Option<u32>,
    /// Height in pixels; 240 when absent.
    pub height: Option<u32>,
}

/// A stream made from a remote source.
#[derive(Debug)]
pub struct StreamRequest {
    /// HTTP(S) address of the source.
    pub source_url: String,
    /// Kind of stream; only `hls` is supported.
    pub stream_type: String,
}

} // verus!
