//! The rules of the service: validation of pipeline descriptions, the
//! descriptions of the built-in operations, and the media probe.

pub mod pipeline;
pub mod probe;
pub mod validation;

pub use validation::{
    create_conversion_pipeline, create_hls_stream_pipeline, create_thumbnail_pipeline,
    validate_pipeline_string,
};

use vstd::prelude::*;

verus! {

/// What a probe found out about a media source.
#[derive(Debug)]
pub struct MediaInfo {
    /// Length in seconds, where the engine could tell.
    pub duration: Option<u64>,
    /// Width in pixels, where a video stream was negotiated.
    pub width: Option<u32>,
    /// Height in pixels, where a video stream was negotiated.
    pub height: Option<u32>,
    /// Bits per second, where known.
    pub bitrate: Option<u32>,
    /// Best known media type; `unknown` where nothing was found. A label
    /// guessed from the locator's suffix is a guess, not a finding.
    pub format: String,
}

/// The mathematical value of a [`MediaInfo`].
pub struct MediaProbeResult {
    pub duration_seconds: Option<u64>,
    pub width: Option<u32>,
    pub height: Option<u32>,
    pub bitrate: Option<u32>,
    pub format_label: Seq<char>,
}

impl MediaProbeResult {
    /// Dimensions and bitrate, where present, are positive.
    pub open spec fn well_formed(self) -> bool {
        &&& self.width matches Some(w) ==> w > 0
        &&& self.height matches Some(h) ==> h > 0
        &&& self.bitrate matches Some(b) ==> b > 0
    }
}

impl View for MediaInfo {
    type V = MediaProbeResult;

    open spec fn view(&self) -> MediaProbeResult {
        MediaProbeResult {
            duration_seconds: self.duration,
            width: self.width,
            height: self.height,
            bitrate: self.bitrate,
            format_label: self.format@,
        }
    }
}

impl Clone for MediaInfo {
    fn clone(&self) -> (r: Self)
        ensures
            r == *self,
    {
        MediaInfo {
            duration: self.duration,
            width: self.width,
            height: self.height,
            bitrate: self.bitrate,
            format: self.format.clone(),
        }
    }
}

} // verus!
