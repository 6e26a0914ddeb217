//! Validation of pipeline descriptions, and the descriptions of the built-in
//! operations.
//!
//! A description is checked in two steps. Its shape is checked here: it must
//! hold something besides white space, and at least one connection between
//! elements. Whether the elements exist and fit together only the engine's
//! parser can tell; its verdict is handed in.

use crate::text::{blank, decimal, decimal_string, has_char, is_blank, same_text};
use vstd::prelude::*;

verus! {

/// What the engine's parser said of a description.
#[derive(Debug)]
pub enum EngineVerdict {
    /// The parser built a graph from the description.
    Accepted,
    /// The parser refused the description; carries its diagnostic text.
    Rejected(String),
}

/// Why a description was refused.
#[derive(Debug)]
pub enum ValidationError {
    /// Nothing is left of the description once white space is trimmed.
    EmptyDescriptor,
    /// The description connects no two elements.
    MalformedDescriptor,
    /// The engine's parser refused the description; carries its diagnostic
    /// text as it came.
    EngineRejected(String),
}

/// The mathematical value of a [`ValidationError`].
pub enum ValidationFault {
    EmptyDescriptor,
    MalformedDescriptor,
    EngineRejected(Seq<char>),
}

impl View for ValidationError {
    type V = ValidationFault;

    open spec fn view(&self) -> ValidationFault {
        match self {
            ValidationError::EmptyDescriptor => ValidationFault::EmptyDescriptor,
            ValidationError::MalformedDescriptor => ValidationFault::MalformedDescriptor,
            ValidationError::EngineRejected(detail) => ValidationFault::EngineRejected(detail@),
        }
    }
}

impl ValidationFault {
    /// The text that tells a client what is wrong.
    pub open spec fn message(self) -> Seq<char> {
        match self {
            ValidationFault::EmptyDescriptor => "Pipeline string cannot be empty"@,
            ValidationFault::MalformedDescriptor =>
                "Pipeline must contain at least one element connection (!)"@,
            ValidationFault::EngineRejected(detail) => "Invalid pipeline syntax: "@ + detail,
        }
    }
}

impl ValidationError {
    /// The text that tells a client what is wrong.
    pub fn message(&self) -> (text: String)
        ensures
            text@ == self@.message(),
    {
        match self {
            ValidationError::EmptyDescriptor => String::from_str("Pipeline string cannot be empty"),
            ValidationError::MalformedDescriptor => String::from_str(
                "Pipeline must contain at least one element connection (!)",
            ),
            ValidationError::EngineRejected(detail) => {
                let mut text = String::from_str("Invalid pipeline syntax: ");
                text.append(detail.as_str());
                text
            },
        }
    }
}

/// The token that connects two elements of a description.
pub open spec fn connection_marker() -> char {
    '!'
}

/// What is wrong with the shape of a description, if anything: it is empty
/// but for white space, or it connects nothing.
pub open spec fn shape_fault(descriptor: Seq<char>) -> Option<ValidationFault> {
    if is_blank(descriptor) {
        Some(ValidationFault::EmptyDescriptor)
    } else if !descriptor.contains(connection_marker()) {
        Some(ValidationFault::MalformedDescriptor)
    } else {
        None
    }
}

/// The result of validating a description of which the engine said
/// `engine`. The shape is judged first; the engine's verdict counts only for
/// a description of sound shape.
pub open spec fn validated(descriptor: Seq<char>, engine: EngineVerdict) -> Result<
    (),
    ValidationFault,
> {
    match shape_fault(descriptor) {
        Some(fault) => Err(fault),
        None => match engine {
            EngineVerdict::Accepted => Ok(()),
            EngineVerdict::Rejected(detail) => Err(ValidationFault::EngineRejected(detail@)),
        },
    }
}

/// Checks the shape of a description, which needs no engine. A description
/// that passes is worth handing to the engine's parser.
pub fn check_descriptor_shape(descriptor: &str) -> (r: Result<(), ValidationError>)
    ensures
        match r {
            Ok(()) => shape_fault(descriptor@) is None,
            Err(e) => shape_fault(descriptor@) == Some(e@),
        },
{
    if blank(descriptor) {
        Err(ValidationError::EmptyDescriptor)
    } else if !has_char(descriptor, '!') {
        Err(ValidationError::MalformedDescriptor)
    } else {
        Ok(())
    }
}

/// Validates a description, given what the engine's parser said of it.
///
/// The description is accepted if and only if something is left of it once
/// white space is trimmed, it holds a connection marker, and the engine
/// accepted it. Otherwise the first of these that fails names the error.
pub fn validate_pipeline_string(pipeline_string: &str, engine: &EngineVerdict) -> (r: Result<
    (),
    ValidationError,
>)
    ensures
        r is Ok <==> !is_blank(pipeline_string@) && pipeline_string@.contains(connection_marker())
            && *engine is Accepted,
        match r {
            Ok(()) => validated(pipeline_string@, *engine) is Ok,
            Err(e) => validated(pipeline_string@, *engine) == Err::<(), ValidationFault>(e@),
        },
{
    match check_descriptor_shape(pipeline_string) {
        Err(e) => Err(e),
        Ok(()) => match engine {
            EngineVerdict::Accepted => Ok(()),
            EngineVerdict::Rejected(detail) => Err(ValidationError::EngineRejected(detail.clone())),
        },
    }
}

/// The stages between source and sink that convert to `format`, where the
/// format is supported.
pub open spec fn conversion_stages(format: Seq<char>) -> Option<Seq<char>> {
    if format == "webm"@ {
        Some(" ! decodebin ! videoconvert ! vp8enc ! webmmux ! filesink location="@)
    } else if format == "mp4"@ {
        Some(" ! decodebin ! videoconvert ! x264enc ! mp4mux ! filesink location="@)
    } else if format == "avi"@ {
        Some(" ! decodebin ! videoconvert ! x264enc ! avimux ! filesink location="@)
    } else {
        None
    }
}

/// The description of the pipeline that converts `source` to `format` and
/// writes to `output`, or the text of the refusal of an unsupported format.
pub open spec fn conversion_pipeline(source: Seq<char>, format: Seq<char>, output: Seq<char>) -> Result<
    Seq<char>,
    Seq<char>,
> {
    match conversion_stages(format) {
        Some(stages) => Ok("souphttpsrc location="@ + source + stages + output),
        None => Err("Unsupported output format: "@ + format),
    }
}

/// The description of the pipeline that takes a still image of `width` by
/// `height` pixels from `source` and writes it, as PNG, to `output`.
pub open spec fn thumbnail_pipeline(source: Seq<char>, output: Seq<char>, width: u32, height: u32) -> Seq<
    char,
> {
    "souphttpsrc location="@ + source
        + " ! decodebin ! videoconvert ! videoscale ! video/x-raw,width="@ + decimal(width as nat)
        + ",height="@ + decimal(height as nat) + " ! pngenc ! filesink location="@ + output
}

/// The description of the pipeline that streams `source` as HLS into the
/// directory `output_dir`: segments and a playlist.
pub open spec fn hls_stream_pipeline(source: Seq<char>, output_dir: Seq<char>) -> Seq<char> {
    "souphttpsrc location="@ + source
        + " ! decodebin ! videoconvert ! x264enc bitrate=1000 ! mpegtsmux ! hlssink location="@
        + output_dir + "/segment_%05d.ts playlist-location="@ + output_dir
        + "/playlist.m3u8 max-files=10"@
}

/// Describes the pipeline that converts a remote source to `output_format`,
/// one of `webm`, `mp4` and `avi`, and writes to `output_path`.
pub fn create_conversion_pipeline(source_url: &str, output_format: &str, output_path: &str) -> (r:
    Result<String, String>)
    ensures
        match r {
            Ok(d) => conversion_pipeline(source_url@, output_format@, output_path@) == Ok::<
                Seq<char>,
                Seq<char>,
            >(d@),
            Err(e) => conversion_pipeline(source_url@, output_format@, output_path@) == Err::<
                Seq<char>,
                Seq<char>,
            >(e@),
        },
{
    let stages = if same_text(output_format, "webm") {
        " ! decodebin ! videoconvert ! vp8enc ! webmmux ! filesink location="
    } else if same_text(output_format, "mp4") {
        " ! decodebin ! videoconvert ! x264enc ! mp4mux ! filesink location="
    } else if same_text(output_format, "avi") {
        " ! decodebin ! videoconvert ! x264enc ! avimux ! filesink location="
    } else {
        let mut e = String::from_str("Unsupported output format: ");
        e.append(output_format);
        return Err(e);
    };
    let mut d = String::from_str("souphttpsrc location=");
    d.append(source_url);
    d.append(stages);
    d.append(output_path);
    Ok(d)
}

/// Describes the pipeline that takes a still image from a remote video,
/// scales it to `width` by `height` pixels and writes it, as PNG, to
/// `output_path`. The position in the video plays no part yet: the image
/// comes from the start of the stream.
pub fn create_thumbnail_pipeline(
    source_url: &str,
    output_path: &str,
    width: u32,
    height: u32,
    _timestamp: &str,
) -> (d: String)
    ensures
        d@ == thumbnail_pipeline(source_url@, output_path@, width, height),
{
    let mut d = String::from_str("souphttpsrc location=");
    d.append(source_url);
    d.append(" ! decodebin ! videoconvert ! videoscale ! video/x-raw,width=");
    d.append(decimal_string(width).as_str());
    d.append(",height=");
    d.append(decimal_string(height).as_str());
    d.append(" ! pngenc ! filesink location=");
    d.append(output_path);
    d
}

/// Describes the pipeline that streams a remote source as HLS: H.264 at
/// 1000 kbit/s in transport-stream segments, of which the ten newest are
/// kept, and a playlist, all in `output_dir`.
pub fn create_hls_stream_pipeline(source_url: &str, output_dir: &str) -> (d: String)
    ensures
        d@ == hls_stream_pipeline(source_url@, output_dir@),
{
    let mut d = String::from_str("souphttpsrc location=");
    d.append(source_url);
    d.append(" ! decodebin ! videoconvert ! x264enc bitrate=1000 ! mpegtsmux ! hlssink location=");
    d.append(output_dir);
    d.append("/segment_%05d.ts playlist-location=");
    d.append(output_dir);
    d.append("/playlist.m3u8 max-files=10");
    d
}

/// A text that begins with `head` and goes on with `tail` has a sound shape
/// where `head` begins with a character that is no white space and `tail`
/// holds a connection marker.
proof fn lemma_sound_shape(d: Seq<char>, head: Seq<char>, at: int)
    requires
        head.len() > 0,
        head.len() <= d.len(),
        d[0] == head[0],
        !crate::text::is_whitespace(head[0]),
        0 <= at < d.len(),
        d[at] == connection_marker(),
    ensures
        shape_fault(d) is None,
{
    assert(!crate::text::is_whitespace(d[0]));
    assert(d.contains(connection_marker()));
}

/// The descriptions of the built-in operations have a sound shape, whatever
/// the source and the output: for them validation rests with the engine.
pub proof fn law_built_in_descriptions_have_sound_shape(
    source: Seq<char>,
    format: Seq<char>,
    output: Seq<char>,
    width: u32,
    height: u32,
)
    ensures
        conversion_pipeline(source, format, output) matches Ok(d) ==> shape_fault(d) is None,
        shape_fault(thumbnail_pipeline(source, output, width, height)) is None,
        shape_fault(hls_stream_pipeline(source, output)) is None,
{
    let head = "souphttpsrc location="@;
    reveal_strlit("souphttpsrc location=");
    assert(head.len() == 21 && head[0] == 's');
    let at: int = (head.len() + source.len() + 1) as int;
    if conversion_pipeline(source, format, output) is Ok {
        let d = conversion_pipeline(source, format, output)->Ok_0;
        let stages = conversion_stages(format)->0;
        reveal_strlit(" ! decodebin ! videoconvert ! vp8enc ! webmmux ! filesink location=");
        reveal_strlit(" ! decodebin ! videoconvert ! x264enc ! mp4mux ! filesink location=");
        reveal_strlit(" ! decodebin ! videoconvert ! x264enc ! avimux ! filesink location=");
        assert(stages.len() > 1 && stages[1] == '!');
        assert(d == head + source + stages + output);
        assert(d[0] == head[0]);
        assert(d[at] == stages[1]);
        lemma_sound_shape(d, head, at);
    }
    {
        let stages = " ! decodebin ! videoconvert ! videoscale ! video/x-raw,width="@;
        reveal_strlit(" ! decodebin ! videoconvert ! videoscale ! video/x-raw,width=");
        let d = thumbnail_pipeline(source, output, width, height);
        assert(stages.len() > 1 && stages[1] == '!');
        assert(d[0] == head[0]);
        assert(d[at] == stages[1]);
        lemma_sound_shape(d, head, at);
    }
    {
        let stages =
            " ! decodebin ! videoconvert ! x264enc bitrate=1000 ! mpegtsmux ! hlssink location="@;
        reveal_strlit(
            " ! decodebin ! videoconvert ! x264enc bitrate=1000 ! mpegtsmux ! hlssink location=",
        );
        let d = hls_stream_pipeline(source, output);
        assert(stages.len() > 1 && stages[1] == '!');
        assert(d[0] == head[0]);
        assert(d[at] == stages[1]);
        lemma_sound_shape(d, head, at);
    }
}

/// A description is valid if and only if something is left of it once white
/// space is trimmed, it holds a connection marker, and the engine accepted
/// it; every other description fails with the error of the first of these
/// that it misses.
pub proof fn law_validation_is_exact(descriptor: Seq<char>, engine: EngineVerdict)
    ensures
        validated(descriptor, engine) is Ok <==> !is_blank(descriptor) && descriptor.contains(
            connection_marker(),
        ) && engine is Accepted,
        is_blank(descriptor) ==> validated(descriptor, engine) == Err::<(), ValidationFault>(
            ValidationFault::EmptyDescriptor,
        ),
        !is_blank(descriptor) && !descriptor.contains(connection_marker()) ==> validated(
            descriptor,
            engine,
        ) == Err::<(), ValidationFault>(ValidationFault::MalformedDescriptor),
        !is_blank(descriptor) && descriptor.contains(connection_marker()) ==> (engine matches EngineVerdict::Rejected(
            detail,
        ) ==> validated(descriptor, engine) == Err::<(), ValidationFault>(
            ValidationFault::EngineRejected(detail@),
        )),
{
}

} // verus!
