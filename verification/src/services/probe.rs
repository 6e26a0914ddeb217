//! The media probe: a bounded-time look at a remote source.
//!
//! A probe builds a small graph that detects the type of the source without
//! decoding it, waits until the engine has negotiated formats or the time
//! budget is spent, reads what was negotiated, and stops the graph. The
//! engine is not called from here. [`Probe`] decides each step: it names the
//! next action, the caller performs it and reports what happened.

use crate::services::pipeline::{failure_message, failure_text, BusMessage, EngineState};
use crate::services::{MediaInfo, MediaProbeResult};
use crate::text::{chars_of, has_prefix, has_suffix, matches_at, same_text, starts_with};
use vstd::prelude::*;

verus! {

/// The label of a source of which nothing was found out.
pub open spec fn unknown_label() -> Seq<char> {
    "unknown"@
}

/// One negotiated format: its label and, for video, its dimensions.
#[derive(Debug)]
pub struct Capability {
    /// Media type, such as `video/x-raw`.
    pub label: String,
    /// Width in pixels, as the engine reports it.
    pub width: Option<i32>,
    /// Height in pixels, as the engine reports it.
    pub height: Option<i32>,
}

/// What the engine reports of a graph once negotiation is over.
#[derive(Debug)]
pub struct GraphSnapshot {
    /// The length of the media in seconds, where the engine can tell.
    pub duration_seconds: Option<u64>,
    /// The formats negotiated at the output of the type-detection stage.
    pub detected: Option<Vec<Capability>>,
    /// The formats negotiated at each stream endpoint of the graph, in the
    /// engine's order; `None` for an endpoint without negotiated formats.
    pub endpoints: Vec<Option<Vec<Capability>>>,
}

/// A reported dimension as a positive number of pixels; a report that is not
/// positive counts as none.
pub open spec fn dimension(reported: Option<i32>) -> Option<u32> {
    match reported {
        Some(v) if v > 0 => Some(v as u32),
        _ => None,
    }
}

/// Whether a label names a video format.
pub open spec fn is_video(label: Seq<char>) -> bool {
    has_prefix(label, "video/"@)
}

/// The first video format among `formats`.
pub open spec fn first_video_among(formats: Seq<Capability>) -> Option<Capability>
    decreases formats.len(),
{
    if formats.len() == 0 {
        None
    } else if is_video(formats[0].label@) {
        Some(formats[0])
    } else {
        first_video_among(formats.drop_first())
    }
}

/// The first video format among the formats of `endpoints`, taken endpoint by
/// endpoint.
pub open spec fn first_video(endpoints: Seq<Option<Vec<Capability>>>) -> Option<Capability>
    decreases endpoints.len(),
{
    if endpoints.len() == 0 {
        None
    } else {
        let here = match endpoints[0] {
            Some(formats) => first_video_among(formats@),
            None => None,
        };
        if here is Some {
            here
        } else {
            first_video(endpoints.drop_first())
        }
    }
}

/// `found` where it holds something, else `known`.
pub open spec fn preferring(found: Option<u32>, known: Option<u32>) -> Option<u32> {
    if found is Some {
        found
    } else {
        known
    }
}

/// The first format that the type-detection stage negotiated.
pub open spec fn detected_format(snapshot: GraphSnapshot) -> Option<Capability> {
    match snapshot.detected {
        Some(formats) if formats@.len() > 0 => Some(formats@[0]),
        _ => None,
    }
}

/// The detected format where it is a video format: only a video format has
/// dimensions to report.
pub open spec fn detected_video(snapshot: GraphSnapshot) -> Option<Capability> {
    match detected_format(snapshot) {
        Some(c) if is_video(c.label@) => Some(c),
        _ => None,
    }
}

/// Whether a video format was negotiated anywhere in the graph: at the
/// type-detection stage or at one of the endpoints.
pub open spec fn video_negotiated(snapshot: GraphSnapshot) -> bool {
    detected_video(snapshot) is Some || first_video(snapshot.endpoints@) is Some
}

/// What a snapshot says of the source. The label is that of the detected
/// format, or `unknown` without one. The dimensions come from the detected
/// format where it is a video format. Where a dimension is still missing, the
/// first video format among the endpoints supplies what it has. A source
/// without a video format has no dimensions.
pub open spec fn extracted(snapshot: GraphSnapshot) -> MediaProbeResult {
    let label = match detected_format(snapshot) {
        Some(c) => c.label@,
        None => unknown_label(),
    };
    let width = match detected_video(snapshot) {
        Some(c) => dimension(c.width),
        None => None,
    };
    let height = match detected_video(snapshot) {
        Some(c) => dimension(c.height),
        None => None,
    };
    let video = if width is None || height is None {
        first_video(snapshot.endpoints@)
    } else {
        None
    };
    MediaProbeResult {
        duration_seconds: snapshot.duration_seconds,
        width: match video {
            Some(c) => preferring(dimension(c.width), width),
            None => width,
        },
        height: match video {
            Some(c) => preferring(dimension(c.height), height),
            None => height,
        },
        bitrate: None,
        format_label: label,
    }
}

/// A reported dimension as a positive number of pixels.
pub fn to_dimension(reported: Option<i32>) -> (d: Option<u32>)
    ensures
        d == dimension(reported),
        d matches Some(v) ==> v > 0,
{
    match reported {
        Some(v) => if v > 0 {
            Some(v as u32)
        } else {
            None
        },
        None => None,
    }
}

/// The position of the first video format among `formats`.
fn find_video_among(formats: &Vec<Capability>) -> (found: Option<usize>)
    ensures
        match found {
            Some(i) => i < formats@.len() && first_video_among(formats@) == Some(formats@[i as int]),
            None => first_video_among(formats@) is None,
        },
{
    let mut i: usize = 0;
    assert(formats@.skip(0) == formats@);
    while i < formats.len()
        invariant
            i <= formats@.len(),
            first_video_among(formats@) == first_video_among(formats@.skip(i as int)),
        decreases formats@.len() - i,
    {
        proof {
            assert(formats@.skip(i as int)[0] == formats@[i as int]);
            assert(formats@.skip(i as int).drop_first() == formats@.skip(i + 1));
        }
        if starts_with(formats[i].label.as_str(), "video/") {
            return Some(i);
        }
        i += 1;
    }
    None
}

/// The dimensions that the first video format among the endpoints reports.
fn video_dimensions(endpoints: &Vec<Option<Vec<Capability>>>) -> (found: Option<
    (Option<u32>, Option<u32>),
>)
    ensures
        match found {
            Some((w, h)) => first_video(endpoints@) matches Some(c) && w == dimension(c.width) && h
                == dimension(c.height),
            None => first_video(endpoints@) is None,
        },
{
    let mut i: usize = 0;
    assert(endpoints@.skip(0) == endpoints@);
    while i < endpoints.len()
        invariant
            i <= endpoints@.len(),
            first_video(endpoints@) == first_video(endpoints@.skip(i as int)),
        decreases endpoints@.len() - i,
    {
        proof {
            assert(endpoints@.skip(i as int)[0] == endpoints@[i as int]);
            assert(endpoints@.skip(i as int).drop_first() == endpoints@.skip(i + 1));
        }
        match &endpoints[i] {
            Some(formats) => {
                match find_video_among(formats) {
                    Some(k) => {
                        let c = &formats[k];
                        return Some((to_dimension(c.width), to_dimension(c.height)));
                    },
                    None => {},
                }
            },
            None => {},
        }
        i += 1;
    }
    None
}

/// Reads a snapshot: duration, label and dimensions of the source, as far as
/// the engine found them. Dimensions are read from video formats only, so a
/// result has a width or a height only where a video format was negotiated,
/// and each is positive.
pub fn extract_media_info(snapshot: &GraphSnapshot) -> (info: MediaInfo)
    ensures
        info@ == extracted(*snapshot),
        info@.well_formed(),
        info.width is Some || info.height is Some ==> video_negotiated(*snapshot),
{
    let mut format = String::from_str("unknown");
    let mut width: Option<u32> = None;
    let mut height: Option<u32> = None;
    match &snapshot.detected {
        Some(formats) => {
            if formats.len() > 0 {
                let c = &formats[0];
                format = c.label.clone();
                if starts_with(c.label.as_str(), "video/") {
                    width = to_dimension(c.width);
                    height = to_dimension(c.height);
                }
            }
        },
        None => {},
    }
    if width.is_none() || height.is_none() {
        match video_dimensions(&snapshot.endpoints) {
            Some((w, h)) => {
                if w.is_some() {
                    width = w;
                }
                if h.is_some() {
                    height = h;
                }
            },
            None => {},
        }
    }
    MediaInfo { duration: snapshot.duration_seconds, width, height, bitrate: None, format }
}

/// Whether `c` ends the path of a locator: what follows is a query or a
/// fragment.
pub open spec fn ends_path(c: char) -> bool {
    c == '?' || c == '#'
}

/// Whether the path of `locator` is `n` characters long: it ends before the
/// first character that starts a query or a fragment.
pub open spec fn is_path_length(locator: Seq<char>, n: int) -> bool {
    &&& 0 <= n <= locator.len()
    &&& forall|i: int| 0 <= i < n ==> !ends_path(#[trigger] locator[i])
    &&& n < locator.len() ==> ends_path(locator[n])
}

/// The path of a locator: the locator without query and fragment.
pub open spec fn path_of(locator: Seq<char>) -> Seq<char> {
    locator.take(choose|n: int| is_path_length(locator, n))
}

/// The media type that the suffix of the locator's path suggests.
pub open spec fn guessed_label(locator: Seq<char>) -> Option<Seq<char>> {
    let path = path_of(locator);
    if has_suffix(path, ".mp4"@) {
        Some("video/mp4"@)
    } else if has_suffix(path, ".webm"@) {
        Some("video/webm"@)
    } else if has_suffix(path, ".mp3"@) {
        Some("audio/mpeg"@)
    } else if has_suffix(path, ".ogg"@) {
        Some("audio/ogg"@)
    } else {
        None
    }
}

/// `found`, with a label guessed from the locator where the probe found none
/// and the locator suggests one.
pub open spec fn with_guess(found: MediaProbeResult, locator: Seq<char>) -> MediaProbeResult {
    if found.format_label == unknown_label() {
        match guessed_label(locator) {
            Some(label) => MediaProbeResult { format_label: label, ..found },
            None => found,
        }
    } else {
        found
    }
}

proof fn lemma_path_length_unique(locator: Seq<char>, n: int, m: int)
    requires
        is_path_length(locator, n),
        is_path_length(locator, m),
    ensures
        n == m,
{
    if n < m {
        assert(ends_path(locator[n]));
    }
    if m < n {
        assert(ends_path(locator[m]));
    }
}

/// The length of the path of `locator`.
fn path_length(locator: &Vec<char>) -> (n: usize)
    ensures
        n <= locator@.len(),
        path_of(locator@) == locator@.take(n as int),
{
    let mut n: usize = 0;
    while n < locator.len() && !(locator[n] == '?' || locator[n] == '#')
        invariant
            n <= locator@.len(),
            forall|i: int| 0 <= i < n ==> !ends_path(#[trigger] locator@[i]),
        decreases locator@.len() - n,
    {
        n += 1;
    }
    proof {
        assert(is_path_length(locator@, n as int));
        let m = choose|m: int| is_path_length(locator@, m);
        lemma_path_length_unique(locator@, n as int, m);
    }
    n
}

/// Whether the first `n` characters of `hay` end with `suffix`.
fn prefix_ends_with(hay: &Vec<char>, n: usize, suffix: &str) -> (b: bool)
    requires
        n <= hay@.len(),
    ensures
        b == has_suffix(hay@.take(n as int), suffix@),
{
    let needle = chars_of(suffix);
    if needle.len() > n {
        return false;
    }
    let at: usize = n - needle.len();
    proof {
        assert(hay@.take(n as int).subrange(at as int, at + needle@.len()) == hay@.subrange(
            at as int,
            at + needle@.len(),
        ));
    }
    matches_at(hay, &needle, at)
}

/// The media type that the suffix of the locator's path suggests: a guess
/// for a source of which the engine told nothing.
pub fn guess_format(locator: &str) -> (label: Option<String>)
    ensures
        match label {
            Some(l) => guessed_label(locator@) == Some(l@),
            None => guessed_label(locator@) is None,
        },
{
    let chars = chars_of(locator);
    let n = path_length(&chars);
    if prefix_ends_with(&chars, n, ".mp4") {
        Some(String::from_str("video/mp4"))
    } else if prefix_ends_with(&chars, n, ".webm") {
        Some(String::from_str("video/webm"))
    } else if prefix_ends_with(&chars, n, ".mp3") {
        Some(String::from_str("audio/mpeg"))
    } else if prefix_ends_with(&chars, n, ".ogg") {
        Some(String::from_str("audio/ogg"))
    } else {
        None
    }
}

/// Completes what a probe found: where the label is still `unknown`, the
/// label that the locator suggests takes its place.
pub fn apply_format_guess(found: MediaInfo, locator: &str) -> (info: MediaInfo)
    ensures
        info@ == with_guess(found@, locator@),
{
    if same_text(found.format.as_str(), "unknown") {
        match guess_format(locator) {
            Some(label) => MediaInfo {
                duration: found.duration,
                width: found.width,
                height: found.height,
                bitrate: found.bitrate,
                format: label,
            },
            None => found,
        }
    } else {
        found
    }
}

/// The failure of a probe.
#[derive(Debug)]
pub enum ProbeError {
    /// The engine failed to build, start, negotiate or stop the graph;
    /// carries its diagnostic text.
    EngineError(String),
}

impl ProbeError {
    /// The diagnostic text.
    pub open spec fn detail(self) -> Seq<char> {
        match self {
            ProbeError::EngineError(text) => text@,
        }
    }

    /// The diagnostic text.
    pub fn message(&self) -> (text: String)
        ensures
            text@ == self.detail(),
    {
        match self {
            ProbeError::EngineError(text) => text.clone(),
        }
    }
}

/// How long one wait for a bus message may take, in milliseconds.
pub const POLL_INTERVAL_MS: u64 = 100;

/// The time budget of a probe where the caller names none, in milliseconds.
pub const DEFAULT_BUDGET_MS: u64 = 10000;

/// What the caller of a probe is to do next.
#[derive(Debug, Clone, Copy, PartialEq, Eq, Structural)]
pub enum ProbeAction {
    /// Build the graph of [`Probe::descriptor`] and bring it to the paused
    /// state, in which formats are negotiated and nothing is played.
    Launch,
    /// Wait for a bus message, no longer than [`POLL_INTERVAL_MS`].
    Poll,
    /// Report the duration and the negotiated formats.
    Inspect,
    /// Bring the graph to the fully stopped state.
    TearDown,
    /// Nothing: the probe is over and its outcome can be taken.
    Finish,
}

/// What the caller of a probe reports back.
#[derive(Debug)]
pub enum ProbeEvent {
    /// The engine could not build a graph from the descriptor; no graph
    /// exists.
    BuildFailed(String),
    /// The graph was built, but refused the paused state.
    StartFailed(String),
    /// The graph was built and is on its way to the paused state.
    Started,
    /// A wait for a bus message is over: the message, if one came, and the
    /// milliseconds that have passed since the graph was started.
    Polled(Option<BusMessage>, u64),
    /// What the engine reports of the graph.
    Inspected(GraphSnapshot),
    /// The graph was brought to the stopped state, or the engine's text on
    /// why it could not be.
    TornDown(Result<(), String>),
}

/// Where a probe stands, as a mathematical value. A result is `Ok` with what
/// was found or `Err` with the diagnostic text of the failure.
pub enum Stage {
    /// The graph is not built yet.
    Launching,
    /// The graph is negotiating; the bus is being polled.
    Negotiating,
    /// Negotiation is over, or the budget is spent; the graph waits to be
    /// read.
    Inspecting,
    /// The result is known; the graph is still to be stopped.
    Closing(Result<MediaProbeResult, Seq<char>>),
    /// The probe is over.
    Finished(Result<MediaProbeResult, Seq<char>>),
}

/// Where a probe stands.
#[derive(Debug)]
enum Progress {
    Launching,
    Negotiating,
    Inspecting,
    Closing(Result<MediaInfo, ProbeError>),
    Finished(Result<MediaInfo, ProbeError>),
}

/// The mathematical value of a probe's result.
pub open spec fn result_view(result: Result<MediaInfo, ProbeError>) -> Result<
    MediaProbeResult,
    Seq<char>,
> {
    match result {
        Ok(info) => Ok(info@),
        Err(e) => Err(e.detail()),
    }
}

impl View for Progress {
    type V = Stage;

    closed spec fn view(&self) -> Stage {
        match self {
            Progress::Launching => Stage::Launching,
            Progress::Negotiating => Stage::Negotiating,
            Progress::Inspecting => Stage::Inspecting,
            Progress::Closing(result) => Stage::Closing(result_view(*result)),
            Progress::Finished(result) => Stage::Finished(result_view(*result)),
        }
    }
}

/// The description of the graph that inspects `locator`: it fetches the
/// source and detects its type, and decodes nothing.
pub open spec fn discovery_descriptor(locator: Seq<char>) -> Seq<char> {
    "souphttpsrc location="@ + locator
        + " ! typefind ! identity signal-handoffs=false ! fakesink sync=false"@
}

/// Whether a bus message tells that negotiation is over: an asynchronous
/// state change has completed, or the graph itself has reached the paused
/// state.
pub open spec fn settles(message: BusMessage) -> bool {
    match message {
        BusMessage::AsyncDone => true,
        BusMessage::StateChanged { old, current, from_graph } => from_graph && current
            == EngineState::Paused,
        _ => false,
    }
}

/// The stage that follows `stage` on `event`, for a probe of `locator` with
/// a budget of `budget_ms` milliseconds. An event that does not answer the
/// action of the stage changes nothing.
pub open spec fn next_stage(stage: Stage, event: ProbeEvent, locator: Seq<char>, budget_ms: u64) -> Stage {
    match stage {
        Stage::Launching => match event {
            ProbeEvent::BuildFailed(detail) => Stage::Finished(Err(detail@)),
            ProbeEvent::StartFailed(detail) => Stage::Closing(Err(detail@)),
            ProbeEvent::Started => if budget_ms > 0 {
                Stage::Negotiating
            } else {
                Stage::Inspecting
            },
            _ => stage,
        },
        Stage::Negotiating => match event {
            ProbeEvent::Polled(Some(BusMessage::Error(detail)), _) => Stage::Closing(
                Err(failure_text(detail@)),
            ),
            ProbeEvent::Polled(Some(message), elapsed_ms) => if settles(message) || elapsed_ms
                >= budget_ms {
                Stage::Inspecting
            } else {
                Stage::Negotiating
            },
            ProbeEvent::Polled(None, elapsed_ms) => if elapsed_ms >= budget_ms {
                Stage::Inspecting
            } else {
                Stage::Negotiating
            },
            _ => stage,
        },
        Stage::Inspecting => match event {
            ProbeEvent::Inspected(snapshot) => Stage::Closing(Ok(extracted(snapshot))),
            _ => stage,
        },
        Stage::Closing(result) => match event {
            ProbeEvent::TornDown(Ok(())) => Stage::Finished(
                match result {
                    Ok(found) => Ok(with_guess(found, locator)),
                    Err(detail) => Err(detail),
                },
            ),
            ProbeEvent::TornDown(Err(detail)) => Stage::Finished(Err(detail@)),
            _ => stage,
        },
        Stage::Finished(_) => stage,
    }
}

/// The action that a stage asks for.
pub open spec fn action_of(stage: Stage) -> ProbeAction {
    match stage {
        Stage::Launching => ProbeAction::Launch,
        Stage::Negotiating => ProbeAction::Poll,
        Stage::Inspecting => ProbeAction::Inspect,
        Stage::Closing(_) => ProbeAction::TearDown,
        Stage::Finished(_) => ProbeAction::Finish,
    }
}

/// A probe of one source: the locator, the time budget, and how far the
/// probe has come.
#[derive(Debug)]
pub struct Probe {
    locator: String,
    budget_ms: u64,
    progress: Progress,
}

impl Probe {
    /// The locator of the source.
    pub closed spec fn locator(&self) -> Seq<char> {
        self.locator@
    }

    /// The time budget in milliseconds.
    pub closed spec fn budget_ms(&self) -> u64 {
        self.budget_ms
    }

    /// Where the probe stands.
    pub closed spec fn stage(&self) -> Stage {
        self.progress@
    }

    /// A probe of `locator` that may wait `budget_ms` milliseconds for the
    /// engine to negotiate.
    pub fn new(locator: &str, budget_ms: u64) -> (probe: Self)
        ensures
            probe.locator() == locator@,
            probe.budget_ms() == budget_ms,
            probe.stage() == Stage::Launching,
    {
        Probe { locator: locator.to_owned(), budget_ms, progress: Progress::Launching }
    }

    /// The description of the graph to build.
    pub fn descriptor(&self) -> (d: String)
        ensures
            d@ == discovery_descriptor(self.locator()),
    {
        let mut d = String::from_str("souphttpsrc location=");
        d.append(self.locator.as_str());
        d.append(" ! typefind ! identity signal-handoffs=false ! fakesink sync=false");
        d
    }

    /// What the caller is to do next.
    pub fn action(&self) -> (a: ProbeAction)
        ensures
            a == action_of(self.stage()),
    {
        match &self.progress {
            Progress::Launching => ProbeAction::Launch,
            Progress::Negotiating => ProbeAction::Poll,
            Progress::Inspecting => ProbeAction::Inspect,
            Progress::Closing(_) => ProbeAction::TearDown,
            Progress::Finished(_) => ProbeAction::Finish,
        }
    }

    /// The probe after `event`.
    pub fn advance(self, event: ProbeEvent) -> (next: Self)
        ensures
            next.locator() == self.locator(),
            next.budget_ms() == self.budget_ms(),
            next.stage() == next_stage(self.stage(), event, self.locator(), self.budget_ms()),
    {
        let Probe { locator, budget_ms, progress } = self;
        let progress = match progress {
            Progress::Launching => match event {
                ProbeEvent::BuildFailed(detail) => Progress::Finished(
                    Err(ProbeError::EngineError(detail)),
                ),
                ProbeEvent::StartFailed(detail) => Progress::Closing(
                    Err(ProbeError::EngineError(detail)),
                ),
                ProbeEvent::Started => if budget_ms > 0 {
                    Progress::Negotiating
                } else {
                    Progress::Inspecting
                },
                _ => Progress::Launching,
            },
            Progress::Negotiating => match event {
                ProbeEvent::Polled(Some(BusMessage::Error(detail)), _) => Progress::Closing(
                    Err(ProbeError::EngineError(failure_message(detail.as_str()))),
                ),
                ProbeEvent::Polled(Some(message), elapsed_ms) => if negotiation_settled(&message)
                    || elapsed_ms >= budget_ms {
                    Progress::Inspecting
                } else {
                    Progress::Negotiating
                },
                ProbeEvent::Polled(None, elapsed_ms) => if elapsed_ms >= budget_ms {
                    Progress::Inspecting
                } else {
                    Progress::Negotiating
                },
                _ => Progress::Negotiating,
            },
            Progress::Inspecting => match event {
                ProbeEvent::Inspected(snapshot) => Progress::Closing(
                    Ok(extract_media_info(&snapshot)),
                ),
                _ => Progress::Inspecting,
            },
            Progress::Closing(result) => match event {
                ProbeEvent::TornDown(Ok(())) => Progress::Finished(
                    match result {
                        Ok(found) => Ok(apply_format_guess(found, locator.as_str())),
                        Err(e) => Err(e),
                    },
                ),
                ProbeEvent::TornDown(Err(detail)) => Progress::Finished(
                    Err(ProbeError::EngineError(detail)),
                ),
                _ => Progress::Closing(result),
            },
            Progress::Finished(result) => Progress::Finished(result),
        };
        Probe { locator, budget_ms, progress }
    }

    /// The outcome of the probe, once it is over.
    pub fn outcome(&self) -> (result: Option<Result<MediaInfo, ProbeError>>)
        ensures
            match result {
                Some(r) => self.stage() == Stage::Finished(result_view(r)),
                None => !(self.stage() is Finished),
            },
    {
        match &self.progress {
            Progress::Finished(Ok(info)) => Some(Ok(info.clone())),
            Progress::Finished(Err(e)) => Some(Err(ProbeError::EngineError(e.message()))),
            _ => None,
        }
    }
}

/// Whether a bus message tells that negotiation is over.
pub fn negotiation_settled(message: &BusMessage) -> (b: bool)
    ensures
        b == settles(*message),
{
    match message {
        BusMessage::AsyncDone => true,
        BusMessage::StateChanged { old: _, current, from_graph } => *from_graph && *current
            == EngineState::Paused,
        _ => false,
    }
}

/// The stage that a probe of `locator` reaches from `stage` after the events
/// of `events`, one after the other.
pub open spec fn stage_after(
    stage: Stage,
    events: Seq<ProbeEvent>,
    locator: Seq<char>,
    budget_ms: u64,
) -> Stage
    decreases events.len(),
{
    if events.len() == 0 {
        stage
    } else {
        stage_after(
            next_stage(stage, events[0], locator, budget_ms),
            events.drop_first(),
            locator,
            budget_ms,
        )
    }
}

/// A probe ends only by stopping its graph, or where no graph was built:
/// nothing else leads to the finished stage.
pub proof fn law_result_only_after_teardown(
    stage: Stage,
    event: ProbeEvent,
    locator: Seq<char>,
    budget_ms: u64,
)
    requires
        !(stage is Finished),
        next_stage(stage, event, locator, budget_ms) is Finished,
    ensures
        (stage is Closing && event is TornDown) || (stage is Launching && event is BuildFailed),
{
}

/// Once the budget is spent the probe asks for no further wait: a poll that
/// ends at or after the budget leaves the negotiating stage, whatever it
/// brought.
pub proof fn law_budget_bounds_polling(
    message: Option<BusMessage>,
    elapsed_ms: u64,
    locator: Seq<char>,
    budget_ms: u64,
)
    requires
        elapsed_ms >= budget_ms,
    ensures
        action_of(
            next_stage(
                Stage::Negotiating,
                ProbeEvent::Polled(message, elapsed_ms),
                locator,
                budget_ms,
            ),
        ) != ProbeAction::Poll,
{
}

/// A spent budget is no failure: the probe that hears nothing until the
/// budget is spent reads the graph, stops it, and succeeds with what the
/// snapshot holds.
pub proof fn law_timeout_yields_result(
    elapsed_ms: u64,
    snapshot: GraphSnapshot,
    locator: Seq<char>,
    budget_ms: u64,
)
    requires
        elapsed_ms >= budget_ms,
    ensures
        stage_after(
            Stage::Negotiating,
            seq![
                ProbeEvent::Polled(None, elapsed_ms),
                ProbeEvent::Inspected(snapshot),
                ProbeEvent::TornDown(Ok(())),
            ],
            locator,
            budget_ms,
        ) == Stage::Finished(Ok(with_guess(extracted(snapshot), locator))),
{
    let events = seq![
        ProbeEvent::Polled(None, elapsed_ms),
        ProbeEvent::Inspected(snapshot),
        ProbeEvent::TornDown(Ok(())),
    ];
    let two = events.drop_first();
    let one = two.drop_first();
    assert(one.drop_first().len() == 0);
    reveal_with_fuel(stage_after, 4);
}

/// An error message of the engine fails the probe, after the graph was
/// stopped, with the engine's text.
pub proof fn law_engine_error_fails(
    detail: String,
    elapsed_ms: u64,
    locator: Seq<char>,
    budget_ms: u64,
)
    ensures
        stage_after(
            Stage::Negotiating,
            seq![
                ProbeEvent::Polled(Some(BusMessage::Error(detail)), elapsed_ms),
                ProbeEvent::TornDown(Ok(())),
            ],
            locator,
            budget_ms,
        ) == Stage::Finished(Err(failure_text(detail@))),
{
    let events = seq![
        ProbeEvent::Polled(Some(BusMessage::Error(detail)), elapsed_ms),
        ProbeEvent::TornDown(Ok(())),
    ];
    let one = events.drop_first();
    assert(one.drop_first().len() == 0);
    reveal_with_fuel(stage_after, 3);
}

/// A finished probe stays as it is.
pub proof fn law_finished_is_final(
    result: Result<MediaProbeResult, Seq<char>>,
    events: Seq<ProbeEvent>,
    locator: Seq<char>,
    budget_ms: u64,
)
    ensures
        stage_after(Stage::Finished(result), events, locator, budget_ms) == Stage::Finished(result),
    decreases events.len(),
{
    if events.len() > 0 {
        law_finished_is_final(result, events.drop_first(), locator, budget_ms);
    }
}

/// The label that the type-detection stage negotiated is the label of the
/// result: a guess from the locator never takes the place of a finding.
pub proof fn law_detected_label_is_kept(snapshot: GraphSnapshot, locator: Seq<char>)
    requires
        detected_format(snapshot) matches Some(c) && c.label@ != unknown_label(),
    ensures
        with_guess(extracted(snapshot), locator).format_label == detected_format(
            snapshot,
        )->0.label@,
        with_guess(extracted(snapshot), locator) == extracted(snapshot),
{
}

/// The result of a probe has a width or a height only where a video format
/// was negotiated, and what it has of width, height and bitrate is positive,
/// whether its label was found or guessed.
pub proof fn law_dimensions_need_video(snapshot: GraphSnapshot, locator: Seq<char>)
    ensures
        ({
            let result = with_guess(extracted(snapshot), locator);
            &&& result.well_formed()
            &&& result.width is Some || result.height is Some ==> video_negotiated(snapshot)
            &&& result.width == extracted(snapshot).width
            &&& result.height == extracted(snapshot).height
        }),
{
}

} // verus!
