//! Pipeline records and their lifecycle state.
//!
//! A record is created once, in state `Created`, and afterwards only its
//! state changes. A pipeline that runs goes from `Created` to `Playing`, and
//! between `Playing` and `Paused` as often as it is suspended and resumed.
//! From every state it may go to `Stopped`, or to `Error` with a diagnostic
//! text.
//!
//! `Stopped` and `Error` are terminal by convention only. The registry keeps
//! the permissive behaviour on purpose: it refuses no transition, so that a
//! stop can be repeated and an operator can revive a record. Whoever needs
//! terminal states to be final asks [`PipelineState::is_terminal`] first.

use vstd::prelude::*;

verus! {

/// The lifecycle state of a pipeline.
#[derive(Debug)]
pub enum PipelineState {
    /// Validated and recorded, not yet started.
    Created,
    /// Processing media.
    Playing,
    /// Suspended; may resume.
    Paused,
    /// Completed or stopped on request.
    Stopped,
    /// Failed; carries the diagnostic text.
    Error(String),
}

/// The mathematical value of a [`PipelineState`].
pub enum LifecycleState {
    Created,
    Playing,
    Paused,
    Stopped,
    Error(Seq<char>),
}

impl View for PipelineState {
    type V = LifecycleState;

    open spec fn view(&self) -> LifecycleState {
        match self {
            PipelineState::Created => LifecycleState::Created,
            PipelineState::Playing => LifecycleState::Playing,
            PipelineState::Paused => LifecycleState::Paused,
            PipelineState::Stopped => LifecycleState::Stopped,
            PipelineState::Error(msg) => LifecycleState::Error(msg@),
        }
    }
}

impl Clone for PipelineState {
    fn clone(&self) -> (r: Self)
        ensures
            r == *self,
    {
        match self {
            PipelineState::Created => PipelineState::Created,
            PipelineState::Playing => PipelineState::Playing,
            PipelineState::Paused => PipelineState::Paused,
            PipelineState::Stopped => PipelineState::Stopped,
            PipelineState::Error(msg) => PipelineState::Error(msg.clone()),
        }
    }
}

impl PipelineState {
    /// Whether the state is one that, by convention, a pipeline does not leave.
    pub open spec fn terminal(self) -> bool {
        self is Stopped || self is Error
    }

    /// Whether the state is one that, by convention, a pipeline does not leave.
    pub fn is_terminal(&self) -> (b: bool)
        ensures
            b == self.terminal(),
    {
        match self {
            PipelineState::Stopped => true,
            PipelineState::Error(_) => true,
            _ => false,
        }
    }
}

/// One accepted job: what was asked for and where it stands.
#[derive(Debug)]
pub struct PipelineInfo {
    /// Unique identifier, the sole lookup key.
    pub id: String,
    /// Human-readable label.
    pub description: String,
    /// Current lifecycle state, the only field that changes.
    pub state: PipelineState,
    /// The execution-graph description handed to the engine.
    pub pipeline_string: String,
    /// Creation time, as an RFC 3339 timestamp.
    pub created_at: String,
    /// The remote source, absent for custom pipelines.
    pub source_url: Option<String>,
}

/// The mathematical value of a [`PipelineInfo`].
pub struct PipelineRecord {
    pub id: Seq<char>,
    pub description: Seq<char>,
    pub state: LifecycleState,
    pub descriptor: Seq<char>,
    pub created_at: Seq<char>,
    pub source_locator: Option<Seq<char>>,
}

/// The characters of an optional string.
pub open spec fn optional_text(s: Option<String>) -> Option<Seq<char>> {
    match s {
        Some(t) => Some(t@),
        None => None,
    }
}

impl View for PipelineInfo {
    type V = PipelineRecord;

    open spec fn view(&self) -> PipelineRecord {
        PipelineRecord {
            id: self.id@,
            description: self.description@,
            state: self.state@,
            descriptor: self.pipeline_string@,
            created_at: self.created_at@,
            source_locator: optional_text(self.source_url),
        }
    }
}

impl Clone for PipelineInfo {
    fn clone(&self) -> (r: Self)
        ensures
            r == *self,
    {
        PipelineInfo {
            id: self.id.clone(),
            description: self.description.clone(),
            state: self.state.clone(),
            pipeline_string: self.pipeline_string.clone(),
            created_at: self.created_at.clone(),
            source_url: match &self.source_url {
                Some(s) => Some(s.clone()),
                None => None,
            },
        }
    }
}

impl PipelineRecord {
    /// The record with its state replaced, all else as it was.
    pub open spec fn with_state(self, state: LifecycleState) -> PipelineRecord {
        PipelineRecord { state, ..self }
    }
}

} // verus!
