//! Messages of the engine's bus, and how a running pipeline's messages are
//! read while waiting for it to complete.

use vstd::prelude::*;

verus! {

/// The states of an execution graph inside the engine.
#[derive(Debug, Clone, Copy, PartialEq, Eq, Structural)]
pub enum EngineState {
    VoidPending,
    Null,
    Ready,
    Paused,
    Playing,
}

/// A message that the engine posts on the bus of a graph.
#[derive(Debug)]
pub enum BusMessage {
    /// The end of the stream was reached.
    Eos,
    /// The graph failed; carries the engine's diagnostic text.
    Error(String),
    /// Something is wrong, yet the graph goes on; carries the engine's text.
    Warning(String),
    /// An element changed state. `from_graph` tells whether the element is
    /// the graph itself rather than one of its parts.
    StateChanged { old: EngineState, current: EngineState, from_graph: bool },
    /// An asynchronous state change has completed.
    AsyncDone,
    /// Any other message.
    Other,
}

/// What to do after a message while waiting for a pipeline to complete.
#[derive(Debug)]
pub enum Completion {
    /// Go on waiting.
    Pending,
    /// The pipeline has completed.
    Done,
    /// The pipeline has failed; carries the text of the failure.
    Failed(String),
}

/// The text of the failure that an error message with the diagnostic text
/// `detail` stands for.
pub open spec fn failure_text(detail: Seq<char>) -> Seq<char> {
    "Pipeline error: "@ + detail
}

/// The text of the failure that an error message with the diagnostic text
/// `detail` stands for.
pub fn failure_message(detail: &str) -> (text: String)
    ensures
        text@ == failure_text(detail@),
{
    let mut text = String::from_str("Pipeline error: ");
    text.append(detail);
    text
}

/// Reads one message while waiting for a pipeline to complete: the end of the
/// stream completes it, an error fails it, and every other message leaves it
/// running.
pub fn completion_after(message: &BusMessage) -> (step: Completion)
    ensures
        match *message {
            BusMessage::Eos => step is Done,
            BusMessage::Error(detail) => step matches Completion::Failed(text) && text@
                == failure_text(detail@),
            _ => step is Pending,
        },
{
    match message {
        BusMessage::Eos => Completion::Done,
        BusMessage::Error(detail) => Completion::Failed(failure_message(detail.as_str())),
        _ => Completion::Pending,
    }
}

} // verus!
