//! The lifecycle controller's state machine and the dispatcher loop's
//! reaction to its input queue. The controller owns the capture stream,
//! the two handoff queues and the two worker threads; on the stop signal
//! it stops capture, closes the queues in producer-to-consumer order and
//! waits for both threads to drain and exit. There is no restart path:
//! a stopped pipeline stays stopped.

use vstd::prelude::*;

verus! {

/// The pipeline's lifecycle stages, in order of occurrence.
pub enum Stage {
    Idle,
    Streaming,
    Draining,
    Stopped,
}

/// What moves the pipeline between stages.
pub enum ControlEvent {
    /// Capture started and both worker threads launched.
    Start,
    /// The external stop signal (a line read from standard input).
    StopSignal,
    /// Both queues closed, both threads drained and joined.
    Drained,
}

/// The transition table: start only from idle, drain only while
/// streaming, stop only after draining; every other event leaves the
/// stage unchanged, and the stopped stage is terminal.
pub open spec fn spec_advance(s: Stage, e: ControlEvent) -> Stage {
    match (s, e) {
        (Stage::Idle, ControlEvent::Start) => Stage::Streaming,
        (Stage::Streaming, ControlEvent::StopSignal) => Stage::Draining,
        (Stage::Draining, ControlEvent::Drained) => Stage::Stopped,
        (_, _) => s,
    }
}

/// Advance the lifecycle by one event.
pub fn advance(s: &Stage, e: &ControlEvent) -> (n: Stage)
    ensures
        n == spec_advance(*s, *e),
{
    match (s, e) {
        (Stage::Idle, ControlEvent::Start) => Stage::Streaming,
        (Stage::Streaming, ControlEvent::StopSignal) => Stage::Draining,
        (Stage::Draining, ControlEvent::Drained) => Stage::Stopped,
        (Stage::Idle, _) => Stage::Idle,
        (Stage::Streaming, _) => Stage::Streaming,
        (Stage::Draining, _) => Stage::Draining,
        (Stage::Stopped, _) => Stage::Stopped,
    }
}

/// No event leaves the stopped stage: a fresh pipeline is required for a
/// new session.
pub proof fn lemma_stopped_is_terminal(e: ControlEvent)
    ensures
        spec_advance(Stage::Stopped, e) == Stage::Stopped,
{
}

/// One message on the dispatcher's input queue: a resampled window of
/// mono samples, or the queue's closure.
pub enum WindowEvent {
    Window(Vec<u32>),
    Closed,
}

/// The dispatcher loop's decision for one event: hand the window to the
/// speech model, or exit the loop.
pub enum DispatcherStep {
    Infer(Vec<u32>),
    Exited,
}

/// The dispatcher loop's reaction to one queue event: a window is handed
/// on for inference unchanged and in arrival order; closure of the queue
/// exits the loop at once, with no further inference started.
pub fn dispatcher_on_event(event: WindowEvent) -> (r: DispatcherStep)
    ensures
        event is Closed <==> r is Exited,
        match (&event, &r) {
            (WindowEvent::Window(w), DispatcherStep::Infer(x)) => x == w,
            (WindowEvent::Closed, DispatcherStep::Exited) => true,
            (_, _) => false,
        },
{
    match event {
        WindowEvent::Window(w) => DispatcherStep::Infer(w),
        WindowEvent::Closed => DispatcherStep::Exited,
    }
}

} // verus!
