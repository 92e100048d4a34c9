//! The consumer of the push stream: one frame at a time, each check-in
//! printed before the next frame is asked for.

use tokio_tungstenite::tungstenite::Error;
use tokio_tungstenite::tungstenite::Message;
use vstd::prelude::*;

use crate::checkin_output::{project, CheckinPrintable};
use crate::error::HackNottsCheckinError;
use crate::tito_types::WebhookCheckin;
use crate::typst_checkin_output::{
    render_step, RenderAction, RenderEvent, RenderState, RenderStep, TypstCheckinOutputError,
};

verus! {

/// `Message` of the websocket crate: a frame as it came off the socket. It
/// is handed on unread.
#[verifier::external_type_specification]
#[verifier::external_body]
pub struct ExMessage(Message);

/// `Error` of the websocket crate. It is handed on unread.
#[verifier::external_type_specification]
#[verifier::external_body]
pub struct ExError(Error);

/// The text that a message of the websocket crate carries, as its
/// `Message::to_text` gives it, or `None` where that call fails. A message
/// has no view of its own, so the name is applied to the message itself.
pub uninterp spec fn text_carried(message: Message) -> Option<Seq<char>>;

/// `Message::to_text` of the websocket crate. The contract names the
/// outcome and claims no more: the text that comes back is the text the
/// message carries, and the call fails exactly where it carries none.
#[verifier::external_body]
fn message_text(message: &Message) -> (out: Result<String, Error>)
    ensures
        match out {
            Ok(text) => text_carried(*message) == Some(text@),
            Err(_) => text_carried(*message) is None,
        },
{
    match message.to_text() {
        Ok(text) => Ok(text.to_owned()),
        Err(error) => Err(error),
    }
}

/// The `Display` text of an error of the websocket crate. Nothing is claimed
/// of the text.
#[verifier::external_body]
fn error_text(error: &Error) -> (out: String) {
    error.to_string()
}

/// What reading the text of a frame comes to: the text, or a failure of the
/// socket with the reason it gave.
pub fn frame_read(read: Result<String, String>) -> (out: Result<String, HackNottsCheckinError>)
    ensures
        out == match read {
            Ok(text) => Ok::<String, HackNottsCheckinError>(text),
            Err(reason) => Err(HackNottsCheckinError::WebSocketError(reason)),
        },
{
    match read {
        Ok(text) => Ok(text),
        Err(reason) => Err(HackNottsCheckinError::WebSocketError(reason)),
    }
}

/// The text of a frame, which is a check-in still to be decoded: the text
/// the message carries where it carries any, and a failure of the socket
/// where it carries none. Which messages carry text, and what a failure
/// gives as its reason, is the websocket crate's affair.
pub fn frame_text(message: &Message) -> (out: Result<String, HackNottsCheckinError>)
    ensures
        match text_carried(*message) {
            Some(carried) => out matches Ok(text) && text@ == carried,
            None => out matches Err(HackNottsCheckinError::WebSocketError(_)),
        },
{
    match message_text(message) {
        Ok(text) => frame_read(Ok(text)),
        Err(error) => frame_read(Err(error_text(&error))),
    }
}

/// Where the consumer of the stream stands.
#[derive(Debug, PartialEq, Eq)]
pub enum LoopState {
    /// The next frame is awaited.
    AwaitingFrame,
    /// The badge of the last frame is being printed.
    Rendering(RenderState),
    /// The stream has ended.
    Closed,
}

/// What happened outside since the consumer's last step.
#[derive(Debug, PartialEq, Eq)]
pub enum LoopEvent {
    /// A frame came and was decoded, or something went wrong with it.
    Frame(Result<WebhookCheckin, HackNottsCheckinError>),
    /// Something happened to the badge that is being printed.
    Job(RenderEvent),
    /// The stream has ended.
    Closed,
}

/// What is to be done outside next.
#[derive(Debug, PartialEq, Eq)]
pub enum LoopAction {
    /// Wait for the next frame and decode it.
    AwaitFrame,
    /// Take the printing of the badge one step on.
    Job(RenderAction),
    /// Stop: there will be no more frames.
    Stop,
    /// The event was not awaited: it is dropped.
    Nothing,
}

/// What became of a frame, for the log.
#[derive(Debug, PartialEq, Eq)]
pub enum LoopReport {
    /// The frame gave no check-in.
    FrameFailed(HackNottsCheckinError),
    /// The badge with this reference went to the printer.
    Printed(String),
    /// The badge could not be printed.
    PrintFailed(TypstCheckinOutputError),
}

/// One step of the consumer.
#[derive(Debug, PartialEq, Eq)]
pub struct LoopStep {
    pub state: LoopState,
    pub action: LoopAction,
    pub report: Option<LoopReport>,
    pub diagnostics: Option<Vec<u8>>,
}

/// The step of a consumer whose badge has taken the step `inner`. When the
/// badge is done, printed or not, the next frame is awaited.
pub open spec fn after_job(job: RenderState, inner: RenderStep) -> LoopStep {
    match inner.action {
        RenderAction::Finish(Ok(reference)) => LoopStep {
            state: LoopState::AwaitingFrame,
            action: LoopAction::AwaitFrame,
            report: Some(LoopReport::Printed(reference)),
            diagnostics: inner.diagnostics,
        },
        RenderAction::Finish(Err(error)) => LoopStep {
            state: LoopState::AwaitingFrame,
            action: LoopAction::AwaitFrame,
            report: Some(LoopReport::PrintFailed(error)),
            diagnostics: inner.diagnostics,
        },
        RenderAction::Nothing => LoopStep {
            state: LoopState::Rendering(job),
            action: LoopAction::Nothing,
            report: None,
            diagnostics: inner.diagnostics,
        },
        action => LoopStep {
            state: LoopState::Rendering(inner.state),
            action: LoopAction::Job(action),
            report: None,
            diagnostics: inner.diagnostics,
        },
    }
}

/// Whether `step` is the step a consumer in `state` takes on `event`.
pub open spec fn loop_step(state: LoopState, event: LoopEvent, step: LoopStep) -> bool {
    match (state, event) {
        (LoopState::AwaitingFrame, LoopEvent::Frame(Ok(checkin))) => {
            &&& step.state matches LoopState::Rendering(RenderState::ReadingTemplate { badge })
            &&& badge@ == checkin.projection()
            &&& step.action == LoopAction::Job(RenderAction::ReadTemplate)
            &&& step.report is None
            &&& step.diagnostics is None
        },
        (LoopState::AwaitingFrame, LoopEvent::Frame(Err(error))) => {
            step == (LoopStep {
                state: LoopState::AwaitingFrame,
                action: LoopAction::AwaitFrame,
                report: Some(LoopReport::FrameFailed(error)),
                diagnostics: None,
            })
        },
        (LoopState::AwaitingFrame, LoopEvent::Closed) => {
            step == (LoopStep {
                state: LoopState::Closed,
                action: LoopAction::Stop,
                report: None,
                diagnostics: None,
            })
        },
        (LoopState::Rendering(job), LoopEvent::Job(happened)) => {
            exists|inner: RenderStep| #[trigger]
                render_step(job, happened, inner) && step == after_job(job, inner)
        },
        _ => {
            step == (LoopStep {
                state,
                action: LoopAction::Nothing,
                report: None,
                diagnostics: None,
            })
        },
    }
}

/// The step of a consumer whose badge has taken the step `inner`.
fn lift(job: Ghost<RenderState>, inner: RenderStep) -> (step: LoopStep)
    requires
        inner.action is Nothing ==> inner.state == job@,
    ensures
        step == after_job(job@, inner),
{
    let RenderStep { state, action, diagnostics } = inner;
    match action {
        RenderAction::Finish(Ok(reference)) => LoopStep {
            state: LoopState::AwaitingFrame,
            action: LoopAction::AwaitFrame,
            report: Some(LoopReport::Printed(reference)),
            diagnostics,
        },
        RenderAction::Finish(Err(error)) => LoopStep {
            state: LoopState::AwaitingFrame,
            action: LoopAction::AwaitFrame,
            report: Some(LoopReport::PrintFailed(error)),
            diagnostics,
        },
        RenderAction::Nothing => LoopStep {
            state: LoopState::Rendering(state),
            action: LoopAction::Nothing,
            report: None,
            diagnostics,
        },
        action => LoopStep {
            state: LoopState::Rendering(state),
            action: LoopAction::Job(action),
            report: None,
            diagnostics,
        },
    }
}

impl LoopState {
    /// A consumer that has just connected: it awaits its first frame.
    pub fn new() -> (state: Self)
        ensures
            state == LoopState::AwaitingFrame,
    {
        LoopState::AwaitingFrame
    }

    /// Takes the consumer one step on, given what happened outside.
    pub fn advance(self, event: LoopEvent) -> (step: LoopStep)
        ensures
            loop_step(self, event, step),
    {
        match (self, event) {
            (LoopState::AwaitingFrame, LoopEvent::Frame(Ok(checkin))) => LoopStep {
                state: LoopState::Rendering(
                    RenderState::ReadingTemplate { badge: project(&checkin) },
                ),
                action: LoopAction::Job(RenderAction::ReadTemplate),
                report: None,
                diagnostics: None,
            },
            (LoopState::AwaitingFrame, LoopEvent::Frame(Err(error))) => LoopStep {
                state: LoopState::AwaitingFrame,
                action: LoopAction::AwaitFrame,
                report: Some(LoopReport::FrameFailed(error)),
                diagnostics: None,
            },
            (LoopState::AwaitingFrame, LoopEvent::Closed) => LoopStep {
                state: LoopState::Closed,
                action: LoopAction::Stop,
                report: None,
                diagnostics: None,
            },
            (LoopState::Rendering(job), LoopEvent::Job(happened)) => {
                let ghost before = job;
                let inner = job.advance(happened);
                lift(Ghost(before), inner)
            },
            (state, _) => LoopStep {
                state,
                action: LoopAction::Nothing,
                report: None,
                diagnostics: None,
            },
        }
    }
}

/// The state a consumer is in when it takes its step number `at`: the state
/// its step before left, and `AwaitingFrame` for the first.
pub open spec fn state_before(steps: Seq<LoopStep>, at: int) -> LoopState {
    if at <= 0 {
        LoopState::AwaitingFrame
    } else {
        steps[at - 1].state
    }
}

/// Whether `steps` are the steps that a consumer takes, from its start, on
/// `events` in turn.
pub open spec fn loop_run(events: Seq<LoopEvent>, steps: Seq<LoopStep>) -> bool {
    &&& steps.len() == events.len()
    &&& forall|at: int|
        0 <= at < steps.len() ==> loop_step(
            state_before(steps, at),
            events[at],
            #[trigger] steps[at],
        )
}

/// Whether step number `at` is the one at which the spooler's run ends: the
/// consumer is printing, and is told that the program has run.
pub open spec fn print_ends(events: Seq<LoopEvent>, steps: Seq<LoopStep>, at: int) -> bool {
    &&& state_before(steps, at) matches LoopState::Rendering(RenderState::Printing { .. })
    &&& events[at] matches LoopEvent::Job(RenderEvent::StageFinished(_))
}

/// Once the spooler was started, the consumer stays in its printing state
/// until it is told that the spooler has run.
proof fn lemma_printing_lasts(
    events: Seq<LoopEvent>,
    steps: Seq<LoopStep>,
    started: int,
    upto: int,
)
    requires
        loop_run(events, steps),
        0 <= started < upto <= steps.len(),
        steps[started].action matches LoopAction::Job(RenderAction::Print { .. }),
    ensures
        (exists|done: int| started < done < upto && print_ends(events, steps, done))
            || state_before(steps, upto) matches LoopState::Rendering(
            RenderState::Printing { .. },
        ),
    decreases upto - started,
{
    if upto == started + 1 {
        assert(loop_step(state_before(steps, started), events[started], steps[started]));
    } else {
        lemma_printing_lasts(events, steps, started, upto - 1);
        if exists|done: int| started < done < upto - 1 && print_ends(events, steps, done) {
            let done = choose|done: int|
                started < done < upto - 1 && print_ends(events, steps, done);
            assert(started < done < upto && print_ends(events, steps, done));
        } else {
            assert(loop_step(state_before(steps, upto - 1), events[upto - 1], steps[upto - 1]));
            if print_ends(events, steps, upto - 1) {
                assert(started < upto - 1 < upto && print_ends(events, steps, upto - 1));
            }
        }
    }
}

/// Badges are printed one after the other: where the spooler was started
/// for one badge and the compiler is started later, the consumer was told
/// in between that the spooler has run.
pub proof fn lemma_renders_in_turn(
    events: Seq<LoopEvent>,
    steps: Seq<LoopStep>,
    printing: int,
    compiling: int,
)
    requires
        loop_run(events, steps),
        0 <= printing < compiling < steps.len(),
        steps[printing].action matches LoopAction::Job(RenderAction::Print { .. }),
        steps[compiling].action matches LoopAction::Job(RenderAction::Compile { .. }),
    ensures
        exists|done: int| printing < done < compiling && print_ends(events, steps, done),
{
    lemma_printing_lasts(events, steps, printing, compiling);
    assert(loop_step(state_before(steps, compiling), events[compiling], steps[compiling]));
}

/// Within one badge the compiler comes first: the spooler is started only
/// at the step at which the consumer is told that the compiler ran to a
/// normal end, and on exactly what the compiler wrote.
pub proof fn lemma_prints_what_was_compiled(
    events: Seq<LoopEvent>,
    steps: Seq<LoopStep>,
    at: int,
)
    requires
        loop_run(events, steps),
        0 <= at < steps.len(),
        steps[at].action matches LoopAction::Job(RenderAction::Print { .. }),
    ensures
        state_before(steps, at) matches LoopState::Rendering(RenderState::Compiling { .. }),
        events[at] matches LoopEvent::Job(
            RenderEvent::StageFinished(
                crate::typst_checkin_output::StageOutcome::Exited { success, stdout, .. },
            ),
        ) && success && steps[at].action == LoopAction::Job(
            RenderAction::Print { document: stdout },
        ),
{
    assert(loop_step(state_before(steps, at), events[at], steps[at]));
}

/// A frame that fails does not stop the consumer, and leaves it as it was
/// when it started: whatever comes next is taken as a consumer that has
/// just connected would take it. A check-in that follows goes to print.
pub proof fn lemma_bad_frame_is_skipped(events: Seq<LoopEvent>, steps: Seq<LoopStep>, at: int)
    requires
        loop_run(events, steps),
        0 <= at < steps.len(),
        state_before(steps, at) == LoopState::AwaitingFrame,
        events[at] matches LoopEvent::Frame(Err(_)),
    ensures
        steps[at].state == LoopState::AwaitingFrame,
        steps[at].action == LoopAction::AwaitFrame,
        steps[at].report == Some(LoopReport::FrameFailed(events[at]->Frame_0->Err_0)),
        at + 1 < steps.len() ==> loop_step(LoopState::AwaitingFrame, events[at + 1], steps[at + 1]),
        at + 1 < steps.len() && (events[at + 1] matches LoopEvent::Frame(Ok(_))) ==> steps[at
            + 1].action == LoopAction::Job(RenderAction::ReadTemplate),
{
    assert(loop_step(state_before(steps, at), events[at], steps[at]));
    if at + 1 < steps.len() {
        assert(loop_step(state_before(steps, at + 1), events[at + 1], steps[at + 1]));
    }
}

/// Nothing but the end of the stream stops the consumer.
pub proof fn lemma_stops_when_closed_only(events: Seq<LoopEvent>, steps: Seq<LoopStep>, at: int)
    requires
        loop_run(events, steps),
        0 <= at < steps.len(),
        steps[at].action == LoopAction::Stop || steps[at].state == LoopState::Closed,
    ensures
        exists|closed: int| 0 <= closed <= at && #[trigger] events[closed] == LoopEvent::Closed,
    decreases at,
{
    assert(loop_step(state_before(steps, at), events[at], steps[at]));
    if events[at] == LoopEvent::Closed {
    } else {
        assert(state_before(steps, at) == LoopState::Closed);
        lemma_stops_when_closed_only(events, steps, at - 1);
        let closed = choose|closed: int|
            0 <= closed <= at - 1 && #[trigger] events[closed] == LoopEvent::Closed;
        assert(0 <= closed <= at && events[closed] == LoopEvent::Closed);
    }
}

} // verus!
