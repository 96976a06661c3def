//! Ending a stroke: what the engine does, one step after the other, once the pen or the
//! pointer lets go.

use crate::command::{CanvasCommand, CommandOutput, StrokeId};
use crate::input::StrokeInputPoint;
use crate::shell::CanvasApp;
use vstd::prelude::*;

verus! {

/// How far the end of a stroke has come.
#[derive(Debug)]
pub enum StrokeEnding {
    /// Nothing is under way.
    Idle,
    /// The stroke is being ended. The input layer may have seen a tap.
    Ending { tap: Option<StrokeInputPoint> },
    /// The dab of a tap is being painted.
    Tapping,
    /// The canvas is being shown.
    Showing,
}

/// What happened.
#[derive(Debug)]
pub enum EndingEvent {
    /// The drag of this stroke ended, and the input layer may have seen a tap.
    Stopped { stroke: StrokeId, tap: Option<StrokeInputPoint> },
    /// The engine tried to execute the command.
    Executed(Result<CommandOutput, String>),
    /// The engine tried to show the canvas.
    Shown(Result<(), String>),
}

/// What has to be done next.
#[derive(Debug)]
pub enum EndingAction {
    /// Execute this command, then report that it was executed.
    Execute(CanvasCommand),
    /// Show the canvas, then report that it was shown.
    Show,
    /// Nothing more.
    Rest,
}

/// A step failed: the error is kept, everything else stays, and nothing more is done.
pub open spec fn broken_off(
    before: CanvasApp,
    error: String,
    after: CanvasApp,
    next: StrokeEnding,
    action: EndingAction,
) -> bool {
    &&& next is Idle
    &&& action is Rest
    &&& after == (CanvasApp { last_error: Some(error), ..before })
}

/// The step that the end of a stroke takes at `event`: the stroke is ended; if that came to
/// nothing and there was a tap, its dab is painted; then the canvas is shown; each after the
/// step before it succeeded.
pub open spec fn ended(
    before: CanvasApp,
    ending: StrokeEnding,
    event: EndingEvent,
    after: CanvasApp,
    next: StrokeEnding,
    action: EndingAction,
) -> bool {
    match (ending, event) {
        (StrokeEnding::Idle, EndingEvent::Stopped { stroke, tap }) => {
            &&& next == StrokeEnding::Ending { tap }
            &&& action == EndingAction::Execute(CanvasCommand::EndStroke(stroke))
            &&& after == before
        },
        (StrokeEnding::Ending { tap }, EndingEvent::Executed(result)) => match result {
            Ok(output) => {
                &&& after == before
                &&& if tap is Some && output != (CommandOutput::StrokeEnded { committed: true }) {
                    &&& next is Tapping
                    &&& action matches EndingAction::Execute(dab) && before.paints_dab(tap->0, dab)
                } else {
                    &&& next is Showing
                    &&& action is Show
                }
            },
            Err(error) => broken_off(before, error, after, next, action),
        },
        (StrokeEnding::Tapping, EndingEvent::Executed(result)) => match result {
            Ok(_) => {
                &&& next is Showing
                &&& action is Show
                &&& after == before
            },
            Err(error) => broken_off(before, error, after, next, action),
        },
        (StrokeEnding::Showing, EndingEvent::Shown(result)) => match result {
            Ok(_) => {
                &&& next is Idle
                &&& action is Rest
                &&& after == (CanvasApp { last_error: None, ..before })
            },
            Err(error) => broken_off(before, error, after, next, action),
        },
        _ => next is Idle && action is Rest && after == before,
    }
}

impl CanvasApp {
    fn break_off_end(&mut self, error: String) -> (r: (StrokeEnding, EndingAction))
        ensures
            broken_off(*old(self), error, *final(self), r.0, r.1),
    {
        self.note_error(error);
        (StrokeEnding::Idle, EndingAction::Rest)
    }

    /// Goes on with the end of a stroke. An event that does not belong to the step under way
    /// is passed over.
    pub fn end_stroke(&mut self, ending: StrokeEnding, event: EndingEvent) -> (r: (
        StrokeEnding,
        EndingAction,
    ))
        ensures
            ended(*old(self), ending, event, *final(self), r.0, r.1),
    {
        match (ending, event) {
            (StrokeEnding::Idle, EndingEvent::Stopped { stroke, tap }) => (
                StrokeEnding::Ending { tap },
                EndingAction::Execute(CanvasCommand::EndStroke(stroke)),
            ),
            (StrokeEnding::Ending { tap }, EndingEvent::Executed(result)) => match result {
                Ok(output) => match self.tap_after_end(output, tap) {
                    Some(dab) => (StrokeEnding::Tapping, EndingAction::Execute(dab)),
                    None => (StrokeEnding::Showing, EndingAction::Show),
                },
                Err(error) => self.break_off_end(error),
            },
            (StrokeEnding::Tapping, EndingEvent::Executed(result)) => match result {
                Ok(_) => (StrokeEnding::Showing, EndingAction::Show),
                Err(error) => self.break_off_end(error),
            },
            (StrokeEnding::Showing, EndingEvent::Shown(result)) => {
                self.note_outcome(result);
                (StrokeEnding::Idle, EndingAction::Rest)
            },
            _ => (StrokeEnding::Idle, EndingAction::Rest),
        }
    }
}

/// The event says that a step failed with this error.
pub open spec fn failure(event: EndingEvent) -> Option<String> {
    match event {
        EndingEvent::Executed(Err(error)) => Some(error),
        EndingEvent::Shown(Err(error)) => Some(error),
        _ => None,
    }
}

/// The end of a stroke stops at its first error, which is kept: after a failed end no dab is
/// painted and nothing is shown, and after a failed dab nothing is shown.
pub proof fn failed_ends_go_no_further(
    before: CanvasApp,
    ending: StrokeEnding,
    event: EndingEvent,
    after: CanvasApp,
    next: StrokeEnding,
    action: EndingAction,
)
    requires
        ended(before, ending, event, after, next, action),
        failure(event) is Some,
    ensures
        next is Idle,
        action is Rest,
        after == (CanvasApp { last_error: after.last_error, ..before }),
        match (ending, event) {
            (StrokeEnding::Ending { .. }, EndingEvent::Executed(_)) => after.last_error
                == failure(event),
            (StrokeEnding::Tapping, EndingEvent::Executed(_)) => after.last_error
                == failure(event),
            (StrokeEnding::Showing, EndingEvent::Shown(_)) => after.last_error == failure(event),
            _ => after == before,
        },
{
}

/// A stroke that came to something is not dabbed over: once the engine committed it, it is
/// shown, whatever tap the input layer saw. Without a tap, no dab is painted either.
pub proof fn committed_strokes_are_not_dabbed_over(
    before: CanvasApp,
    tap: Option<StrokeInputPoint>,
    output: CommandOutput,
    after: CanvasApp,
    next: StrokeEnding,
    action: EndingAction,
)
    requires
        ended(
            before,
            StrokeEnding::Ending { tap },
            EndingEvent::Executed(Ok(output)),
            after,
            next,
            action,
        ),
        tap is None || output == (CommandOutput::StrokeEnded { committed: true }),
    ensures
        next is Showing,
        action is Show,
        after == before,
{
}

} // verus!
