//! Feeding a stroke: what the engine does, one step after the other, with the samples that
//! the input layer passes on in a frame.

use crate::command::{CanvasCommand, CommandOutput};
use crate::geometry::ScreenPos;
use crate::input::{NativeInputPoint, StrokeInputPoint};
use crate::shell::{paints_tap, CanvasApp, DispatchReport, DragEnd};
use vstd::prelude::*;

verus! {

/// How far the samples of a frame have come.
#[derive(Debug)]
pub enum StrokeFeed {
    /// Nothing is under way.
    Idle,
    /// The stroke so far is being ended, to be begun anew at `first`.
    Ending { first: StrokeInputPoint, batch: Vec<StrokeInputPoint> },
    /// The stroke is being begun anew at `first`.
    Beginning { first: StrokeInputPoint, batch: Vec<StrokeInputPoint> },
    /// The batch is being appended.
    Appending,
}

/// What happened.
#[derive(Debug)]
pub enum FeedEvent {
    /// The input layer passed a batch on, and may want the stroke to begin anew.
    Passed { anew: Option<StrokeInputPoint>, batch: Vec<StrokeInputPoint> },
    /// The engine tried to end the stroke so far.
    Ended(Result<(), String>),
    /// The engine tried to begin the stroke anew.
    Begun(Result<CommandOutput, String>),
    /// The engine tried to append the batch and to show it.
    Appended(Result<DispatchReport, String>),
}

/// What has to be done next.
#[derive(Debug)]
pub enum FeedAction {
    /// Execute this command, then report that the stroke ended.
    End(CanvasCommand),
    /// Send the brush settings, execute this command, then report that the stroke began.
    Begin(CanvasCommand),
    /// Execute this command and show the outcome, then report that the batch was appended.
    Append(CanvasCommand),
    /// Nothing more, but the input layer has to know that the stroke left paint.
    Painted,
    /// Nothing more.
    Rest,
}

/// `next` and `action` are what comes of `batch` in the state `before`, whose audit counts the
/// batch in `after`: it is appended if there is a stroke and a sample.
pub open spec fn appends_batch(
    before: CanvasApp,
    batch: Seq<StrokeInputPoint>,
    after: CanvasApp,
    next: StrokeFeed,
    action: FeedAction,
) -> bool {
    if before.active_stroke is Some && batch.len() > 0 {
        &&& next is Appending
        &&& action matches FeedAction::Append(command) && crate::shell::appends(
            Some(command),
            before.active_stroke,
            batch,
        )
        &&& after == before.with_append(batch)
    } else {
        next is Idle && action is Rest && after == before
    }
}

/// The step that a frame's samples take at `event`.
pub open spec fn fed(
    before: CanvasApp,
    feed: StrokeFeed,
    event: FeedEvent,
    after: CanvasApp,
    next: StrokeFeed,
    action: FeedAction,
) -> bool {
    match (feed, event) {
        (StrokeFeed::Idle, FeedEvent::Passed { anew: None, batch }) => {
            appends_batch(before, batch@, after, next, action)
        },
        (StrokeFeed::Idle, FeedEvent::Passed { anew: Some(first), batch }) => {
            match before.active_stroke {
                Some(stroke) => {
                    &&& next == StrokeFeed::Ending { first, batch }
                    &&& action == FeedAction::End(CanvasCommand::EndStroke(stroke))
                    &&& after == (CanvasApp { active_stroke: None, ..before })
                },
                None => {
                    &&& next == StrokeFeed::Beginning { first, batch }
                    &&& action == FeedAction::Begin(before.beginning(first))
                    &&& after == before
                },
            }
        },
        (StrokeFeed::Ending { first, batch }, FeedEvent::Ended(Ok(_))) => {
            &&& next == StrokeFeed::Beginning { first, batch }
            &&& action == FeedAction::Begin(before.beginning(first))
            &&& after == before
        },
        (StrokeFeed::Ending { .. }, FeedEvent::Ended(Err(error))) => {
            &&& next is Idle
            &&& action is Rest
            &&& after == (CanvasApp { last_error: Some(error), ..before })
        },
        (StrokeFeed::Beginning { first, batch }, FeedEvent::Begun(result)) => match result {
            Ok(CommandOutput::StrokeStarted { id }) => appends_batch(
                before.with_reanchor(first, id),
                batch@,
                after,
                next,
                action,
            ),
            Ok(_) => {
                &&& next is Idle
                &&& action is Rest
                &&& after == (CanvasApp { last_error: after.last_error, ..before })
                &&& crate::recording::message(after.last_error) == Some("画笔命令未能重新开始笔画"@)
            },
            Err(error) => {
                &&& next is Idle
                &&& action is Rest
                &&& after == (CanvasApp { last_error: Some(error), ..before })
            },
        },
        (StrokeFeed::Appending, FeedEvent::Appended(Ok(report))) => {
            &&& next is Idle
            &&& action == if report.dispatches > 0 {
                FeedAction::Painted
            } else {
                FeedAction::Rest
            }
            &&& after == before.with_dispatch(report)
        },
        (StrokeFeed::Appending, FeedEvent::Appended(Err(error))) => {
            &&& next is Idle
            &&& action is Rest
            &&& after == (CanvasApp { last_error: Some(error), ..before })
        },
        _ => next is Idle && action is Rest && after == before,
    }
}

impl CanvasApp {
    fn feed_batch(&mut self, batch: &Vec<StrokeInputPoint>) -> (r: (StrokeFeed, FeedAction))
        ensures
            appends_batch(*old(self), batch@, *final(self), r.0, r.1),
    {
        match self.append_stroke_command(batch) {
            Some(command) => (StrokeFeed::Appending, FeedAction::Append(command)),
            None => (StrokeFeed::Idle, FeedAction::Rest),
        }
    }

    /// Goes on with the samples of a frame. An event that does not belong to the step under
    /// way is passed over.
    pub fn feed(&mut self, feed: StrokeFeed, event: FeedEvent) -> (r: (StrokeFeed, FeedAction))
        ensures
            fed(*old(self), feed, event, *final(self), r.0, r.1),
    {
        match (feed, event) {
            (StrokeFeed::Idle, FeedEvent::Passed { anew: None, batch }) => self.feed_batch(&batch),
            (StrokeFeed::Idle, FeedEvent::Passed { anew: Some(first), batch }) => {
                match self.reanchor_active_stroke_to_touch() {
                    Some(command) => (
                        StrokeFeed::Ending { first, batch },
                        FeedAction::End(command),
                    ),
                    None => {
                        let command = self.begin_stroke_command(first);
                        (StrokeFeed::Beginning { first, batch }, FeedAction::Begin(command))
                    },
                }
            },
            (StrokeFeed::Ending { first, batch }, FeedEvent::Ended(Ok(_))) => {
                let command = self.begin_stroke_command(first);
                (StrokeFeed::Beginning { first, batch }, FeedAction::Begin(command))
            },
            (StrokeFeed::Ending { .. }, FeedEvent::Ended(Err(error))) => {
                self.note_error(error);
                (StrokeFeed::Idle, FeedAction::Rest)
            },
            (StrokeFeed::Beginning { first, batch }, FeedEvent::Begun(result)) => {
                match self.finish_reanchor(first, result) {
                    Ok(_) => self.feed_batch(&batch),
                    Err(error) => {
                        self.note_error(error);
                        (StrokeFeed::Idle, FeedAction::Rest)
                    },
                }
            },
            (StrokeFeed::Appending, FeedEvent::Appended(result)) => {
                if self.finish_append(result) {
                    (StrokeFeed::Idle, FeedAction::Painted)
                } else {
                    (StrokeFeed::Idle, FeedAction::Rest)
                }
            },
            _ => (StrokeFeed::Idle, FeedAction::Rest),
        }
    }

    /// The dab that is painted once the engine ended a stroke with `output`: that of the
    /// tap, if the input layer saw one and the stroke came to nothing.
    pub fn tap_after_end(&self, output: CommandOutput, tap: Option<StrokeInputPoint>) -> (r: Option<
        CanvasCommand,
    >)
        ensures
            r is Some <==> tap is Some && output != (CommandOutput::StrokeEnded {
                committed: true,
            }),
            r is Some ==> self.paints_dab(tap->0, r->0),
    {
        match tap {
            Some(tap) => {
                if paints_tap(output) {
                    Some(self.tap_command(tap))
                } else {
                    None
                }
            },
            None => None,
        }
    }
}

/// Where a frame without samples is sampled after all: at the pointer, if it is somewhere.
pub fn fallback_position(samples: &[StrokeInputPoint], pointer: Option<ScreenPos>) -> (r: Option<
    ScreenPos,
>)
    ensures
        r == if samples@.len() == 0 {
            pointer
        } else {
            None
        },
{
    if samples.len() == 0 {
        pointer
    } else {
        None
    }
}

/// The shells differ at most in what is painted over the canvas: the tip preview, the raw
/// trail and the raw points.
pub open spec fn differ_in_previews_only(a: CanvasApp, b: CanvasApp) -> bool {
    b == (CanvasApp {
        prediction: b.prediction,
        raw_lead_preview: b.raw_lead_preview,
        debug_overlay: b.debug_overlay,
        ..a
    })
}

/// Both actions have the engine do the same.
pub open spec fn same_action(a: FeedAction, b: FeedAction) -> bool {
    match (a, b) {
        (FeedAction::End(x), FeedAction::End(y)) => x.same(y),
        (FeedAction::Begin(x), FeedAction::Begin(y)) => x.same(y),
        (FeedAction::Append(x), FeedAction::Append(y)) => x.same(y),
        _ => a == b,
    }
}

/// Both ends of a drag have the engine do the same.
pub open spec fn same_end(a: DragEnd, b: DragEnd) -> bool {
    match (a, b) {
        (DragEnd::Selection(x), DragEnd::Selection(y)) => x.same(y),
        _ => a == b,
    }
}

/// Previews are only painted. Shells that differ in nothing but their previews start a drag,
/// extend it, begin a stroke, feed it, end it and paint its tap alike: the engine gets the
/// same commands, and the shells go on with the same stroke, layer and view.
pub proof fn previews_are_only_painted(
    a: CanvasApp,
    b: CanvasApp,
    native: Option<NativeInputPoint>,
    pointer: Option<ScreenPos>,
    input: StrokeInputPoint,
    dab: CanvasCommand,
    has_native_updates: bool,
    dragged: bool,
    started: bool,
    feed: StrokeFeed,
    event: FeedEvent,
    fed_a: (CanvasApp, StrokeFeed, FeedAction),
    fed_b: (CanvasApp, StrokeFeed, FeedAction),
    ended_a: (CanvasApp, DragEnd),
    ended_b: (CanvasApp, DragEnd),
)
    requires
        differ_in_previews_only(a, b),
        fed(a, feed, event, fed_a.0, fed_a.1, fed_a.2),
        fed(b, feed, event, fed_b.0, fed_b.1, fed_b.2),
        crate::shell::drag_ended(a, ended_a.0, ended_a.1),
        crate::shell::drag_ended(b, ended_b.0, ended_b.1),
    ensures
        crate::shell::drag_start(a.tool_mode, native, pointer) == crate::shell::drag_start(
            b.tool_mode,
            native,
            pointer,
        ),
        a.extended_tool(has_native_updates, dragged, started) == b.extended_tool(
            has_native_updates,
            dragged,
            started,
        ),
        a.beginning(input) == b.beginning(input),
        a.paints_dab(input, dab) == b.paints_dab(input, dab),
        same_action(fed_a.2, fed_b.2),
        fed_a.1 == fed_b.1,
        differ_in_previews_only(
            fed_a.0,
            CanvasApp { last_error: fed_a.0.last_error, ..fed_b.0 },
        ),
        crate::recording::message(fed_a.0.last_error) == crate::recording::message(
            fed_b.0.last_error,
        ),
        same_end(ended_a.1, ended_b.1),
        ended_a.0.active_stroke == ended_b.0.active_stroke,
        ended_a.0.cursor == ended_b.0.cursor,
        ended_a.0.viewport == ended_b.0.viewport,
{
}

/// A stroke that cannot be begun anew is over: whatever goes wrong on the way, no stroke is
/// under way afterwards, and nothing of the batch is appended.
pub proof fn failed_restarts_append_nothing(
    before: CanvasApp,
    feed: StrokeFeed,
    event: FeedEvent,
    after: CanvasApp,
    next: StrokeFeed,
    action: FeedAction,
)
    requires
        before.active_stroke is None,
        fed(before, feed, event, after, next, action),
        match (feed, event) {
            (StrokeFeed::Ending { .. }, FeedEvent::Ended(result)) => result is Err,
            (StrokeFeed::Beginning { .. }, FeedEvent::Begun(result)) => {
                crate::shell::stroke_begun(result) is None
            },
            _ => false,
        },
    ensures
        after.active_stroke is None,
        after.last_error is Some,
        next is Idle,
        action is Rest,
{
}

/// A stroke is ended before it is begun anew, the engine begins it at the sample that the
/// input layer asked for, and the batch goes to the new stroke.
pub proof fn restarts_run_in_order(
    stroke: crate::command::StrokeId,
    id: crate::command::StrokeId,
    first: StrokeInputPoint,
    batch: Vec<StrokeInputPoint>,
    start: CanvasApp,
    ending: (CanvasApp, StrokeFeed, FeedAction),
    beginning: (CanvasApp, StrokeFeed, FeedAction),
    appending: (CanvasApp, StrokeFeed, FeedAction),
)
    requires
        start.active_stroke == Some(stroke),
        batch@.len() > 0,
        fed(
            start,
            StrokeFeed::Idle,
            FeedEvent::Passed { anew: Some(first), batch },
            ending.0,
            ending.1,
            ending.2,
        ),
        fed(
            ending.0,
            ending.1,
            FeedEvent::Ended(Ok(())),
            beginning.0,
            beginning.1,
            beginning.2,
        ),
        fed(
            beginning.0,
            beginning.1,
            FeedEvent::Begun(Ok(CommandOutput::StrokeStarted { id })),
            appending.0,
            appending.1,
            appending.2,
        ),
    ensures
        ending.2 == FeedAction::End(CanvasCommand::EndStroke(stroke)),
        beginning.2 == FeedAction::Begin(start.beginning(first)),
        appending.2 matches FeedAction::Append(command) && crate::shell::appends(
            Some(command),
            Some(id),
            batch@,
        ),
        appending.0.active_stroke == Some(id),
{
}

} // verus!
