//! Rebuilding a canvas from its record: what the engine does, one step after the other, and
//! what becomes of the shell if a step fails.

use crate::brush::Color;
use crate::command::CanvasError;
use crate::config::CanvasConfig;
use crate::layers::LayerSnapshot;
use crate::recording::{RecordingState, TraceSource};
use crate::replay::rebuild_difference;
use crate::scalar::Single;
use crate::shell::CanvasApp;
use crate::trace::TraceReport;
use vstd::prelude::*;

verus! {

/// An error of the engine, with the engine's own message.
#[derive(Debug)]
pub struct RebuildFailure {
    pub error: CanvasError,
    pub diagnostic: String,
}

/// A canvas that was rebuilt.
#[derive(Debug)]
pub struct RebuiltCanvas {
    pub image: Vec<Color>,
    /// The canvas that the record is of.
    pub canvas: CanvasConfig,
    pub layers: Vec<LayerSnapshot>,
}

/// How far a rebuild has come.
#[derive(Debug)]
pub enum CanvasRebuild {
    /// Nothing is under way.
    Idle,
    /// The layers of the original are being put together.
    Compositing { source: TraceSource },
    /// The original is being read.
    Reading { source: TraceSource },
    /// The record is being replayed.
    Replaying { original: Vec<Color> },
    /// The layers of the rebuilt canvas are being put together.
    Recompositing { original: Vec<Color> },
    /// The rebuilt canvas is being presented.
    Presenting { original: Vec<Color> },
    /// The rebuilt canvas is being read.
    Rereading { original: Vec<Color> },
    /// The texture of the rebuilt canvas is being registered.
    Registering,
}

/// What happened.
#[derive(Debug)]
pub enum RebuildEvent {
    /// A rebuild was asked for.
    Asked { can_display: bool, has_current_trace: bool },
    /// The engine tried to do what it was told.
    Done(Result<(), RebuildFailure>),
    /// The engine tried to read the original.
    Read(Result<Vec<Color>, RebuildFailure>),
    /// The engine tried to read the rebuilt canvas. If its size is wrong, `size_diagnostic` is
    /// the engine's message for that.
    Reread { result: Result<RebuiltCanvas, RebuildFailure>, size_diagnostic: String },
    /// The texture was to be registered. `report` is the record's, `max_diff` the difference.
    Registered { shown: Result<(), String>, report: TraceReport, max_diff: String },
}

/// What has to be done next.
#[derive(Debug)]
pub enum RebuildAction {
    /// Put the layers together, then report that it is done.
    Composite,
    /// Read the image of the original, then report it.
    Read,
    /// Read the image of the rebuilt canvas, then report it.
    Reread,
    /// Replay this record, then report that it is done.
    Replay(TraceSource),
    /// Present the canvas, then report that it is done.
    Present,
    /// Register the texture, then report that, and this difference from the original.
    Register(Single),
    /// Nothing more.
    Rest,
}

/// The shells differ at most in what is said of the rebuild.
pub open spec fn differ_in_result_only(before: CanvasApp, after: CanvasApp) -> bool {
    after == (CanvasApp {
        recording: RecordingState {
            trace_rebuild_result: after.recording.trace_rebuild_result,
            ..before.recording
        },
        ..before
    })
}

/// A step failed: that is said, everything else stays, and nothing more is done.
pub open spec fn called_off(
    before: CanvasApp,
    error: CanvasError,
    diagnostic: Seq<char>,
    after: CanvasApp,
    next: CanvasRebuild,
    action: RebuildAction,
) -> bool {
    &&& next is Idle
    &&& action is Rest
    &&& differ_in_result_only(before, after)
    &&& crate::recording::message(after.recording.trace_rebuild_result) == Some(
        crate::trace::rebuild_error_text(error, diagnostic),
    )
}

/// The step that a rebuild takes at `event`: the original is composited and read, the record
/// is replayed, the rebuilt canvas is composited, presented, read, compared, taken up and
/// registered, each after the step before it succeeded.
pub open spec fn rebuilt<F: Fn(Single, Single) -> Single>(
    before: CanvasApp,
    rebuild: CanvasRebuild,
    event: RebuildEvent,
    abs_diff: F,
    after: CanvasApp,
    next: CanvasRebuild,
    action: RebuildAction,
) -> bool {
    match (rebuild, event) {
        (CanvasRebuild::Idle, RebuildEvent::Asked { can_display, has_current_trace }) => {
            let recorded = crate::recording::preferred(
                has_current_trace,
                before.recording.has_last_trace,
            );
            match recorded {
                Some(source) if can_display => {
                    &&& next == CanvasRebuild::Compositing { source }
                    &&& action is Composite
                    &&& after == before
                },
                _ => {
                    &&& next is Idle
                    &&& action is Rest
                    &&& differ_in_result_only(before, after)
                    &&& crate::recording::message(after.recording.trace_rebuild_result) == Some(
                        if can_display {
                            crate::trace::trace_rebuild_unavailable_text(
                                before.recording.trace_enabled,
                                false,
                                false,
                            )
                        } else {
                            "无法访问 WGPU 渲染状态，不能显示重构结果"@
                        },
                    )
                },
            }
        },
        (CanvasRebuild::Compositing { source }, RebuildEvent::Done(Ok(_))) => {
            &&& next == CanvasRebuild::Reading { source }
            &&& action is Read
            &&& after == before
        },
        (CanvasRebuild::Reading { source }, RebuildEvent::Read(Ok(original))) => {
            &&& next == CanvasRebuild::Replaying { original }
            &&& action == RebuildAction::Replay(source)
            &&& after == before
        },
        (CanvasRebuild::Replaying { original }, RebuildEvent::Done(Ok(_))) => {
            &&& next == CanvasRebuild::Recompositing { original }
            &&& action is Composite
            &&& after == before
        },
        (CanvasRebuild::Recompositing { original }, RebuildEvent::Done(Ok(_))) => {
            &&& next == CanvasRebuild::Presenting { original }
            &&& action is Present
            &&& after == before
        },
        (CanvasRebuild::Presenting { original }, RebuildEvent::Done(Ok(_))) => {
            &&& next == CanvasRebuild::Rereading { original }
            &&& action is Reread
            &&& after == before
        },
        (
            CanvasRebuild::Rereading { original },
            RebuildEvent::Reread { result: Ok(canvas), size_diagnostic },
        ) => if original@.len() == canvas.image@.len() {
            &&& next is Registering
            &&& action matches RebuildAction::Register(difference) && crate::replay::differs_by(
                original@,
                canvas.image@,
                abs_diff,
                difference,
            )
            &&& after == crate::shell::adopted(before, canvas.canvas, canvas.layers)
        } else {
            called_off(
                before,
                CanvasError::InvalidCanvasSize,
                size_diagnostic@,
                after,
                next,
                action,
            )
        },
        (
            CanvasRebuild::Rereading { .. },
            RebuildEvent::Reread { result: Err(failure), .. },
        ) => called_off(before, failure.error, failure.diagnostic@, after, next, action),
        (CanvasRebuild::Reading { .. }, RebuildEvent::Read(Err(failure))) => called_off(
            before,
            failure.error,
            failure.diagnostic@,
            after,
            next,
            action,
        ),
        (CanvasRebuild::Registering, RebuildEvent::Registered { shown, report, max_diff }) => {
            &&& next is Idle
            &&& action is Rest
            &&& differ_in_result_only(before, after)
            &&& crate::recording::message(after.recording.trace_rebuild_result) == Some(
                crate::recording::rebuild_text(shown, report, max_diff@),
            )
        },
        (_, RebuildEvent::Done(Err(failure))) if awaits_done(rebuild) => called_off(
            before,
            failure.error,
            failure.diagnostic@,
            after,
            next,
            action,
        ),
        _ => next is Idle && action is Rest && after == before,
    }
}

/// The step under way only has to be done.
pub open spec fn awaits_done(rebuild: CanvasRebuild) -> bool {
    ||| rebuild is Compositing
    ||| rebuild is Replaying
    ||| rebuild is Recompositing
    ||| rebuild is Presenting
}

impl CanvasApp {
    fn call_off_rebuild(&mut self, failure: RebuildFailure) -> (r: (CanvasRebuild, RebuildAction))
        ensures
            called_off(
                *old(self),
                failure.error,
                failure.diagnostic@,
                *final(self),
                r.0,
                r.1,
            ),
    {
        self.recording.fail_rebuild(&failure.error, failure.diagnostic.as_str());
        (CanvasRebuild::Idle, RebuildAction::Rest)
    }

    /// Takes up what came of replaying the record of a canvas whose image was `original`: the
    /// difference from it is handed on, if there is one.
    fn finish_rebuild<F: Fn(Single, Single) -> Single>(
        &mut self,
        original: &Vec<Color>,
        result: Result<RebuiltCanvas, RebuildFailure>,
        size_diagnostic: String,
        abs_diff: F,
    ) -> (r: (CanvasRebuild, RebuildAction))
        requires
            forall|x: Single, y: Single| call_requires(abs_diff, (x, y)),
        ensures
            rebuilt(
                *old(self),
                CanvasRebuild::Rereading { original: *original },
                RebuildEvent::Reread { result, size_diagnostic },
                abs_diff,
                *final(self),
                r.0,
                r.1,
            ),
    {
        let rebuilt = match result {
            Ok(rebuilt) => rebuilt,
            Err(failure) => {
                return self.call_off_rebuild(failure);
            },
        };
        match rebuild_difference(original.as_slice(), rebuilt.image.as_slice(), abs_diff) {
            Ok(difference) => {
                self.rebuild_from_trace(&rebuilt.canvas, rebuilt.layers);
                (CanvasRebuild::Registering, RebuildAction::Register(difference))
            },
            Err(error) => self.call_off_rebuild(
                RebuildFailure { error, diagnostic: size_diagnostic },
            ),
        }
    }

    /// Goes on with a rebuild. `abs_diff` gives the distance between two channels. An event
    /// that does not belong to the step under way is passed over.
    pub fn rebuild<F: Fn(Single, Single) -> Single>(
        &mut self,
        rebuild: CanvasRebuild,
        event: RebuildEvent,
        abs_diff: F,
    ) -> (r: (CanvasRebuild, RebuildAction))
        requires
            forall|x: Single, y: Single| call_requires(abs_diff, (x, y)),
        ensures
            rebuilt(*old(self), rebuild, event, abs_diff, *final(self), r.0, r.1),
    {
        match (rebuild, event) {
            (CanvasRebuild::Idle, RebuildEvent::Asked { can_display, has_current_trace }) => {
                match self.recording.begin_rebuild(can_display, has_current_trace) {
                    Some(source) => (
                        CanvasRebuild::Compositing { source },
                        RebuildAction::Composite,
                    ),
                    None => (CanvasRebuild::Idle, RebuildAction::Rest),
                }
            },
            (CanvasRebuild::Compositing { source }, RebuildEvent::Done(result)) => match result {
                Ok(_) => (CanvasRebuild::Reading { source }, RebuildAction::Read),
                Err(failure) => self.call_off_rebuild(failure),
            },
            (CanvasRebuild::Reading { source }, RebuildEvent::Read(result)) => match result {
                Ok(original) => (
                    CanvasRebuild::Replaying { original },
                    RebuildAction::Replay(source),
                ),
                Err(failure) => self.call_off_rebuild(failure),
            },
            (CanvasRebuild::Replaying { original }, RebuildEvent::Done(result)) => match result {
                Ok(_) => (CanvasRebuild::Recompositing { original }, RebuildAction::Composite),
                Err(failure) => self.call_off_rebuild(failure),
            },
            (CanvasRebuild::Recompositing { original }, RebuildEvent::Done(result)) => {
                match result {
                    Ok(_) => (CanvasRebuild::Presenting { original }, RebuildAction::Present),
                    Err(failure) => self.call_off_rebuild(failure),
                }
            },
            (CanvasRebuild::Presenting { original }, RebuildEvent::Done(result)) => match result {
                Ok(_) => (CanvasRebuild::Rereading { original }, RebuildAction::Reread),
                Err(failure) => self.call_off_rebuild(failure),
            },
            (
                CanvasRebuild::Rereading { original },
                RebuildEvent::Reread { result, size_diagnostic },
            ) => self.finish_rebuild(&original, result, size_diagnostic, abs_diff),
            (CanvasRebuild::Registering, RebuildEvent::Registered { shown, report, max_diff }) => {
                self.recording.complete_rebuild(shown, &report, max_diff.as_str());
                (CanvasRebuild::Idle, RebuildAction::Rest)
            },
            _ => (CanvasRebuild::Idle, RebuildAction::Rest),
        }
    }
}

/// The event says that a step failed.
pub open spec fn fails(event: RebuildEvent) -> bool {
    match event {
        RebuildEvent::Done(result) => result is Err,
        RebuildEvent::Read(result) => result is Err,
        RebuildEvent::Reread { result, .. } => result is Err,
        _ => false,
    }
}

/// A rebuild that fails changes nothing of the shell but what is said of the rebuild, and no
/// later step is made. That holds of a failed step, and of an image whose size is not that of
/// the original.
pub proof fn failed_rebuilds_only_say_so<F: Fn(Single, Single) -> Single>(
    before: CanvasApp,
    rebuild: CanvasRebuild,
    event: RebuildEvent,
    abs_diff: F,
    after: CanvasApp,
    next: CanvasRebuild,
    action: RebuildAction,
)
    requires
        rebuilt(before, rebuild, event, abs_diff, after, next, action),
        fails(event) || match (rebuild, event) {
            (
                CanvasRebuild::Rereading { original },
                RebuildEvent::Reread { result: Ok(canvas), .. },
            ) => original@.len() != canvas.image@.len(),
            _ => false,
        },
    ensures
        next is Idle,
        action is Rest,
        differ_in_result_only(before, after),
{
}

/// A rebuild leaves the shell alone until the rebuilt canvas is compared with the original:
/// before that, no step that succeeds changes anything.
pub proof fn rebuilds_are_taken_up_last<F: Fn(Single, Single) -> Single>(
    before: CanvasApp,
    rebuild: CanvasRebuild,
    event: RebuildEvent,
    abs_diff: F,
    after: CanvasApp,
    next: CanvasRebuild,
    action: RebuildAction,
)
    requires
        rebuilt(before, rebuild, event, abs_diff, after, next, action),
        !(action is Rest),
        !(action is Register),
    ensures
        after == before,
{
}

} // verus!
