//! A whole frame on the canvas, as the steps that it is made of, and what its previews may
//! not change.

use crate::audit::InputTracker;
use crate::brush::BrushSettings;
use crate::command::{CanvasCommand, CommandOutput};
use crate::ending::{EndingAction, EndingEvent, StrokeEnding};
use crate::feed::{FeedAction, FeedEvent, StrokeFeed};
use crate::geometry::ScreenPos;
use crate::input::{NativeInputPoint, StrokeInputPoint, StylusSample};
use crate::layers::LayerSnapshot;
use crate::scalar::Single;
use crate::selection::{SelectionPoint, SelectionState, ToolMode};
use crate::shell::{CanvasApp, DragEnd, DragStart};
use crate::viewport::{CanvasCorner, ViewportState};
use vstd::prelude::*;

verus! {

/// A step of a frame, with what comes from outside: the input and the engine's answers.
#[derive(Debug)]
pub enum FrameStep {
    /// Wheel and drag move the view.
    Navigate { wheel: Option<Single>, dragged: bool },
    /// A sample is adapted to a pressure.
    Sample { sample: StylusSample, pressure: Single },
    /// Input is counted, timed, previewed or followed: the first sample of a stroke, a batch,
    /// a fallback, a frame, a mark of the latency probe.
    Track,
    /// A drag starts with a native sample or the pointer.
    StartDrag { native: Option<NativeInputPoint>, pointer: Option<ScreenPos> },
    /// A rectangle is begun.
    BeginRect(SelectionPoint),
    /// A lasso is begun.
    BeginLasso(SelectionPoint),
    /// The brush settings are sent, and the engine answers.
    SendSettings { texture_created: bool, result: Result<(), String> },
    /// The engine is to begin a stroke at this sample.
    BeginStroke(StrokeInputPoint),
    /// The engine answers whether it began the stroke.
    StrokeBegun(Result<CommandOutput, String>),
    /// The drag is extended with whatever tool is meant.
    Extend { has_native_updates: bool, dragged: bool, started: bool },
    /// The rectangle is dragged on.
    DragRect(SelectionPoint),
    /// The lasso is offered these samples.
    ExtendLasso(Vec<StrokeInputPoint>),
    /// A step of the samples on their way to the engine.
    Feed { feed: StrokeFeed, event: FeedEvent },
    /// The drag ends.
    EndDrag,
    /// A step of the end of a stroke.
    EndStroke { ending: StrokeEnding, answer: EndingEvent },
    /// The engine answers what came of a selection.
    Selected { result: Result<(), String>, layers: Vec<LayerSnapshot> },
}

/// What a step of a frame asks for.
#[derive(Debug)]
pub enum FrameWork {
    /// Nothing.
    Nothing,
    /// This start of a drag.
    Start(DragStart),
    /// The settings of this brush are sent.
    Settings(BrushSettings),
    /// The engine executes this command.
    Command(CanvasCommand),
    /// This tool extends the drag.
    Tool(Option<ToolMode>),
    /// The samples of the frame go on like this.
    Feed(StrokeFeed, FeedAction),
    /// This end of a drag.
    End(DragEnd),
    /// The end of a stroke goes on like this.
    Ending(StrokeEnding, EndingAction),
}

/// The floating-point parts of a frame: how far a view may be moved, where wheel and drag put
/// it, and how far apart two corners are.
pub struct FrameKernels<L, W, D, F> {
    pub limit: L,
    pub refocus: W,
    pub slide: D,
    pub distance: F,
}

/// Each kernel gives one value for each argument.
pub open spec fn steady_kernels<
    L: Fn(u32, Single) -> Single,
    W: Fn(ViewportState, ViewportState) -> CanvasCorner,
    D: Fn(ViewportState) -> CanvasCorner,
    F: Fn(SelectionPoint, SelectionPoint) -> Single,
>(kernels: FrameKernels<L, W, D, F>) -> bool {
    &&& crate::viewport::steady(kernels.limit)
    &&& forall|a: ViewportState, b: ViewportState, u: CanvasCorner, v: CanvasCorner| #[trigger]
        call_ensures(kernels.refocus, (a, b), u) && #[trigger] call_ensures(
            kernels.refocus,
            (a, b),
            v,
        ) ==> u == v
    &&& forall|a: ViewportState, u: CanvasCorner, v: CanvasCorner| #[trigger]
        call_ensures(kernels.slide, (a,), u) && #[trigger] call_ensures(kernels.slide, (a,), v)
            ==> u == v
    &&& forall|a: SelectionPoint, b: SelectionPoint, u: Single, v: Single| #[trigger]
        call_ensures(kernels.distance, (a, b), u) && #[trigger] call_ensures(
            kernels.distance,
            (a, b),
            v,
        ) ==> u == v
}

/// The lasso `after` is the lasso `before` once it was offered `points`.
pub open spec fn lasso_extended<F: Fn(SelectionPoint, SelectionPoint) -> Single>(
    before: Seq<SelectionPoint>,
    points: Seq<StrokeInputPoint>,
    distance: F,
    after: Seq<SelectionPoint>,
) -> bool {
    exists|states: Seq<Seq<SelectionPoint>>|
        {
            &&& #[trigger] crate::selection::lassoed_in_turn(states, points, distance)
            &&& states[0] == before
            &&& states[points.len() as int] == after
        }
}

/// The shell goes from `before` to `after` by `step`, which asks for `work`.
pub open spec fn taken<
    L: Fn(u32, Single) -> Single,
    W: Fn(ViewportState, ViewportState) -> CanvasCorner,
    D: Fn(ViewportState) -> CanvasCorner,
    F: Fn(SelectionPoint, SelectionPoint) -> Single,
>(
    before: CanvasApp,
    step: FrameStep,
    kernels: FrameKernels<L, W, D, F>,
    after: CanvasApp,
    work: FrameWork,
) -> bool {
    match step {
        FrameStep::Navigate { wheel, dragged } => {
            &&& after == (CanvasApp { viewport: after.viewport, ..before })
            &&& crate::viewport::navigated(
                before.viewport,
                before.canvas_width,
                before.canvas_height,
                kernels.limit,
                wheel,
                kernels.refocus,
                dragged,
                kernels.slide,
                after.viewport,
            )
            &&& work is Nothing
        },
        FrameStep::Sample { sample, pressure } => {
            &&& after == (CanvasApp {
                brush: BrushSettings {
                    last_pressure: pressure.larger(Single { bits: crate::brush::LEAST_PRESSURE }),
                    pressure_from_device: sample.pressure is Some,
                    ..before.brush
                },
                ..before
            })
            &&& work is Nothing
        },
        FrameStep::Track => {
            &&& after == (CanvasApp { tracker: after.tracker, motion: after.motion, ..before })
            &&& work is Nothing
        },
        FrameStep::StartDrag { native, pointer } => {
            &&& after == (CanvasApp {
                tracker: InputTracker { audit: after.tracker.audit, ..before.tracker },
                motion: crate::viewport::at_rest(pointer),
                ..before
            })
            &&& work == FrameWork::Start(
                crate::shell::drag_start(before.tool_mode, native, pointer),
            )
        },
        FrameStep::BeginRect(point) => {
            &&& after == (CanvasApp {
                selection: SelectionState {
                    selection_drag: Some(
                        crate::selection::SelectionDrag::Rect { start: point, current: point },
                    ),
                    ..before.selection
                },
                ..before
            })
            &&& work is Nothing
        },
        FrameStep::BeginLasso(point) => {
            &&& after == (CanvasApp {
                selection: SelectionState {
                    selection_drag: Some(crate::selection::SelectionDrag::Lasso),
                    lasso_points: after.selection.lasso_points,
                    ..before.selection
                },
                ..before
            })
            &&& after.selection.lasso_points@ == seq![point]
            &&& work is Nothing
        },
        FrameStep::SendSettings { texture_created, result } => {
            &&& after == (CanvasApp {
                brush: BrushSettings {
                    stamp_texture_created: before.brush.stamp_texture_created || texture_created,
                    ..before.brush
                },
                last_error: crate::shell::error_of(result),
                ..before
            })
            &&& work == FrameWork::Settings(before.brush)
        },
        FrameStep::BeginStroke(input) => {
            &&& after == before
            &&& work == FrameWork::Command(before.beginning(input))
        },
        FrameStep::StrokeBegun(result) => {
            &&& after == (CanvasApp {
                active_stroke: crate::shell::stroke_begun(result),
                last_error: after.last_error,
                tracker: after.tracker,
                ..before
            })
            &&& work is Nothing
        },
        FrameStep::Extend { has_native_updates, dragged, started } => {
            &&& after == before
            &&& work == FrameWork::Tool(
                before.extended_tool(has_native_updates, dragged, started),
            )
        },
        FrameStep::DragRect(point) => {
            &&& after == (CanvasApp {
                selection: SelectionState {
                    selection_drag: match before.selection.selection_drag {
                        Some(crate::selection::SelectionDrag::Rect { start, .. }) => Some(
                            crate::selection::SelectionDrag::Rect { start, current: point },
                        ),
                        other => other,
                    },
                    ..before.selection
                },
                ..before
            })
            &&& work is Nothing
        },
        FrameStep::ExtendLasso(points) => {
            &&& after == (CanvasApp {
                selection: SelectionState {
                    lasso_points: after.selection.lasso_points,
                    ..before.selection
                },
                ..before
            })
            &&& lasso_extended(
                before.selection.lasso_points@,
                points@,
                kernels.distance,
                after.selection.lasso_points@,
            )
            &&& work is Nothing
        },
        FrameStep::Feed { feed, event } => work matches FrameWork::Feed(next, action)
            && crate::feed::fed(before, feed, event, after, next, action),
        FrameStep::EndDrag => work matches FrameWork::End(end) && crate::shell::drag_ended(
            before,
            after,
            end,
        ),
        FrameStep::EndStroke { ending, answer } => work matches FrameWork::Ending(next, action)
            && crate::ending::ended(before, ending, answer, after, next, action),
        FrameStep::Selected { result, layers } => {
            &&& after == (CanvasApp {
                last_error: crate::shell::error_of(result),
                cursor: before.cursor.synced(layers@),
                ..before
            })
            &&& work is Nothing
        },
    }
}

/// The shells agree on everything that the engine is told of: the brush, the layer, the
/// selection, the view, the clipboard, the canvas, the tool and the stroke.
pub open spec fn agree(a: CanvasApp, b: CanvasApp) -> bool {
    &&& a.brush == b.brush
    &&& a.cursor == b.cursor
    &&& a.selection.selection_mode == b.selection.selection_mode
    &&& a.selection.selection_drag == b.selection.selection_drag
    &&& a.selection.lasso_points@ == b.selection.lasso_points@
    &&& a.viewport == b.viewport
    &&& a.clipboard == b.clipboard
    &&& a.canvas_width == b.canvas_width
    &&& a.canvas_height == b.canvas_height
    &&& a.tool_mode == b.tool_mode
    &&& a.active_stroke == b.active_stroke
}

/// Both ends of a stroke have the engine do the same.
pub open spec fn same_ending(a: EndingAction, b: EndingAction) -> bool {
    match (a, b) {
        (EndingAction::Execute(x), EndingAction::Execute(y)) => x.same(y),
        _ => a == b,
    }
}

/// Both steps ask for the same.
pub open spec fn same_work(a: FrameWork, b: FrameWork) -> bool {
    match (a, b) {
        (FrameWork::Feed(m, x), FrameWork::Feed(n, y)) => m == n && crate::feed::same_action(
            x,
            y,
        ),
        (FrameWork::End(x), FrameWork::End(y)) => crate::feed::same_end(x, y),
        (FrameWork::Ending(m, x), FrameWork::Ending(n, y)) => m == n && same_ending(x, y),
        _ => a == b,
    }
}

/// The step from `states[i]` by `steps[i]`.
pub open spec fn taken_at<
    L: Fn(u32, Single) -> Single,
    W: Fn(ViewportState, ViewportState) -> CanvasCorner,
    D: Fn(ViewportState) -> CanvasCorner,
    F: Fn(SelectionPoint, SelectionPoint) -> Single,
>(
    states: Seq<CanvasApp>,
    steps: Seq<FrameStep>,
    kernels: FrameKernels<L, W, D, F>,
    works: Seq<FrameWork>,
    i: int,
) -> bool {
    taken(states[i], steps[i], kernels, states[i + 1], works[i])
}

/// The shell goes through `states` by `steps`, which ask for `works`.
pub open spec fn taken_in_turn<
    L: Fn(u32, Single) -> Single,
    W: Fn(ViewportState, ViewportState) -> CanvasCorner,
    D: Fn(ViewportState) -> CanvasCorner,
    F: Fn(SelectionPoint, SelectionPoint) -> Single,
>(
    states: Seq<CanvasApp>,
    steps: Seq<FrameStep>,
    kernels: FrameKernels<L, W, D, F>,
    works: Seq<FrameWork>,
) -> bool {
    &&& states.len() == steps.len() + 1
    &&& works.len() == steps.len()
    &&& forall|i: int|
        0 <= i < steps.len() ==> #[trigger] taken_at(states, steps, kernels, works, i)
}

/// Previews never reach the engine. Two shells that differ in nothing but the tip preview, the
/// raw trail and the debug overlay, and go through a frame on the same input and the same
/// answers of the engine, ask at every step for the same work, with the same commands, and
/// agree after every step on the brush, the layer, the selection, the view and the stroke.
pub proof fn previews_change_no_frame<
    L: Fn(u32, Single) -> Single,
    W: Fn(ViewportState, ViewportState) -> CanvasCorner,
    D: Fn(ViewportState) -> CanvasCorner,
    F: Fn(SelectionPoint, SelectionPoint) -> Single,
>(
    steps: Seq<FrameStep>,
    kernels: FrameKernels<L, W, D, F>,
    a: Seq<CanvasApp>,
    b: Seq<CanvasApp>,
    works_a: Seq<FrameWork>,
    works_b: Seq<FrameWork>,
)
    requires
        steady_kernels(kernels),
        taken_in_turn(a, steps, kernels, works_a),
        taken_in_turn(b, steps, kernels, works_b),
        crate::feed::differ_in_previews_only(a[0], b[0]),
    ensures
        forall|i: int| 0 <= i < a.len() ==> agree(#[trigger] a[i], b[i]),
        forall|i: int| 0 <= i < steps.len() ==> same_work(#[trigger] works_a[i], works_b[i]),
{
    assert forall|i: int| 0 <= i < a.len() implies agree(#[trigger] a[i], b[i]) by {
        lemma_frames_agree(steps, kernels, a, b, works_a, works_b, i);
    }
    assert forall|i: int| 0 <= i < steps.len() implies same_work(
        #[trigger] works_a[i],
        works_b[i],
    ) by {
        assert(agree(a[i], b[i]));
        assert(taken_at(a, steps, kernels, works_a, i));
        assert(taken_at(b, steps, kernels, works_b, i));
        lemma_steps_agree(
            steps[i],
            kernels,
            a[i],
            b[i],
            (a[i + 1], works_a[i]),
            (b[i + 1], works_b[i]),
        );
    }
}

proof fn lemma_frames_agree<
    L: Fn(u32, Single) -> Single,
    W: Fn(ViewportState, ViewportState) -> CanvasCorner,
    D: Fn(ViewportState) -> CanvasCorner,
    F: Fn(SelectionPoint, SelectionPoint) -> Single,
>(
    steps: Seq<FrameStep>,
    kernels: FrameKernels<L, W, D, F>,
    a: Seq<CanvasApp>,
    b: Seq<CanvasApp>,
    works_a: Seq<FrameWork>,
    works_b: Seq<FrameWork>,
    i: int,
)
    requires
        steady_kernels(kernels),
        taken_in_turn(a, steps, kernels, works_a),
        taken_in_turn(b, steps, kernels, works_b),
        agree(a[0], b[0]),
        0 <= i < a.len(),
    ensures
        agree(a[i], b[i]),
    decreases i,
{
    if i > 0 {
        lemma_frames_agree(steps, kernels, a, b, works_a, works_b, i - 1);
        assert(taken_at(a, steps, kernels, works_a, i - 1));
        assert(taken_at(b, steps, kernels, works_b, i - 1));
        lemma_steps_agree(
            steps[i - 1],
            kernels,
            a[i - 1],
            b[i - 1],
            (a[i], works_a[i - 1]),
            (b[i], works_b[i - 1]),
        );
    }
}

proof fn lemma_steps_agree<
    L: Fn(u32, Single) -> Single,
    W: Fn(ViewportState, ViewportState) -> CanvasCorner,
    D: Fn(ViewportState) -> CanvasCorner,
    F: Fn(SelectionPoint, SelectionPoint) -> Single,
>(
    step: FrameStep,
    kernels: FrameKernels<L, W, D, F>,
    a: CanvasApp,
    b: CanvasApp,
    taken_a: (CanvasApp, FrameWork),
    taken_b: (CanvasApp, FrameWork),
)
    requires
        steady_kernels(kernels),
        agree(a, b),
        taken(a, step, kernels, taken_a.0, taken_a.1),
        taken(b, step, kernels, taken_b.0, taken_b.1),
    ensures
        agree(taken_a.0, taken_b.0),
        same_work(taken_a.1, taken_b.1),
{
    match step {
        FrameStep::Navigate { wheel, dragged } => {
            crate::viewport::navigation_is_steady(
                a.viewport,
                a.canvas_width,
                a.canvas_height,
                kernels.limit,
                wheel,
                kernels.refocus,
                dragged,
                kernels.slide,
                taken_a.0.viewport,
                taken_b.0.viewport,
            );
        },
        FrameStep::ExtendLasso(points) => {
            let x = choose|x: Seq<Seq<SelectionPoint>>|
                {
                    &&& #[trigger] crate::selection::lassoed_in_turn(x, points@, kernels.distance)
                    &&& x[0] == a.selection.lasso_points@
                    &&& x[points@.len() as int] == taken_a.0.selection.lasso_points@
                };
            let y = choose|y: Seq<Seq<SelectionPoint>>|
                {
                    &&& #[trigger] crate::selection::lassoed_in_turn(y, points@, kernels.distance)
                    &&& y[0] == b.selection.lasso_points@
                    &&& y[points@.len() as int] == taken_b.0.selection.lasso_points@
                };
            lemma_lassos_are_steady(x, y, points@, kernels, points@.len() as int);
        },
        FrameStep::Feed { feed, event } => {
            lemma_feeds_agree(a, b, feed, event, taken_a, taken_b);
        },
        FrameStep::EndDrag => {
            lemma_drag_ends_agree(a, b, taken_a, taken_b);
        },
        FrameStep::EndStroke { ending, answer } => {
            lemma_endings_agree(a, b, ending, answer, taken_a, taken_b);
        },
        _ => {},
    }
}

proof fn lemma_feeds_agree(
    a: CanvasApp,
    b: CanvasApp,
    feed: StrokeFeed,
    event: FeedEvent,
    fed_a: (CanvasApp, FrameWork),
    fed_b: (CanvasApp, FrameWork),
)
    requires
        agree(a, b),
        fed_a.1 matches FrameWork::Feed(next, action) && crate::feed::fed(
            a,
            feed,
            event,
            fed_a.0,
            next,
            action,
        ),
        fed_b.1 matches FrameWork::Feed(next, action) && crate::feed::fed(
            b,
            feed,
            event,
            fed_b.0,
            next,
            action,
        ),
    ensures
        agree(fed_a.0, fed_b.0),
        same_work(fed_a.1, fed_b.1),
{
}

proof fn lemma_drag_ends_agree(
    a: CanvasApp,
    b: CanvasApp,
    ended_a: (CanvasApp, FrameWork),
    ended_b: (CanvasApp, FrameWork),
)
    requires
        agree(a, b),
        ended_a.1 matches FrameWork::End(end) && crate::shell::drag_ended(a, ended_a.0, end),
        ended_b.1 matches FrameWork::End(end) && crate::shell::drag_ended(b, ended_b.0, end),
    ensures
        agree(ended_a.0, ended_b.0),
        same_work(ended_a.1, ended_b.1),
{
}

proof fn lemma_endings_agree(
    a: CanvasApp,
    b: CanvasApp,
    ending: StrokeEnding,
    answer: EndingEvent,
    ended_a: (CanvasApp, FrameWork),
    ended_b: (CanvasApp, FrameWork),
)
    requires
        agree(a, b),
        ended_a.1 matches FrameWork::Ending(next, action) && crate::ending::ended(
            a,
            ending,
            answer,
            ended_a.0,
            next,
            action,
        ),
        ended_b.1 matches FrameWork::Ending(next, action) && crate::ending::ended(
            b,
            ending,
            answer,
            ended_b.0,
            next,
            action,
        ),
    ensures
        agree(ended_a.0, ended_b.0),
        same_work(ended_a.1, ended_b.1),
{
}

proof fn lemma_lassos_are_steady<
    L: Fn(u32, Single) -> Single,
    W: Fn(ViewportState, ViewportState) -> CanvasCorner,
    D: Fn(ViewportState) -> CanvasCorner,
    F: Fn(SelectionPoint, SelectionPoint) -> Single,
>(
    x: Seq<Seq<SelectionPoint>>,
    y: Seq<Seq<SelectionPoint>>,
    points: Seq<StrokeInputPoint>,
    kernels: FrameKernels<L, W, D, F>,
    i: int,
)
    requires
        steady_kernels(kernels),
        crate::selection::lassoed_in_turn(x, points, kernels.distance),
        crate::selection::lassoed_in_turn(y, points, kernels.distance),
        x[0] == y[0],
        0 <= i <= points.len(),
    ensures
        x[i] == y[i],
    decreases i,
{
    if i > 0 {
        lemma_lassos_are_steady(x, y, points, kernels, i - 1);
        let corner = crate::selection::corner(points[i - 1]);
        assert(crate::selection::lassoed(x[i - 1], corner, kernels.distance, x[i]));
        assert(crate::selection::lassoed(y[i - 1], corner, kernels.distance, y[i]));
    }
}

} // verus!
