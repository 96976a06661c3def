//! Painting: how a drag becomes a stroke, and what the engine is asked for on the way.

use crate::audit::NativeStats;
use crate::command::{CanvasCommand, CommandOutput};
use crate::ending::{EndingAction, EndingEvent, StrokeEnding};
use crate::feed::{FeedAction, FeedEvent, StrokeFeed};
use crate::geometry::{ScreenPos, StrokePoint};
use crate::input::{NativeInputPoint, StrokeInputPoint, StrokeInputSource};
use crate::scalar::{Double, Single};
use crate::selection::ToolMode;
use crate::shell::{CanvasApp, DispatchReport, DragEnd, DragStart};
use vstd::prelude::*;

verus! {

/// The point is where the sample was taken, as hard as it was pressed.
pub open spec fn marks(point: StrokePoint, input: StrokeInputPoint) -> bool {
    point.x == input.point.x && point.y == input.point.y && point.pressure == input.point.pressure
}

/// The points are those of the samples, each in the place of its sample.
pub open spec fn marks_all(points: Seq<StrokePoint>, inputs: Seq<StrokeInputPoint>) -> bool {
    &&& points.len() == inputs.len()
    &&& forall|i: int| 0 <= i < inputs.len() ==> marks(#[trigger] points[i], inputs[i])
}

/// A stroke begins on the current layer, in the mode, width and color that were picked, at
/// the sample that began it.
pub proof fn strokes_begin_with_the_brush_as_picked(
    app: CanvasApp,
    input: StrokeInputPoint,
    command: CanvasCommand,
)
    requires
        call_ensures(CanvasApp::begin_stroke_command, (&app, input), command),
    ensures
        command is BeginStroke,
        ({
            let begin = command->BeginStroke_0;
            &&& begin.layer == app.cursor.layer_id
            &&& begin.mode == app.brush.brush_mode
            &&& begin.radius == app.brush.brush_radius
            &&& begin.color.red == app.brush.brush_red
            &&& begin.color.green == app.brush.brush_green
            &&& begin.color.blue == app.brush.brush_blue
            &&& begin.color.alpha == app.brush.brush_alpha
            &&& marks(begin.first_point, input)
        }),
{
}

/// A tap leaves a dab that looks as a stroke with the same brush begins: on the same layer, in
/// the same mode, width and color, at the same point, and of that point alone.
pub proof fn taps_look_like_the_beginning_of_a_stroke(
    app: CanvasApp,
    input: StrokeInputPoint,
    begin: CanvasCommand,
    dab: CanvasCommand,
)
    requires
        call_ensures(CanvasApp::begin_stroke_command, (&app, input), begin),
        call_ensures(CanvasApp::tap_command, (&app, input), dab),
    ensures
        begin is BeginStroke,
        dab is Brush,
        ({
            let (stroke, tap) = (begin->BeginStroke_0, dab->Brush_0);
            &&& tap.layer == stroke.layer
            &&& tap.mode == stroke.mode
            &&& tap.radius == stroke.radius
            &&& tap.color == stroke.color
            &&& tap.points@.len() == 1
            &&& tap.points@[0] == stroke.first_point
        }),
{
}

/// A batch goes to the stroke under way, whole and in order, if there is a stroke and the
/// batch holds anything; otherwise nothing is sent and nothing changes.
pub proof fn batches_go_to_the_stroke_whole(
    app: &mut CanvasApp,
    batch: Vec<StrokeInputPoint>,
    command: Option<CanvasCommand>,
)
    requires
        call_ensures(CanvasApp::append_stroke_command, (app, &batch), command),
    ensures
        command is Some <==> old(app).active_stroke is Some && batch@.len() > 0,
        command is Some ==> command->0 is AppendStroke,
        command is Some ==> Some(command->0->AppendStroke_0.stroke) == old(app).active_stroke,
        command is Some ==> marks_all(command->0->AppendStroke_0.points@, batch@),
        command is None ==> *final(app) == *old(app),
        *final(app) == (CanvasApp { tracker: final(app).tracker, ..*old(app) }),
{
    if let Some(CanvasCommand::AppendStroke(append)) = command {
        assert forall|i: int| 0 <= i < batch@.len() implies marks(
            #[trigger] append.points@[i],
            batch@[i],
        ) by {}
    }
}

/// What is counted about a batch that was sent: one batch more, its length, and where its
/// first two samples were.
pub proof fn batches_are_counted(
    app: &mut CanvasApp,
    batch: Vec<StrokeInputPoint>,
    command: Option<CanvasCommand>,
)
    requires
        call_ensures(CanvasApp::append_stroke_command, (app, &batch), command),
        command is Some,
        old(app).tracker.audit.append_batches < u32::MAX,
    ensures
        final(app).tracker.audit.append_batches == old(app).tracker.audit.append_batches + 1,
        final(app).tracker.audit.last_append_len == batch@.len() as usize,
        final(app).tracker.audit.last_append_first is Some && marks(
            final(app).tracker.audit.last_append_first->0,
            batch@[0],
        ),
        batch@.len() == 1 <==> final(app).tracker.audit.last_append_second is None,
        batch@.len() > 1 ==> marks(final(app).tracker.audit.last_append_second->0, batch@[1]),
{
}

/// What the engine made of a batch is shown as it is, and clears the error; a failure is kept
/// and changes nothing else. The stroke left paint just when the engine dispatched anything.
pub proof fn dispatches_are_shown(
    app: &mut CanvasApp,
    result: Result<DispatchReport, String>,
    painted: bool,
)
    requires
        call_ensures(CanvasApp::finish_append, (app, result), painted),
    ensures
        painted <==> result is Ok && result->Ok_0.dispatches > 0,
        result is Ok ==> final(app).last_error is None,
        result is Ok ==> final(app).tracker.audit.last_core_dispatches == result->Ok_0.dispatches,
        result is Ok ==> final(app).tracker.audit.last_core_uploaded_points
            == result->Ok_0.uploaded_points,
        result is Err ==> final(app).last_error == Some(result->Err_0),
        result is Err ==> final(app).tracker == old(app).tracker,
        *final(app) == (CanvasApp {
            tracker: final(app).tracker,
            last_error: final(app).last_error,
            ..*old(app)
        }),
{
}

/// The stroke under way is the one that the engine began, if it began one; if not, there is an
/// error and no trace of the sample. Nothing else of the shell changes.
pub proof fn the_stroke_under_way_is_the_engines(
    app: &mut CanvasApp,
    result: Result<CommandOutput, String>,
    begun: bool,
)
    requires
        call_ensures(CanvasApp::finish_begin_stroke, (app, result), begun),
    ensures
        begun <==> result is Ok && result->Ok_0 is StrokeStarted,
        begun ==> final(app).active_stroke == Some(result->Ok_0->id),
        begun ==> final(app).last_error is None && final(app).tracker == old(app).tracker,
        !begun ==> final(app).active_stroke is None,
        !begun ==> final(app).last_error is Some,
        result is Err ==> final(app).last_error == Some(result->Err_0),
        !begun ==> final(app).tracker.raw_lead_points@.len() == 0,
        !begun ==> final(app).tracker.latest_input_preview is None,
        !begun ==> final(app).tracker.latency_probe is None,
        *final(app) == (CanvasApp {
            active_stroke: final(app).active_stroke,
            last_error: final(app).last_error,
            tracker: final(app).tracker,
            ..*old(app)
        }),
{
}

/// The first sample of a stroke is remembered as what it began with, is all of the trail and
/// the preview, and is timed under a number of its own. Nothing else of the shell changes.
pub proof fn first_samples_are_remembered<F: Fn(StrokePoint, StrokePoint) -> Single>(
    app: &mut CanvasApp,
    input: StrokeInputPoint,
    frame_time: Double,
    elapsed_ms: Single,
    now: u64,
    distance_squared: F,
)
    requires
        call_ensures(
            CanvasApp::begin_stroke::<F>,
            (app, input, frame_time, elapsed_ms, now, distance_squared),
            (),
        ),
    ensures
        final(app).tracker.audit.begin_point is Some,
        marks(final(app).tracker.audit.begin_point->0, input),
        final(app).tracker.audit.begin_pressure_from_device == input.pressure_from_device,
        final(app).tracker.audit.begin_input_source == Some(input.source),
        final(app).tracker.raw_lead_points@.len() == 1,
        marks(final(app).tracker.raw_lead_points@[0], input),
        final(app).tracker.latest_input_preview == Some(final(app).tracker.raw_lead_points@[0]),
        final(app).tracker.latency_probe is Some,
        final(app).tracker.latency_probe->0.app_receive == now,
        final(app).tracker.latency_probe->0.sample_id == old(app).tracker.next_latency_sample_id,
        final(app).tracker.latency_probe->0.paint is None,
        old(app).tracker.next_latency_sample_id < u64::MAX
            ==> final(app).tracker.next_latency_sample_id
            == old(app).tracker.next_latency_sample_id + 1,
        final(app).tracker.audit.raw_pts@ == old(app).tracker.audit.raw_pts@,
        *final(app) == (CanvasApp { tracker: final(app).tracker, ..*old(app) }),
{
}

/// A drag starts where the pen came down, and where the pointer is only if no pen did; the
/// tool decides what is dragged, and a pen brings its sample along.
pub proof fn drags_start_at_the_pen_or_the_pointer(
    app: &mut CanvasApp,
    points: &[NativeInputPoint],
    begin_index: Option<usize>,
    stats: Option<NativeStats>,
    pointer: Option<ScreenPos>,
    start: DragStart,
)
    requires
        call_ensures(CanvasApp::start_drag, (app, points, begin_index, stats, pointer), start),
        begin_index is Some ==> begin_index->0 < points@.len(),
    ensures
        start is Nowhere <==> begin_index is None && pointer is None,
        old(app).tool_mode == ToolMode::Brush && begin_index is Some ==> start
            == DragStart::StrokeFrom(points@[begin_index->0 as int].point),
        old(app).tool_mode == ToolMode::Brush && begin_index is None && pointer is Some ==> start
            == DragStart::StrokeAt(pointer->0),
        old(app).tool_mode == ToolMode::RectSelection && begin_index is Some ==> start
            == DragStart::RectAt(points@[begin_index->0 as int].window_pos),
        old(app).tool_mode == ToolMode::RectSelection && begin_index is None && pointer is Some
            ==> start == DragStart::RectAt(pointer->0),
        old(app).tool_mode == ToolMode::LassoSelection && begin_index is Some ==> start
            == DragStart::LassoAt(points@[begin_index->0 as int].window_pos),
        old(app).tool_mode == ToolMode::LassoSelection && begin_index is None && pointer is Some
            ==> start == DragStart::LassoAt(pointer->0),
{
}

/// A drag starts counting anew, from the native samples of its first frame on, with the
/// pointer at rest. Nothing else of the shell changes.
pub proof fn drags_start_counting_anew(
    app: &mut CanvasApp,
    points: &[NativeInputPoint],
    begin_index: Option<usize>,
    stats: Option<NativeStats>,
    pointer: Option<ScreenPos>,
    start: DragStart,
)
    requires
        call_ensures(CanvasApp::start_drag, (app, points, begin_index, stats, pointer), start),
        points@.len() <= u32::MAX,
    ensures
        final(app).tracker.audit.native_pointer_events == points@.len(),
        final(app).tracker.audit.last_native_pointer_batch == points@.len() as usize,
        stats is Some ==> final(app).tracker.audit.native_pointer_dropped
            == stats->0.dropped_events,
        stats is Some ==> final(app).tracker.audit.native_pointer_last_error == stats->0.last_error,
        stats is None ==> final(app).tracker.audit.native_pointer_dropped == 0
            && final(app).tracker.audit.native_pointer_last_error is None,
        final(app).tracker.audit.frames == 0,
        final(app).tracker.audit.raw_events == 0,
        final(app).tracker.audit.raw_pts@.len() == 0,
        final(app).tracker.audit.append_batches == 0,
        final(app).tracker.audit.begin_point is None,
        final(app).tracker.audit.event_gap_count == 0,
        final(app).motion.last_cursor == pointer,
        final(app).motion.velocity.x.bits == 0 && final(app).motion.velocity.y.bits == 0,
        *final(app) == (CanvasApp {
            tracker: final(app).tracker,
            motion: final(app).motion,
            ..*old(app)
        }),
        final(app).tracker.raw_lead_points == old(app).tracker.raw_lead_points,
        final(app).tracker.latency_probe == old(app).tracker.latency_probe,
{
}

/// A frame extends the drag of the current tool if the pen moved on a stroke under way, or if
/// the pointer goes on with a drag that an earlier frame started; otherwise none.
pub proof fn frames_extend_the_drag_under_way(
    app: CanvasApp,
    updates: bool,
    dragged: bool,
    started: bool,
    tool: Option<ToolMode>,
)
    requires
        call_ensures(CanvasApp::update_step, (&app, updates, dragged, started), tool),
    ensures
        updates && app.active_stroke is Some ==> tool == Some(app.tool_mode),
        dragged && !started ==> tool == Some(app.tool_mode),
        tool is Some ==> tool == Some(app.tool_mode),
        tool is Some ==> updates || dragged,
        tool is Some && started ==> updates && app.active_stroke is Some,
        tool is Some && app.active_stroke is None ==> dragged && !started,
{
}

/// A drag with the brush ends the stroke under way, and no other tool ends one: those select,
/// or do nothing.
pub proof fn drags_end_the_stroke_under_way(app: &mut CanvasApp, end: DragEnd)
    requires
        call_ensures(CanvasApp::end_drag, (app,), end),
    ensures
        old(app).tool_mode == ToolMode::Brush && old(app).active_stroke is Some ==> end
            == DragEnd::Stroke(old(app).active_stroke->0),
        end is Stroke ==> old(app).tool_mode == ToolMode::Brush && old(app).active_stroke is Some,
        end is Selection ==> old(app).tool_mode != ToolMode::Brush,
        old(app).tool_mode == ToolMode::Brush ==> final(app).active_stroke is None,
        old(app).tool_mode != ToolMode::Brush ==> final(app).active_stroke
            == old(app).active_stroke,
{
}

/// A drag that ended leaves nothing of what was dragged or previewed, and everything else as
/// it was.
pub proof fn drags_end_without_a_trace(app: &mut CanvasApp, end: DragEnd)
    requires
        call_ensures(CanvasApp::end_drag, (app,), end),
    ensures
        final(app).selection.selection_drag is None,
        final(app).tracker.latest_input_preview is None,
        final(app).tracker.raw_lead_points@.len() == 0,
        final(app).motion.last_cursor is None,
        final(app).motion.velocity.x.bits == 0 && final(app).motion.velocity.y.bits == 0,
        final(app).selection.lasso_points == old(app).selection.lasso_points,
        final(app).selection.selection_mode == old(app).selection.selection_mode,
        final(app).tracker.audit == old(app).tracker.audit,
        final(app).tracker.latency_probe == old(app).tracker.latency_probe,
        *final(app) == (CanvasApp {
            active_stroke: final(app).active_stroke,
            selection: final(app).selection,
            tracker: final(app).tracker,
            motion: final(app).motion,
            ..*old(app)
        }),
{
}

/// A stroke that is to begin anew is given up first: the engine ends it, if there is one, and
/// nothing else changes.
pub proof fn strokes_are_given_up_before_they_begin_anew(
    app: &mut CanvasApp,
    command: Option<CanvasCommand>,
)
    requires
        call_ensures(CanvasApp::reanchor_active_stroke_to_touch, (app,), command),
    ensures
        command is Some <==> old(app).active_stroke is Some,
        command is Some ==> command->0 == CanvasCommand::EndStroke(old(app).active_stroke->0),
        *final(app) == (CanvasApp { active_stroke: None, ..*old(app) }),
{
}

/// A stroke that began anew is the engine's new one, remembered as begun by touch at its new
/// first sample; if the engine did not begin it, nothing changes and an error comes back.
pub proof fn strokes_begin_anew_at_a_touch(
    app: &mut CanvasApp,
    first: StrokeInputPoint,
    result: Result<CommandOutput, String>,
    outcome: Result<(), String>,
)
    requires
        call_ensures(CanvasApp::finish_reanchor, (app, first, result), outcome),
    ensures
        outcome is Ok <==> result is Ok && result->Ok_0 is StrokeStarted,
        outcome is Err ==> *final(app) == *old(app),
        result is Err ==> outcome == Err::<(), String>(result->Err_0),
        outcome is Ok ==> final(app).active_stroke == Some(result->Ok_0->id),
        outcome is Ok ==> final(app).tracker.audit.begin_point is Some && marks(
            final(app).tracker.audit.begin_point->0,
            first,
        ),
        outcome is Ok ==> final(app).tracker.audit.begin_pressure_from_device
            == first.pressure_from_device,
        outcome is Ok ==> final(app).tracker.audit.begin_input_source == Some(
            StrokeInputSource::Touch,
        ),
        outcome is Ok && old(app).tracker.audit.reanchored_touch_begins < u32::MAX
            ==> final(app).tracker.audit.reanchored_touch_begins
            == old(app).tracker.audit.reanchored_touch_begins + 1,
        *final(app) == (CanvasApp {
            active_stroke: final(app).active_stroke,
            tracker: final(app).tracker,
            ..*old(app)
        }),
        final(app).tracker.audit.raw_pts == old(app).tracker.audit.raw_pts,
        final(app).tracker.raw_lead_points == old(app).tracker.raw_lead_points,
{
}

/// What a frame's batch asks of the engine is an append to the stroke under way, whole and in
/// order; a batch without a stroke, or an empty one, asks for nothing.
pub proof fn frames_append_their_batch(
    app: &mut CanvasApp,
    batch: Vec<StrokeInputPoint>,
    next: StrokeFeed,
    action: FeedAction,
)
    requires
        call_ensures(
            CanvasApp::feed,
            (app, StrokeFeed::Idle, FeedEvent::Passed { anew: None, batch }),
            (next, action),
        ),
    ensures
        old(app).active_stroke is Some && batch@.len() > 0 ==> (action matches FeedAction::Append(
            command,
        ) && command is AppendStroke && Some(command->AppendStroke_0.stroke)
            == old(app).active_stroke && marks_all(command->AppendStroke_0.points@, batch@)
            && next is Appending),
        old(app).active_stroke is None || batch@.len() == 0 ==> next is Idle && action is Rest
            && *final(app) == *old(app),
        final(app).active_stroke == old(app).active_stroke,
        final(app).last_error == old(app).last_error,
{
    if let FeedAction::Append(CanvasCommand::AppendStroke(append)) = action {
        assert forall|i: int| 0 <= i < batch@.len() implies marks(
            #[trigger] append.points@[i],
            batch@[i],
        ) by {}
    }
}

/// A frame that wants the stroke anew ends it, if there is one, before anything else, and
/// begins it at the sample that it wants, with the brush as picked.
pub proof fn frames_begin_strokes_anew(
    app: &mut CanvasApp,
    first: StrokeInputPoint,
    batch: Vec<StrokeInputPoint>,
    next: StrokeFeed,
    action: FeedAction,
    begin: CanvasCommand,
)
    requires
        call_ensures(
            CanvasApp::feed,
            (app, StrokeFeed::Idle, FeedEvent::Passed { anew: Some(first), batch }),
            (next, action),
        ),
        call_ensures(CanvasApp::begin_stroke_command, (&*old(app), first), begin),
    ensures
        old(app).active_stroke is Some ==> action == FeedAction::End(
            CanvasCommand::EndStroke(old(app).active_stroke->0),
        ),
        old(app).active_stroke is Some ==> next == (StrokeFeed::Ending { first, batch }),
        old(app).active_stroke is None ==> action == FeedAction::Begin(begin),
        old(app).active_stroke is None ==> next == (StrokeFeed::Beginning { first, batch }),
        *final(app) == (CanvasApp { active_stroke: None, ..*old(app) }),
{
}

/// The engine's answers carry a frame on: an ended stroke is begun anew, a begun one gets the
/// batch, an appended batch is shown; and any failure is kept and ends the frame's work.
pub proof fn answers_carry_a_frame_on(
    app: &mut CanvasApp,
    feed: StrokeFeed,
    event: FeedEvent,
    next: StrokeFeed,
    action: FeedAction,
    begin: CanvasCommand,
)
    requires
        call_ensures(CanvasApp::feed, (app, feed, event), (next, action)),
        feed is Ending ==> call_ensures(
            CanvasApp::begin_stroke_command,
            (&*old(app), feed->Ending_first),
            begin,
        ),
    ensures
        feed is Ending && event is Ended && event->Ended_0 is Ok ==> next == (
        StrokeFeed::Beginning { first: feed->Ending_first, batch: feed->Ending_batch })
            && action == FeedAction::Begin(begin) && *final(app)
            == *old(app),
        feed is Ending && event is Ended && event->Ended_0 is Err ==> next is Idle && action
            is Rest && final(app).last_error == Some(event->Ended_0->Err_0),
        feed is Beginning && event is Begun && event->Begun_0 is Err ==> next is Idle && action
            is Rest && final(app).last_error == Some(event->Begun_0->Err_0)
            && final(app).active_stroke == old(app).active_stroke,
        feed is Beginning && event is Begun && event->Begun_0 is Ok && event->Begun_0->Ok_0
            is StrokeStarted ==> final(app).active_stroke == Some(event->Begun_0->Ok_0->id),
        feed is Beginning && event is Begun && event->Begun_0 is Ok && event->Begun_0->Ok_0
            is StrokeStarted && feed->Beginning_batch@.len() > 0 ==> next is Appending && (
        action matches FeedAction::Append(command) && command is AppendStroke
            && command->AppendStroke_0.stroke == event->Begun_0->Ok_0->id && marks_all(
            command->AppendStroke_0.points@,
            feed->Beginning_batch@,
        )),
        feed is Appending && event is Appended ==> next is Idle,
        feed is Appending && event is Appended && event->Appended_0 is Ok ==> (action is Painted
            <==> event->Appended_0->Ok_0.dispatches > 0) && final(app).last_error is None,
        feed is Appending && event is Appended && event->Appended_0 is Err ==> action is Rest
            && final(app).last_error == Some(event->Appended_0->Err_0),
        action is Append ==> event is Passed || event is Begun,
        action is Painted ==> event is Appended,
        action is Begin ==> event is Passed || event is Ended,
        action is End ==> event is Passed,
{
    if feed is Beginning && event is Begun {
        if let FeedAction::Append(CanvasCommand::AppendStroke(append)) = action {
            let batch = feed->Beginning_batch@;
            assert forall|i: int| 0 <= i < batch.len() implies marks(
                #[trigger] append.points@[i],
                batch[i],
            ) by {}
        }
    }
}

/// Only the layer, the brush, the selection, the view and the tool are the user's: no sample
/// on its way to the engine changes any of them.
pub proof fn frames_change_no_setting(
    app: &mut CanvasApp,
    feed: StrokeFeed,
    event: FeedEvent,
    next: StrokeFeed,
    action: FeedAction,
)
    requires
        call_ensures(CanvasApp::feed, (app, feed, event), (next, action)),
    ensures
        *final(app) == (CanvasApp {
            active_stroke: final(app).active_stroke,
            tracker: final(app).tracker,
            last_error: final(app).last_error,
            ..*old(app)
        }),
        final(app).tracker.raw_lead_points == old(app).tracker.raw_lead_points,
        final(app).tracker.latest_input_preview == old(app).tracker.latest_input_preview,
{
}

/// The dab of a tap is painted just when there was a tap and the stroke was not committed, on
/// the current layer with the brush as picked, at the tap.
pub proof fn taps_leave_a_dab_where_strokes_left_nothing(
    app: CanvasApp,
    output: CommandOutput,
    tap: Option<StrokeInputPoint>,
    dab: Option<CanvasCommand>,
)
    requires
        call_ensures(CanvasApp::tap_after_end, (&app, output, tap), dab),
    ensures
        dab is Some <==> tap is Some && !(output is StrokeEnded && output->committed),
        dab is Some ==> dab->0 is Brush && dab->0->Brush_0.layer == app.cursor.layer_id
            && dab->0->Brush_0.mode == app.brush.brush_mode && dab->0->Brush_0.radius
            == app.brush.brush_radius && dab->0->Brush_0.color.red == app.brush.brush_red
            && dab->0->Brush_0.color.green == app.brush.brush_green && dab->0->Brush_0.color.blue
            == app.brush.brush_blue && dab->0->Brush_0.color.alpha == app.brush.brush_alpha
            && dab->0->Brush_0.points@.len() == 1 && marks(dab->0->Brush_0.points@[0], tap->0),
{
}

/// The end of a stroke goes step by step: the engine ends the stroke that was dragged, dabs its
/// tap if that left nothing, then shows the canvas, each only after the step before succeeded.
pub proof fn strokes_end_step_by_step(
    app: &mut CanvasApp,
    ending: StrokeEnding,
    event: EndingEvent,
    next: StrokeEnding,
    action: EndingAction,
)
    requires
        call_ensures(CanvasApp::end_stroke, (app, ending, event), (next, action)),
    ensures
        ending is Idle && event is Stopped ==> action == EndingAction::Execute(
            CanvasCommand::EndStroke(event->stroke),
        ) && next == (StrokeEnding::Ending { tap: event->tap }),
        ending is Ending && event is Executed && event->Executed_0 is Ok ==> (action is Execute
            <==> ending->tap is Some && !(event->Executed_0->Ok_0 is StrokeEnded
            && event->Executed_0->Ok_0->committed)),
        ending is Ending && action is Execute ==> action->Execute_0 is Brush
            && action->Execute_0->Brush_0.points@.len() == 1 && marks(
            action->Execute_0->Brush_0.points@[0],
            ending->tap->0,
        ) && next is Tapping,
        ending is Ending && event is Executed && event->Executed_0 is Ok && !(action is Execute)
            ==> action is Show && next is Showing,
        ending is Tapping && event is Executed && event->Executed_0 is Ok ==> action is Show
            && next is Showing,
        action is Show ==> event is Executed && event->Executed_0 is Ok,
        ending is Showing && event is Shown && event->Shown_0 is Ok ==> final(app).last_error
            is None && next is Idle && action is Rest,
        (ending is Ending || ending is Tapping) && event is Executed && event->Executed_0 is Err
            ==> final(app).last_error == Some(event->Executed_0->Err_0) && action is Rest && next
            is Idle,
        ending is Showing && event is Shown && event->Shown_0 is Err ==> final(app).last_error
            == Some(event->Shown_0->Err_0) && action is Rest && next is Idle,
        *final(app) == (CanvasApp { last_error: final(app).last_error, ..*old(app) }),
{
}

/// A frame without samples is sampled at the pointer, one with samples is not.
pub proof fn only_empty_frames_fall_back_on_the_pointer(
    samples: &[StrokeInputPoint],
    pointer: Option<ScreenPos>,
    fallback: Option<ScreenPos>,
)
    requires
        call_ensures(crate::feed::fallback_position, (samples, pointer), fallback),
    ensures
        samples@.len() == 0 ==> fallback == pointer,
        samples@.len() > 0 ==> fallback is None,
{
}

/// A tap is dabbed over everything but a stroke that the engine committed.
pub proof fn committed_strokes_need_no_dab(output: CommandOutput, dabs: bool)
    requires
        call_ensures(crate::shell::paints_tap, (output,), dabs),
    ensures
        !dabs <==> output is StrokeEnded && output->committed,
{
}

/// An error is kept until something succeeds, and nothing but the error changes.
pub proof fn errors_are_kept_until_something_succeeds(
    app: &mut CanvasApp,
    result: Result<(), String>,
    later: &mut CanvasApp,
    error: String,
)
    requires
        call_ensures(CanvasApp::note_outcome, (app, result), ()),
        call_ensures(CanvasApp::note_error, (later, error), ()),
    ensures
        result is Ok ==> final(app).last_error is None,
        result is Err ==> final(app).last_error == Some(result->Err_0),
        *final(app) == (CanvasApp { last_error: final(app).last_error, ..*old(app) }),
        *final(later) == (CanvasApp { last_error: Some(error), ..*old(later) }),
{
}

/// Begun on a layer, a stroke is painted on the layer that was current then: two strokes that
/// begin with the same shell differ in where they begin alone.
pub proof fn strokes_differ_in_where_they_begin(
    app: CanvasApp,
    a: StrokeInputPoint,
    b: StrokeInputPoint,
    first: CanvasCommand,
    second: CanvasCommand,
)
    requires
        call_ensures(CanvasApp::begin_stroke_command, (&app, a), first),
        call_ensures(CanvasApp::begin_stroke_command, (&app, b), second),
    ensures
        first is BeginStroke && second is BeginStroke,
        second->BeginStroke_0 == (crate::command::BeginStrokeCommand {
            first_point: second->BeginStroke_0.first_point,
            ..first->BeginStroke_0
        }),
        a.point.x != b.point.x || a.point.y != b.point.y ==> first->BeginStroke_0.first_point
            != second->BeginStroke_0.first_point,
{
}

/// A batch does the same to the shell and asks the same of the engine, whether it comes with
/// its frame or by itself.
pub proof fn batches_are_fed_as_they_are_appended(
    app: &mut CanvasApp,
    batch: Vec<StrokeInputPoint>,
    next: StrokeFeed,
    action: FeedAction,
    alone: &mut CanvasApp,
    command: Option<CanvasCommand>,
)
    requires
        call_ensures(
            CanvasApp::feed,
            (app, StrokeFeed::Idle, FeedEvent::Passed { anew: None, batch }),
            (next, action),
        ),
        call_ensures(CanvasApp::append_stroke_command, (alone, &batch), command),
        *old(alone) == *old(app),
    ensures
        *final(app) == *final(alone),
        action is Append <==> command is Some,
        action is Append ==> crate::laws::replays::tells_the_same(action->Append_0, command->0),
{
}

/// The engine's answers do the same to the shell, whether they come to a frame under way or by
/// themselves: one to a batch, and one to a stroke begun anew, behind which the batch comes.
pub proof fn answers_are_fed_as_they_come(
    app: &mut CanvasApp,
    result: Result<DispatchReport, String>,
    next: StrokeFeed,
    action: FeedAction,
    alone: &mut CanvasApp,
    painted: bool,
)
    requires
        call_ensures(
            CanvasApp::feed,
            (app, StrokeFeed::Appending, FeedEvent::Appended(result)),
            (next, action),
        ),
        call_ensures(CanvasApp::finish_append, (alone, result), painted),
        *old(alone) == *old(app),
    ensures
        *final(app) == *final(alone),
        action is Painted <==> painted,
        action is Rest <==> !painted,
{
}

/// A stroke that began anew within a frame goes on as one that began anew by itself and then
/// got the batch.
pub proof fn strokes_begun_anew_get_the_batch(
    app: &mut CanvasApp,
    first: StrokeInputPoint,
    batch: Vec<StrokeInputPoint>,
    result: Result<CommandOutput, String>,
    next: StrokeFeed,
    action: FeedAction,
    begun: &mut CanvasApp,
    outcome: Result<(), String>,
    appended: &mut CanvasApp,
    command: Option<CanvasCommand>,
)
    requires
        call_ensures(
            CanvasApp::feed,
            (app, StrokeFeed::Beginning { first, batch }, FeedEvent::Begun(result)),
            (next, action),
        ),
        call_ensures(CanvasApp::finish_reanchor, (begun, first, result), outcome),
        call_ensures(CanvasApp::append_stroke_command, (appended, &batch), command),
        *old(begun) == *old(app),
        *old(appended) == *final(begun),
    ensures
        outcome is Ok ==> *final(app) == *final(appended),
        outcome is Ok ==> (action is Append <==> command is Some),
        action is Append ==> outcome is Ok && crate::laws::replays::tells_the_same(
            action->Append_0,
            command->0,
        ),
        outcome is Err ==> next is Idle && action is Rest,
        outcome is Err ==> final(app).last_error is Some && final(app).last_error->0@
            == outcome->Err_0@,
{
}

/// A tap is dabbed at the end of a stroke just as after its end.
pub proof fn taps_are_dabbed_at_the_end(
    app: &mut CanvasApp,
    tap: Option<StrokeInputPoint>,
    output: CommandOutput,
    next: StrokeEnding,
    action: EndingAction,
    dab: Option<CanvasCommand>,
)
    requires
        call_ensures(
            CanvasApp::end_stroke,
            (app, StrokeEnding::Ending { tap }, EndingEvent::Executed(Ok(output))),
            (next, action),
        ),
        call_ensures(CanvasApp::tap_after_end, (&*old(app), output, tap), dab),
    ensures
        action is Execute <==> dab is Some,
        action is Execute ==> crate::laws::replays::tells_the_same(action->Execute_0, dab->0),
        *final(app) == *old(app),
{
    if action is Execute {
        assert(action->Execute_0->Brush_0.points@ =~= dab->0->Brush_0.points@);
    }
}

/// An event that does not belong to the step under way changes nothing and asks for nothing,
/// neither on the way of a frame's samples nor at the end of a stroke.
pub proof fn events_out_of_turn_are_passed_over(
    app: &mut CanvasApp,
    feed: StrokeFeed,
    event: FeedEvent,
    next: StrokeFeed,
    action: FeedAction,
    later: &mut CanvasApp,
    ending: StrokeEnding,
    end: EndingEvent,
    after: StrokeEnding,
    last: EndingAction,
)
    requires
        call_ensures(CanvasApp::feed, (app, feed, event), (next, action)),
        call_ensures(CanvasApp::end_stroke, (later, ending, end), (after, last)),
    ensures
        !(feed is Idle && event is Passed || feed is Ending && event is Ended || feed is Beginning
            && event is Begun || feed is Appending && event is Appended) ==> *final(app)
            == *old(app) && next is Idle && action is Rest,
        !(ending is Idle && end is Stopped || ending is Ending && end is Executed || ending
            is Tapping && end is Executed || ending is Showing && end is Shown) ==> *final(later)
            == *old(later) && after is Idle && last is Rest,
        ending is Idle ==> *final(later) == *old(later),
{
}

/// If the engine answers with anything but a stroke, it is said that the stroke did not begin,
/// or did not begin anew.
pub proof fn strokes_that_do_not_begin_say_so(
    app: &mut CanvasApp,
    output: CommandOutput,
    begun: bool,
    anew: &mut CanvasApp,
    first: StrokeInputPoint,
    outcome: Result<(), String>,
)
    requires
        call_ensures(
            CanvasApp::finish_begin_stroke,
            (app, Ok::<CommandOutput, String>(output)),
            begun,
        ),
        call_ensures(
            CanvasApp::finish_reanchor,
            (anew, first, Ok::<CommandOutput, String>(output)),
            outcome,
        ),
        !(output is StrokeStarted),
    ensures
        final(app).last_error is Some && final(app).last_error->0@ == "画笔命令未能开始笔画"@,
        outcome is Err && outcome->Err_0@ == "画笔命令未能重新开始笔画"@,
{
}

} // verus!
