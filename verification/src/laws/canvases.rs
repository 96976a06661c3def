//! New canvases, rebuilt canvases, and what is recorded of a canvas.

use crate::brush::{BrushSettings, StabilizerMode};
use crate::capture::{CaptureLevel, DataCaptureConfig};
use crate::command::{CanvasCommand, CanvasError};
use crate::config::CanvasConfig;
use crate::layers::{LayerId, LayerSnapshot};
use crate::making::{CanvasMaking, MakingAction, MakingEvent};
use crate::rebuilding::{CanvasRebuild, RebuildAction, RebuildEvent};
use crate::recording::{RecordingState, TraceSource};
use crate::scalar::Single;
use crate::shell::CanvasApp;
use crate::trace::TraceReport;
use vstd::prelude::*;

verus! {

/// A new canvas is as large as asked for, but at least one pixel each way, smooths as the brush
/// does, and is otherwise made as the one before.
pub proof fn canvases_are_as_large_as_asked_for(
    current: CanvasConfig,
    width: u32,
    height: u32,
    tile_size: u32,
    brush: BrushSettings,
    made: CanvasConfig,
)
    requires
        call_ensures(
            crate::config::new_canvas_config,
            (current, width, height, tile_size, &brush),
            made,
        ),
    ensures
        made.width >= 1 && made.height >= 1 && made.tile_size >= 1,
        width >= 1 ==> made.width == width,
        height >= 1 ==> made.height == height,
        tile_size >= 1 ==> made.tile_size == tile_size,
        width == 0 ==> made.width == 1,
        height == 0 ==> made.height == 1,
        tile_size == 0 ==> made.tile_size == 1,
        made.stabilizer.enabled == brush.stabilizer_enabled,
        made.stabilizer.mode == brush.stab_mode,
        made.stabilizer.smooth_strength == brush.smooth_strength,
        made.stabilizer.spacing_ratio == current.stabilizer.spacing_ratio,
        made.history_budget_bytes == current.history_budget_bytes,
        made.streaming_sample_min_distance == current.streaming_sample_min_distance,
        made.prediction == current.prediction,
        made.data_capture == current.data_capture,
{
}

/// The shell asks for the canvas that its panel shows.
pub proof fn the_panel_says_which_canvas(
    app: CanvasApp,
    current: CanvasConfig,
    asked: CanvasConfig,
    made: CanvasConfig,
)
    requires
        call_ensures(CanvasApp::create_new_canvas, (&app, current), asked),
        call_ensures(
            crate::config::new_canvas_config,
            (
                current,
                app.new_canvas_width,
                app.new_canvas_height,
                app.new_canvas_tile_size,
                &app.brush,
            ),
            made,
        ),
    ensures
        asked == made,
{
}

/// The first canvas is square, keeps every sample, neither smooths nor predicts, and is
/// recorded point by point within eight megabytes.
pub proof fn the_first_canvas_is_plain(canvas: CanvasConfig, capture: DataCaptureConfig)
    requires
        call_ensures(crate::config::initial_canvas_config, (), canvas),
        call_ensures(crate::capture::initial_capture_config, (), capture),
    ensures
        canvas.width == 1024 && canvas.height == 1024 && canvas.tile_size == 256,
        canvas.history_budget_bytes == 512 * 1024 * 1024,
        canvas.streaming_sample_min_distance.bits == 0,
        !canvas.stabilizer.enabled && canvas.stabilizer.mode == StabilizerMode::Adaptive,
        canvas.stabilizer.smooth_strength.bits == 0,
        canvas.stabilizer.spacing_ratio.bits == 0x3d4c_cccd,
        !canvas.prediction.enabled,
        canvas.prediction.max_distance.bits == 0x4140_0000,
        canvas.prediction.time_horizon_seconds.bits == 0x3c08_8889,
        canvas.prediction.min_samples == 2,
        canvas.data_capture == capture,
        capture.enabled && capture.level == CaptureLevel::L1PointStream,
        capture.max_bytes_per_session == 8 * 1024 * 1024,
        !capture.allow_gpu_readback,
{
}

/// A recording is on or off and as detailed as asked for, never reads pixels back, and may take
/// as many megabytes as asked for, but at least one and no more than can be counted.
pub proof fn recordings_are_as_asked_for(
    enabled: bool,
    level: CaptureLevel,
    budget_mb: u64,
    capture: DataCaptureConfig,
)
    requires
        call_ensures(crate::capture::capture_config, (enabled, level, budget_mb), capture),
    ensures
        capture.enabled == enabled,
        capture.level == level,
        !capture.allow_gpu_readback,
        budget_mb == 0 ==> capture.max_bytes_per_session == 1024 * 1024,
        0 < budget_mb && budget_mb * 1024 * 1024 <= u64::MAX ==> capture.max_bytes_per_session
            == budget_mb * 1024 * 1024,
        budget_mb * 1024 * 1024 > u64::MAX ==> capture.max_bytes_per_session == u64::MAX,
{
}

/// The shell as it starts: on its first layer, with the whole canvas in view, the brush as it
/// starts, an empty clipboard and nothing under way, and of the previews with the raw trail.
pub proof fn the_shell_starts_afresh(
    layer: LayerId,
    base: Vec<LayerSnapshot>,
    app: CanvasApp,
    brush: BrushSettings,
)
    requires
        call_ensures(CanvasApp::new, (layer, base), app),
        call_ensures(BrushSettings::new, (), brush),
        layer.0 < u64::MAX,
    ensures
        app.cursor.layer_id == layer,
        app.cursor.next_layer_id == layer.0 + 1,
        app.brush == brush,
        app.active_stroke is None,
        app.clipboard is None,
        app.last_error is None,
        app.tool_mode == crate::selection::ToolMode::Brush,
        app.selection.selection_mode == crate::selection::SelectionCombineMode::Replace,
        app.selection.selection_drag is None,
        app.selection.lasso_points@.len() == 0,
        app.viewport.zoom.bits == 0x3f80_0000,
        app.viewport.pan_x.bits == 0 && app.viewport.pan_y.bits == 0,
        app.motion.last_cursor is None,
        app.recording.trace_enabled,
        app.recording.trace_level == CaptureLevel::L1PointStream,
        app.recording.trace_budget_mb == 8,
        app.recording.trace_rebuild_result is None,
        !app.recording.has_last_trace,
        app.recording.trace_base_layers == base,
        app.canvas_width == 1024 && app.canvas_height == 1024,
        app.new_canvas_width == 1024 && app.new_canvas_height == 1024,
        app.new_canvas_tile_size == 256,
        app.raw_lead_preview && !app.prediction && !app.debug_overlay,
{
}

/// A canvas that was made and presented is taken up whole: it is painted on its first layer,
/// in full view, with the brush but without what was known of strokes and devices. If it was
/// not, only the error is new.
pub proof fn new_canvases_are_taken_up(
    app: &mut CanvasApp,
    config: CanvasConfig,
    result: Result<Vec<LayerSnapshot>, String>,
)
    requires
        call_ensures(CanvasApp::finish_new_canvas, (app, &config, result), ()),
    ensures
        result is Err ==> *final(app) == (CanvasApp {
            last_error: Some(result->Err_0),
            ..*old(app)
        }),
        result is Ok ==> final(app).canvas_width == config.width,
        result is Ok ==> final(app).canvas_height == config.height,
        result is Ok ==> final(app).cursor.layer_id.0 == 1 && final(app).cursor.next_layer_id == 2,
        result is Ok ==> final(app).active_stroke is None,
        result is Ok ==> final(app).viewport.zoom.bits == 0x3f80_0000
            && final(app).viewport.pan_x.bits == 0 && final(app).viewport.pan_y.bits == 0,
        result is Ok ==> final(app).motion.last_cursor is None,
        result is Ok ==> final(app).recording == (RecordingState {
            trace_base_layers: result->Ok_0,
            ..old(app).recording
        }),
        result is Ok ==> final(app).brush == (BrushSettings {
            last_pressure: old(app).brush.fallback_pressure,
            pressure_from_device: false,
            stamp_texture_created: false,
            ..old(app).brush
        }),
        result is Ok ==> final(app).tracker.latest_input_preview is None
            && final(app).tracker.raw_lead_points@.len() == 0 && final(app).tracker.latency_probe
            is None,
        result is Ok ==> final(app).tracker.audit.frames == 0
            && final(app).tracker.audit.raw_pts@.len() == 0 && final(app).tracker.audit.begin_point
            is None && final(app).tracker.audit.append_batches == 0,
        final(app).clipboard == old(app).clipboard,
        final(app).selection == old(app).selection,
        final(app).tool_mode == old(app).tool_mode,
        result is Ok ==> final(app).last_error == old(app).last_error,
{
}

/// A new canvas is made step by step: the canvas that the panel shows, its first layer, the
/// composite, the presentation, the texture, and then the brush settings are sent. Each step
/// comes after the one before succeeded.
pub proof fn canvases_are_made_step_by_step(
    app: &mut CanvasApp,
    making: CanvasMaking,
    event: MakingEvent,
    next: CanvasMaking,
    action: MakingAction,
    asked: CanvasConfig,
)
    requires
        call_ensures(CanvasApp::make_canvas, (app, making, event), (next, action)),
        event is Asked ==> call_ensures(
            CanvasApp::create_new_canvas,
            (&*old(app), event->current),
            asked,
        ),
    ensures
        making is Idle && event is Asked && event->can_display ==> action
            == MakingAction::Execute(CanvasCommand::NewCanvas(asked)) && next == (
        CanvasMaking::Creating { config: asked }) && *final(app) == *old(app),
        making is Idle && event is Asked && !event->can_display ==> action is Rest && next is Idle
            && final(app).last_error is Some && final(app).last_error->0@
            == "无法访问 WGPU 渲染状态"@,
        making is Creating && event is Done && event->Done_0 is Ok ==> action
            == MakingAction::Execute(CanvasCommand::AddPlainLayer(LayerId(1))) && next == (
        CanvasMaking::Layering { config: making->Creating_config }),
        making is Layering && event is Done && event->Done_0 is Ok ==> action is Composite && next
            == (CanvasMaking::Compositing { config: making->Layering_config }),
        making is Compositing && event is Done && event->Done_0 is Ok ==> action is Present && next
            == (CanvasMaking::Presenting { config: making->Compositing_config }),
        making is Presenting && event is Presented && event->Presented_0 is Ok ==> action
            is Register && next is Registering && final(app).canvas_width
            == making->Presenting_config.width && final(app).canvas_height
            == making->Presenting_config.height && final(app).recording.trace_base_layers
            == event->Presented_0->Ok_0 && final(app).cursor.layer_id.0 == 1,
        making is Registering && event is Done && event->Done_0 is Ok ==> action
            is SendBrushSettings && next is Idle && final(app).last_error is None,
        action is Execute ==> event is Asked || event is Done && event->Done_0 is Ok,
        action is Composite || action is Present || action is SendBrushSettings ==> event is Done
            && event->Done_0 is Ok,
        action is Register ==> event is Presented && event->Presented_0 is Ok,
{
}

/// A step that fails is the last one, and leaves everything but the error as it was; so does
/// every step before the presentation that succeeds.
pub proof fn canvases_change_nothing_until_presented(
    app: &mut CanvasApp,
    making: CanvasMaking,
    event: MakingEvent,
    next: CanvasMaking,
    action: MakingAction,
)
    requires
        call_ensures(CanvasApp::make_canvas, (app, making, event), (next, action)),
    ensures
        !(event is Presented && event->Presented_0 is Ok) ==> *final(app) == (CanvasApp {
            last_error: final(app).last_error,
            ..*old(app)
        }),
        event is Done && event->Done_0 is Err ==> action is Rest && next is Idle,
        event is Presented && event->Presented_0 is Err ==> action is Rest && next is Idle,
        event is Done && event->Done_0 is Err && (making is Creating || making is Layering
            || making is Compositing || making is Registering) ==> final(app).last_error == Some(
            event->Done_0->Err_0,
        ),
        event is Presented && event->Presented_0 is Err && making is Presenting
            ==> final(app).last_error == Some(event->Presented_0->Err_0),
{
}

/// A rebuild goes step by step: composite and read the original, replay the record, composite,
/// present and read the rebuilt canvas, register its texture. Each step comes after the one
/// before succeeded.
pub proof fn canvases_are_rebuilt_step_by_step<F: Fn(Single, Single) -> Single>(
    app: &mut CanvasApp,
    rebuild: CanvasRebuild,
    event: RebuildEvent,
    abs_diff: F,
    next: CanvasRebuild,
    action: RebuildAction,
)
    requires
        call_ensures(CanvasApp::rebuild::<F>, (app, rebuild, event, abs_diff), (next, action)),
    ensures
        rebuild is Idle && event is Asked && event->can_display && event->has_current_trace
            ==> action is Composite && next == (CanvasRebuild::Compositing {
            source: TraceSource::Current,
        }),
        rebuild is Idle && event is Asked && event->can_display && !event->has_current_trace
            && old(app).recording.has_last_trace ==> action is Composite && next == (
        CanvasRebuild::Compositing { source: TraceSource::Cached }),
        rebuild is Idle && event is Asked && (!event->can_display || !event->has_current_trace
            && !old(app).recording.has_last_trace) ==> action is Rest
            && final(app).recording.trace_rebuild_result is Some,
        rebuild is Compositing && event is Done && event->Done_0 is Ok ==> action is Read && next
            == (CanvasRebuild::Reading { source: rebuild->Compositing_source }),
        rebuild is Reading && event is Read && event->Read_0 is Ok ==> action
            == RebuildAction::Replay(rebuild->Reading_source) && next == (
        CanvasRebuild::Replaying { original: event->Read_0->Ok_0 }),
        rebuild is Replaying && event is Done && event->Done_0 is Ok ==> action is Composite && next
            == (CanvasRebuild::Recompositing { original: rebuild->Replaying_original }),
        rebuild is Recompositing && event is Done && event->Done_0 is Ok ==> action is Present
            && next == (CanvasRebuild::Presenting { original: rebuild->Recompositing_original }),
        rebuild is Presenting && event is Done && event->Done_0 is Ok ==> action is Reread && next
            == (CanvasRebuild::Rereading { original: rebuild->Presenting_original }),
        action is Register ==> rebuild is Rereading && event is Reread && event->result is Ok && next
            is Registering,
        action is Replay ==> event is Read && event->Read_0 is Ok,
        action is Composite ==> event is Asked || event is Done && event->Done_0 is Ok,
        action is Read || action is Present || action is Reread ==> event is Done && event->Done_0
            is Ok,
{
}

/// A rebuilt canvas is taken up just when it is as large as the original: it is painted on its
/// top layer, in the recorded size, and is not recorded. Until then, and if anything fails,
/// nothing but what is said of the rebuild changes.
pub proof fn rebuilt_canvases_are_taken_up<F: Fn(Single, Single) -> Single>(
    app: &mut CanvasApp,
    rebuild: CanvasRebuild,
    event: RebuildEvent,
    abs_diff: F,
    next: CanvasRebuild,
    action: RebuildAction,
)
    requires
        call_ensures(CanvasApp::rebuild::<F>, (app, rebuild, event, abs_diff), (next, action)),
    ensures
        rebuild is Rereading && event is Reread && event->result is Ok ==> (action is Register
            <==> event->result->Ok_0.image@.len() == rebuild->Rereading_original@.len()),
        action is Register ==> final(app).canvas_width == event->result->Ok_0.canvas.width
            && final(app).canvas_height == event->result->Ok_0.canvas.height
            && !final(app).recording.trace_enabled && final(app).recording.trace_base_layers
            == event->result->Ok_0.layers,
        action is Register && event->result->Ok_0.layers@.len() > 0 ==> final(app).cursor.layer_id
            == event->result->Ok_0.layers@[event->result->Ok_0.layers@.len() - 1].spec.id,
        action is Register ==> final(app).recording.trace_rebuild_result
            == old(app).recording.trace_rebuild_result,
        !(action is Register) ==> *final(app) == (CanvasApp {
            recording: RecordingState {
                trace_rebuild_result: final(app).recording.trace_rebuild_result,
                ..old(app).recording
            },
            ..*old(app)
        }),
        *final(app) == (CanvasApp {
            cursor: final(app).cursor,
            canvas_width: final(app).canvas_width,
            canvas_height: final(app).canvas_height,
            recording: final(app).recording,
            ..*old(app)
        }),
        event is Done && event->Done_0 is Err ==> action is Rest && next is Idle,
        event is Read && event->Read_0 is Err ==> action is Rest && next is Idle,
        event is Reread && event->result is Err ==> action is Rest && next is Idle,
{
}

/// What is said of a rebuild that failed is the engine's error in words, and of one that was
/// made, what was replayed.
pub proof fn rebuilds_say_what_came_of_them<F: Fn(Single, Single) -> Single>(
    app: &mut CanvasApp,
    rebuild: CanvasRebuild,
    event: RebuildEvent,
    abs_diff: F,
    next: CanvasRebuild,
    action: RebuildAction,
    failed: String,
    made: String,
    unshown: String,
)
    requires
        call_ensures(CanvasApp::rebuild::<F>, (app, rebuild, event, abs_diff), (next, action)),
        event is Done && event->Done_0 is Err ==> exists|diagnostic: &str|
            diagnostic@ == event->Done_0->Err_0.diagnostic@ && #[trigger] call_ensures(
                crate::trace::trace_rebuild_error_message,
                (&event->Done_0->Err_0.error, diagnostic),
                failed,
            ),
        event is Registered && event->shown is Ok ==> exists|max_diff: &str|
            max_diff@ == event->max_diff@ && #[trigger] call_ensures(
                crate::trace::trace_rebuild_summary,
                (&event->report, max_diff),
                made,
            ),
        event is Registered && event->shown is Err ==> exists|error: &str|
            error@ == event->shown->Err_0@ && #[trigger] call_ensures(
                crate::trace::trace_texture_registration_error_message,
                (error,),
                unshown,
            ),
    ensures
        event is Done && event->Done_0 is Err && (rebuild is Compositing || rebuild is Replaying
            || rebuild is Recompositing || rebuild is Presenting)
            ==> final(app).recording.trace_rebuild_result is Some
            && final(app).recording.trace_rebuild_result->0@ == failed@,
        rebuild is Registering && event is Registered && event->shown is Ok
            ==> final(app).recording.trace_rebuild_result is Some
            && final(app).recording.trace_rebuild_result->0@ == made@,
        rebuild is Registering && event is Registered ==> next is Idle && action is Rest,
        rebuild is Registering && event is Registered && event->shown is Err
            ==> final(app).recording.trace_rebuild_result is Some
            && final(app).recording.trace_rebuild_result->0@ == unshown@,
{
}

/// The shell on a rebuilt canvas: in the recorded size, on its top layer, not recorded.
pub proof fn rebuilds_are_not_recorded(
    app: &mut CanvasApp,
    canvas: CanvasConfig,
    layers: Vec<LayerSnapshot>,
)
    requires
        call_ensures(CanvasApp::rebuild_from_trace, (app, &canvas, layers), ()),
    ensures
        final(app).canvas_width == canvas.width,
        final(app).canvas_height == canvas.height,
        layers@.len() > 0 ==> final(app).cursor.layer_id == layers@[layers@.len() - 1].spec.id,
        layers@.len() == 0 ==> final(app).cursor.layer_id.0 == 1,
        final(app).recording == (RecordingState {
            trace_enabled: false,
            trace_base_layers: layers,
            ..old(app).recording
        }),
        *final(app) == (CanvasApp {
            cursor: final(app).cursor,
            canvas_width: final(app).canvas_width,
            canvas_height: final(app).canvas_height,
            recording: final(app).recording,
            ..*old(app)
        }),
{
}

/// Changed recording settings are passed on as they are set. A record that was being made is
/// kept; a new one starts from the layers as they are now and from no earlier result, and a
/// stopped one keeps those it started from.
pub proof fn recording_settings_are_passed_on(
    app: &mut CanvasApp,
    has_current: bool,
    layers: Vec<LayerSnapshot>,
    capture: DataCaptureConfig,
    asked: DataCaptureConfig,
)
    requires
        call_ensures(CanvasApp::apply_trace_config, (app, has_current, layers), capture),
        call_ensures(
            crate::capture::capture_config,
            (
                old(app).recording.trace_enabled,
                old(app).recording.trace_level,
                old(app).recording.trace_budget_mb,
            ),
            asked,
        ),
    ensures
        capture == asked,
        has_current ==> final(app).recording.has_last_trace,
        !has_current ==> final(app).recording.has_last_trace
            == old(app).recording.has_last_trace,
        old(app).recording.has_last_trace ==> final(app).recording.has_last_trace,
        old(app).recording.trace_enabled ==> final(app).recording.trace_base_layers == layers
            && final(app).recording.trace_rebuild_result is None,
        !old(app).recording.trace_enabled ==> final(app).recording.trace_base_layers
            == old(app).recording.trace_base_layers
            && final(app).recording.trace_rebuild_result
            == old(app).recording.trace_rebuild_result,
        final(app).last_error is None,
        *final(app) == (CanvasApp {
            recording: RecordingState {
                has_last_trace: final(app).recording.has_last_trace,
                trace_base_layers: final(app).recording.trace_base_layers,
                trace_rebuild_result: final(app).recording.trace_rebuild_result,
                ..old(app).recording
            },
            last_error: None,
            ..*old(app)
        }),
{
}

/// The recording's own part in that is the same.
pub proof fn recordings_take_settings_up(
    recording: &mut RecordingState,
    has_current: bool,
    layers: Vec<LayerSnapshot>,
    capture: DataCaptureConfig,
)
    requires
        call_ensures(RecordingState::apply_trace_config, (recording, has_current, layers), capture),
    ensures
        capture.enabled == old(recording).trace_enabled,
        capture.level == old(recording).trace_level,
        !capture.allow_gpu_readback,
        final(recording).trace_enabled == old(recording).trace_enabled,
        final(recording).trace_level == old(recording).trace_level,
        final(recording).trace_budget_mb == old(recording).trace_budget_mb,
        final(recording).has_last_trace <==> old(recording).has_last_trace || has_current,
        old(recording).trace_enabled ==> final(recording).trace_base_layers == layers
            && final(recording).trace_rebuild_result is None,
        !old(recording).trace_enabled ==> final(recording).trace_base_layers
            == old(recording).trace_base_layers && final(recording).trace_rebuild_result
            == old(recording).trace_rebuild_result,
{
}

/// The record that is shown and rebuilt is the one being made, then the last finished one; if
/// there is neither, or nothing can be displayed, nothing is rebuilt and it is said why.
pub proof fn the_current_record_comes_first(
    recording: &mut RecordingState,
    can_display: bool,
    has_current: bool,
    chosen: Option<TraceSource>,
    shown: Option<TraceSource>,
    reason: &str,
)
    requires
        call_ensures(RecordingState::begin_rebuild, (recording, can_display, has_current), chosen),
        call_ensures(RecordingState::trace_report, (&*old(recording), has_current), shown),
        call_ensures(
            crate::trace::trace_rebuild_unavailable_message,
            (old(recording).trace_enabled, has_current, old(recording).has_last_trace),
            reason,
        ),
    ensures
        has_current ==> shown == Some(TraceSource::Current),
        !has_current && old(recording).has_last_trace ==> shown == Some(TraceSource::Cached),
        !has_current && !old(recording).has_last_trace ==> shown is None,
        can_display ==> chosen == shown,
        !can_display ==> chosen is None,
        chosen is Some ==> *final(recording) == *old(recording),
        chosen is None ==> final(recording).trace_rebuild_result is Some && *final(recording) == (
        RecordingState {
            trace_rebuild_result: final(recording).trace_rebuild_result,
            ..*old(recording)
        }),
        chosen is None && can_display ==> final(recording).trace_rebuild_result->0@ == reason@,
        chosen is None && !can_display ==> final(recording).trace_rebuild_result->0@
            == "无法访问 WGPU 渲染状态，不能显示重构结果"@,
{
}

/// What is said of a rebuild is all that its outcome changes about the recording, and a
/// rebuilt canvas is taken up without being recorded.
pub proof fn rebuild_outcomes_are_only_said(
    failing: &mut RecordingState,
    error: CanvasError,
    diagnostic: &str,
    failed: String,
    completing: &mut RecordingState,
    shown: Result<(), String>,
    report: TraceReport,
    max_diff: &str,
    made: String,
    adopting: &mut RecordingState,
    layers: Vec<LayerSnapshot>,
)
    requires
        call_ensures(RecordingState::fail_rebuild, (failing, &error, diagnostic), ()),
        call_ensures(
            crate::trace::trace_rebuild_error_message,
            (&error, diagnostic),
            failed,
        ),
        call_ensures(
            RecordingState::complete_rebuild,
            (completing, shown, &report, max_diff),
            (),
        ),
        call_ensures(crate::trace::trace_rebuild_summary, (&report, max_diff), made),
        call_ensures(RecordingState::adopt_rebuild, (adopting, layers), ()),
    ensures
        final(failing).trace_rebuild_result is Some,
        final(failing).trace_rebuild_result->0@ == failed@,
        *final(failing) == (RecordingState {
            trace_rebuild_result: final(failing).trace_rebuild_result,
            ..*old(failing)
        }),
        final(completing).trace_rebuild_result is Some,
        shown is Ok ==> final(completing).trace_rebuild_result->0@ == made@,
        shown is Err ==> final(completing).trace_rebuild_result->0@
            == "重构已完成，但显示纹理注册失败："@ + shown->Err_0@,
        *final(completing) == (RecordingState {
            trace_rebuild_result: final(completing).trace_rebuild_result,
            ..*old(completing)
        }),
        !final(adopting).trace_enabled,
        final(adopting).trace_base_layers == layers,
        *final(adopting) == (RecordingState {
            trace_enabled: false,
            trace_base_layers: layers,
            ..*old(adopting)
        }),
{
}

/// The recording starts on, point by point, within eight megabytes, from the first layers.
pub proof fn recordings_start_on(base: Vec<LayerSnapshot>, recording: RecordingState)
    requires
        call_ensures(RecordingState::new, (base,), recording),
    ensures
        recording.trace_enabled,
        recording.trace_level == CaptureLevel::L1PointStream,
        recording.trace_budget_mb == 8,
        recording.trace_rebuild_result is None,
        !recording.has_last_trace,
        recording.trace_base_layers == base,
{
}

/// A canvas that was presented on its way does to the shell what one that was presented by
/// itself does.
pub proof fn presented_canvases_are_taken_up(
    app: &mut CanvasApp,
    config: CanvasConfig,
    result: Result<Vec<LayerSnapshot>, String>,
    next: CanvasMaking,
    action: MakingAction,
    alone: &mut CanvasApp,
)
    requires
        call_ensures(
            CanvasApp::make_canvas,
            (app, CanvasMaking::Presenting { config }, MakingEvent::Presented(result)),
            (next, action),
        ),
        call_ensures(CanvasApp::finish_new_canvas, (alone, &config, result), ()),
        *old(alone) == *old(app),
    ensures
        final(app).canvas_width == final(alone).canvas_width,
        final(app).canvas_height == final(alone).canvas_height,
        final(app).cursor == final(alone).cursor,
        final(app).brush == final(alone).brush,
        final(app).viewport == final(alone).viewport,
        final(app).motion == final(alone).motion,
        final(app).recording == final(alone).recording,
        final(app).active_stroke == final(alone).active_stroke,
        final(app).last_error == final(alone).last_error,
        final(app).tracker.raw_lead_points@ == final(alone).tracker.raw_lead_points@,
        final(app).tracker.latest_input_preview == final(alone).tracker.latest_input_preview,
        final(app).tracker.latency_probe == final(alone).tracker.latency_probe,
        final(app).tracker.next_latency_sample_id == final(alone).tracker.next_latency_sample_id,
        *final(app) == (CanvasApp { tracker: final(app).tracker, ..*final(alone) }),
{
}

/// An event that does not belong to the step under way changes nothing and asks for nothing,
/// neither while a canvas is made nor while one is rebuilt.
pub proof fn events_out_of_turn_are_passed_over<F: Fn(Single, Single) -> Single>(
    app: &mut CanvasApp,
    making: CanvasMaking,
    event: MakingEvent,
    next: CanvasMaking,
    action: MakingAction,
    other: &mut CanvasApp,
    rebuild: CanvasRebuild,
    step: RebuildEvent,
    abs_diff: F,
    later: CanvasRebuild,
    wanted: RebuildAction,
)
    requires
        call_ensures(CanvasApp::make_canvas, (app, making, event), (next, action)),
        call_ensures(CanvasApp::rebuild::<F>, (other, rebuild, step, abs_diff), (later, wanted)),
    ensures
        !(making is Idle && event is Asked || making is Presenting && event is Presented || event
            is Done && (making is Creating || making is Layering || making is Compositing || making
            is Registering)) ==> *final(app) == *old(app) && next is Idle && action is Rest,
        !(rebuild is Idle && step is Asked || rebuild is Reading && step is Read || rebuild
            is Rereading && step is Reread || rebuild is Registering && step is Registered || step
            is Done && (rebuild is Compositing || rebuild is Replaying || rebuild is Recompositing
            || rebuild is Presenting)) ==> *final(other) == *old(other) && later is Idle && wanted
            is Rest,
{
}

/// An image that could not be read, and one that is not as large as the original, is told of in
/// the words for its error.
pub proof fn rebuilds_say_what_could_not_be_read<F: Fn(Single, Single) -> Single>(
    app: &mut CanvasApp,
    rebuild: CanvasRebuild,
    event: RebuildEvent,
    abs_diff: F,
    next: CanvasRebuild,
    action: RebuildAction,
    error: CanvasError,
    diagnostic: &str,
    failed: String,
)
    requires
        call_ensures(CanvasApp::rebuild::<F>, (app, rebuild, event, abs_diff), (next, action)),
        call_ensures(
            crate::trace::trace_rebuild_error_message,
            (&error, diagnostic),
            failed,
        ),
        rebuild is Reading && event is Read && event->Read_0 is Err && error
            == event->Read_0->Err_0.error && diagnostic@ == event->Read_0->Err_0.diagnostic@
            || rebuild is Rereading && event is Reread && event->result is Err && error
            == event->result->Err_0.error && diagnostic@ == event->result->Err_0.diagnostic@
            || rebuild is Rereading && event is Reread && event->result is Ok
            && event->result->Ok_0.image@.len() != rebuild->Rereading_original@.len() && error
            is InvalidCanvasSize && diagnostic@ == event->size_diagnostic@,
    ensures
        final(app).recording.trace_rebuild_result is Some,
        final(app).recording.trace_rebuild_result->0@ == failed@,
        next is Idle && action is Rest,
{
}

/// The difference that a rebuild hands on is no smaller than that of any channel of any pixel.
pub proof fn rebuilds_hand_on_the_widest_difference<F: Fn(Single, Single) -> Single>(
    app: &mut CanvasApp,
    rebuild: CanvasRebuild,
    event: RebuildEvent,
    abs_diff: F,
    next: CanvasRebuild,
    action: RebuildAction,
    i: int,
    apart: Single,
)
    requires
        call_ensures(CanvasApp::rebuild::<F>, (app, rebuild, event, abs_diff), (next, action)),
        action is Register,
        0 <= i < rebuild->Rereading_original@.len(),
        ({
            let (a, b) = (rebuild->Rereading_original@[i], event->result->Ok_0.image@[i]);
            ||| forall|gap: Single| #[trigger]
                call_ensures(abs_diff, (a.red, b.red), gap) ==> gap == apart
            ||| forall|gap: Single| #[trigger]
                call_ensures(abs_diff, (a.green, b.green), gap) ==> gap == apart
            ||| forall|gap: Single| #[trigger]
                call_ensures(abs_diff, (a.blue, b.blue), gap) ==> gap == apart
            ||| forall|gap: Single| #[trigger]
                call_ensures(abs_diff, (a.alpha, b.alpha), gap) ==> gap == apart
        }),
    ensures
        !action->Register_0.below(apart),
        !action->Register_0.nan(),
{
    let (original, image) = (rebuild->Rereading_original@, event->result->Ok_0.image@);
    let diffs = choose|diffs: Seq<Single>|
        #[trigger] crate::replay::channel_diffs(original, image, abs_diff, diffs)
            && action->Register_0 == crate::range::largest(diffs);
    crate::range::largest_is_an_upper_bound(diffs);
    let k = 4 * i;
    assert(k / 4 == i && k % 4 == 0);
    assert((k + 1) / 4 == i && (k + 1) % 4 == 1);
    assert((k + 2) / 4 == i && (k + 2) % 4 == 2);
    assert((k + 3) / 4 == i && (k + 3) % 4 == 3);
    let (a, b) = (original[i], image[i]);
    assert(call_ensures(abs_diff, (a.red, b.red), diffs[k]));
    assert(call_ensures(abs_diff, (a.green, b.green), diffs[k + 1]));
    assert(call_ensures(abs_diff, (a.blue, b.blue), diffs[k + 2]));
    assert(call_ensures(abs_diff, (a.alpha, b.alpha), diffs[k + 3]));
}

/// A rebuild that cannot be made is answered as the recording answers it: with the reason why
/// there is no record, or that nothing can be displayed.
pub proof fn rebuilds_say_why_they_cannot_be_made<F: Fn(Single, Single) -> Single>(
    app: &mut CanvasApp,
    can_display: bool,
    has_current_trace: bool,
    abs_diff: F,
    next: CanvasRebuild,
    action: RebuildAction,
    reason: &str,
)
    requires
        call_ensures(
            CanvasApp::rebuild::<F>,
            (
                app,
                CanvasRebuild::Idle,
                RebuildEvent::Asked { can_display, has_current_trace },
                abs_diff,
            ),
            (next, action),
        ),
        call_ensures(
            crate::trace::trace_rebuild_unavailable_message,
            (
                old(app).recording.trace_enabled,
                has_current_trace,
                old(app).recording.has_last_trace,
            ),
            reason,
        ),
    ensures
        action is Rest ==> next is Idle && final(app).recording.trace_rebuild_result is Some,
        action is Rest && can_display ==> final(app).recording.trace_rebuild_result->0@
            == reason@,
        action is Rest && !can_display ==> final(app).recording.trace_rebuild_result->0@
            == "无法访问 WGPU 渲染状态，不能显示重构结果"@,
        !(action is Rest) ==> *final(app) == *old(app),
{
}

} // verus!
