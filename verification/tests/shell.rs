use canva_test::audit::NativeStats;
use canva_test::brush::BrushMode;
use canva_test::capture::CaptureLevel;
use canva_test::command::{CanvasCommand, CanvasError, CommandOutput, StrokeId};
use canva_test::config::initial_canvas_config;
use canva_test::feed::{fallback_position, FeedAction, FeedEvent, StrokeFeed};
use canva_test::geometry::{ScreenPos, StrokePoint};
use canva_test::input::{
    AdapterSample, NativeInputPoint, StrokeInputPoint, StrokeInputSource, StylusPhase,
};
use canva_test::layers::{BlendMode, LayerGroupMode, LayerId, LayerSnapshot, LayerSpec};
use canva_test::recording::TraceSource;
use canva_test::scalar::{Double, Single};
use canva_test::selection::{SelectionPoint, SelectionRect, ToolMode};
use canva_test::shell::{
    paints_tap, CanvasApp, ClipboardInfo, DispatchReport, DragEnd, DragStart, PasteRequest,
};
use canva_test::trace::TraceReport;

fn single(value: f32) -> Single {
    Single { bits: value.to_bits() }
}

fn number(value: Single) -> f32 {
    f32::from_bits(value.bits)
}

fn layer(id: u64) -> LayerSnapshot {
    LayerSnapshot {
        spec: LayerSpec {
            id: LayerId(id),
            visible: true,
            opacity: single(1.0),
            alpha_locked: false,
            clip_to_below: false,
            blend_mode: BlendMode::Normal,
            mask_layer: None,
        },
        parent: None,
        group_mode: LayerGroupMode::PassThrough,
        tile_count: 0,
    }
}

fn input(x: f32, y: f32) -> StrokeInputPoint {
    StrokeInputPoint {
        point: AdapterSample {
            x: single(x),
            y: single(y),
            pressure: single(0.5),
            tilt_x: single(0.0),
            tilt_y: single(0.0),
            twist: single(0.0),
            time_seconds: Double { bits: 1.0f64.to_bits() },
        },
        source: StrokeInputSource::Touch,
        pressure_from_device: true,
    }
}

fn point(x: f32, y: f32) -> StrokePoint {
    StrokePoint { x: single(x), y: single(y), pressure: single(0.5) }
}

fn distance_squared(a: StrokePoint, b: StrokePoint) -> Single {
    let dx = number(a.x) - number(b.x);
    let dy = number(a.y) - number(b.y);
    single(dx * dx + dy * dy)
}

fn fresh() -> CanvasApp {
    CanvasApp::new(LayerId(1), vec![layer(1)])
}

fn drawing() -> CanvasApp {
    let mut app = fresh();
    app.begin_stroke(
        input(1.0, 2.0),
        Double { bits: 1.25f64.to_bits() },
        single(250.0),
        40,
        distance_squared,
    );
    assert!(app.finish_begin_stroke(Ok(CommandOutput::StrokeStarted { id: StrokeId(6) })));
    app
}

fn pixels() -> ClipboardInfo {
    ClipboardInfo {
        bounds: SelectionRect { x: 5, y: 6, width: 7, height: 8 },
        layer: LayerId(1),
    }
}

#[test]
fn shells_start_ready_to_paint_and_record() {
    let app = fresh();
    assert_eq!(number(app.brush.brush_radius), 15.0);
    assert_eq!(app.cursor.next_layer_id, 2);
    assert_eq!(app.tool_mode, ToolMode::Brush);
    assert_eq!((app.canvas_width, app.canvas_height), (1024, 1024));
    assert_eq!(app.new_canvas_tile_size, 256);
    assert!(app.raw_lead_preview && !app.prediction && !app.debug_overlay);
    assert!(app.recording.trace_enabled);
    assert_eq!(app.recording.trace_level, CaptureLevel::L1PointStream);
    assert_eq!(app.recording.trace_budget_mb, 8);
    assert_eq!(app.recording.trace_base_layers, vec![layer(1)]);
    assert_eq!(app.last_error, None);
}

#[test]
fn commands_leave_their_outcome_behind() {
    let mut app = fresh();
    app.execute_canvas_command(Err("缺少图层".to_owned()), &[layer(3), layer(4)]);
    assert_eq!(app.last_error.as_deref(), Some("缺少图层"));
    assert_eq!(app.cursor.layer_id, LayerId(4));
    app.execute_canvas_command(Ok(()), &[layer(4)]);
    assert_eq!(app.last_error, None);
    app.note_error("x".to_owned());
    assert_eq!(app.last_error.as_deref(), Some("x"));
    app.note_outcome(Ok(()));
    assert_eq!(app.last_error, None);
    app.finish_brush_sync(true, Err("y".to_owned()));
    assert!(app.brush.stamp_texture_created);
    assert_eq!(app.last_error.as_deref(), Some("y"));
    app.finish_brush_sync(false, Ok(()));
    assert!(app.brush.stamp_texture_created);
    assert_eq!(app.last_error, None);
}

#[test]
fn pixels_are_copied_and_pasted_in_place() {
    let mut app = fresh();
    assert_eq!(app.paste_clipboard_to_active_layer(), None);
    assert_eq!(app.last_error.as_deref(), Some("剪贴板为空"));
    assert!(!app.copy_selection_to_clipboard(true, Ok(None)));
    assert_eq!(app.last_error.as_deref(), Some("没有可复制的活动选区"));
    assert!(!app.copy_selection_to_clipboard(false, Ok(Some(pixels()))));
    assert_eq!(app.last_error, None);
    assert!(app.copy_selection_to_clipboard(true, Ok(Some(pixels()))));
    assert!(!app.copy_selection_to_clipboard(true, Err("z".to_owned())));
    assert_eq!(app.clipboard, Some(pixels()));
    assert_eq!(
        app.paste_clipboard_to_active_layer(),
        Some(PasteRequest { layer: LayerId(1), origin_x: 5, origin_y: 6 })
    );
    app.finish_paste(Ok(false));
    assert_eq!(app.last_error.as_deref(), Some("粘贴区域超出画布"));
    app.finish_paste(Err("w".to_owned()));
    assert_eq!(app.last_error.as_deref(), Some("w"));
    app.finish_paste(Ok(true));
    assert_eq!(app.last_error, None);
}

#[test]
fn pasting_makes_new_layers() {
    let mut app = fresh();
    assert_eq!(app.paste_clipboard_to_new_layer(), None);
    assert_eq!(app.last_error.as_deref(), Some("剪贴板为空"));
    app.copy_selection_to_clipboard(false, Ok(Some(pixels())));
    assert_eq!(
        app.paste_clipboard_to_new_layer(),
        Some(PasteRequest { layer: LayerId(2), origin_x: 5, origin_y: 6 })
    );
    app.finish_paste_to_new_layer(Ok(false), &[layer(1)]);
    assert_eq!(app.last_error.as_deref(), Some("粘贴区域在画布外"));
    assert_eq!((app.cursor.layer_id, app.cursor.next_layer_id), (LayerId(1), 2));
    app.finish_paste_to_new_layer(Ok(true), &[layer(1), layer(2)]);
    assert_eq!((app.cursor.layer_id, app.cursor.next_layer_id), (LayerId(2), 3));
    assert_eq!(app.last_error, None);
    app.finish_paste_to_new_layer(Err("q".to_owned()), &[layer(1)]);
    assert_eq!((app.cursor.layer_id, app.cursor.next_layer_id), (LayerId(1), 3));
    assert_eq!(app.last_error.as_deref(), Some("q"));
}

#[test]
fn drags_start_with_the_pen_before_the_pointer() {
    let pos = |x: f32| ScreenPos { x: single(x), y: single(0.0) };
    let native =
        [NativeInputPoint { point: input(1.0, 2.0), phase: StylusPhase::Down, window_pos: pos(9.0) }];
    let stats = Some(NativeStats { dropped_events: 3, last_error: Some(5) });
    let mut app = fresh();
    assert_eq!(
        app.start_drag(&native, Some(0), stats, Some(pos(4.0))),
        DragStart::StrokeFrom(input(1.0, 2.0))
    );
    assert_eq!(app.motion.last_cursor, Some(pos(4.0)));
    assert_eq!(app.tracker.audit.last_native_pointer_batch, 1);
    assert_eq!(app.tracker.audit.native_pointer_events, 1);
    assert_eq!(app.tracker.audit.native_pointer_dropped, 3);
    assert_eq!(app.tracker.audit.native_pointer_last_error, Some(5));
    assert_eq!(app.start_drag(&native, None, None, Some(pos(4.0))), DragStart::StrokeAt(pos(4.0)));
    assert_eq!(app.start_drag(&native, None, None, None), DragStart::Nowhere);
    assert_eq!(app.tracker.audit.native_pointer_dropped, 0);
    app.tool_mode = ToolMode::RectSelection;
    assert_eq!(
        app.start_drag(&native, Some(0), None, Some(pos(4.0))),
        DragStart::RectAt(pos(9.0))
    );
    app.tool_mode = ToolMode::LassoSelection;
    assert_eq!(app.start_drag(&[], None, None, Some(pos(4.0))), DragStart::LassoAt(pos(4.0)));
}

#[test]
fn strokes_begin_on_the_current_layer_with_the_current_brush() {
    let mut app = drawing();
    assert_eq!(app.active_stroke, Some(StrokeId(6)));
    assert_eq!(app.tracker.raw_lead_points, vec![point(1.0, 2.0)]);
    assert_eq!(app.tracker.audit.begin_point, Some(point(1.0, 2.0)));
    assert!(app.tracker.audit.begin_pressure_from_device);
    assert_eq!(app.tracker.audit.begin_input_source, Some(StrokeInputSource::Touch));
    assert_eq!(app.tracker.audit.last_input_latency_ms.map(number), Some(250.0));
    app.brush.brush_mode = BrushMode::Erase;
    match app.begin_stroke_command(input(3.0, 4.0)) {
        CanvasCommand::BeginStroke(begin) => {
            assert_eq!(begin.layer, LayerId(1));
            assert_eq!(begin.mode, BrushMode::Erase);
            assert_eq!(number(begin.radius), 15.0);
            assert_eq!(begin.color, app.brush.color());
            assert_eq!(begin.first_point, point(3.0, 4.0));
        }
        other => panic!("unexpected command {other:?}"),
    }
}

#[test]
fn strokes_that_do_not_begin_are_forgotten() {
    let mut app = drawing();
    assert!(!app.finish_begin_stroke(Ok(CommandOutput::Other)));
    assert_eq!(app.active_stroke, None);
    assert_eq!(app.tracker.latest_input_preview, None);
    assert!(app.tracker.raw_lead_points.is_empty());
    assert_eq!(app.last_error.as_deref(), Some("画笔命令未能开始笔画"));
    assert!(app.append_stroke_command(&vec![input(1.0, 1.0)]).is_none());
    assert!(matches!(app.end_drag(), DragEnd::Nothing));
    let mut app = drawing();
    assert!(!app.finish_begin_stroke(Err("e".to_owned())));
    assert_eq!(app.active_stroke, None);
    assert_eq!(app.last_error.as_deref(), Some("e"));
}

#[test]
fn frames_extend_what_is_under_way() {
    let mut app = fresh();
    assert_eq!(app.update_step(true, false, false), None);
    assert_eq!(app.update_step(false, true, false), Some(ToolMode::Brush));
    assert_eq!(app.update_step(false, true, true), None);
    app.active_stroke = Some(StrokeId(1));
    assert_eq!(app.update_step(true, false, true), Some(ToolMode::Brush));
    assert_eq!(app.update_step(false, false, false), None);
}

#[test]
fn batches_are_appended_to_the_stroke_under_way() {
    let mut app = drawing();
    assert!(app.append_stroke_command(&Vec::new()).is_none());
    assert_eq!(app.tracker.audit.append_batches, 0);
    match app.append_stroke_command(&vec![input(5.0, 6.0), input(7.0, 8.0)]) {
        Some(CanvasCommand::AppendStroke(append)) => {
            assert_eq!(append.stroke, StrokeId(6));
            assert_eq!(append.points, vec![point(5.0, 6.0), point(7.0, 8.0)]);
        }
        other => panic!("unexpected command {other:?}"),
    }
    assert_eq!(app.tracker.audit.append_batches, 1);
    assert_eq!(app.tracker.audit.last_append_len, 2);
    assert_eq!(app.tracker.audit.last_append_first, Some(point(5.0, 6.0)));
    assert_eq!(app.tracker.audit.last_append_second, Some(point(7.0, 8.0)));
    assert!(app.finish_append(Ok(DispatchReport { uploaded_points: 2, dispatches: 1 })));
    assert_eq!(app.tracker.audit.last_core_uploaded_points, 2);
    assert!(!app.finish_append(Ok(DispatchReport { uploaded_points: 2, dispatches: 0 })));
    assert!(!app.finish_append(Err("f".to_owned())));
    assert_eq!(app.last_error.as_deref(), Some("f"));
}

#[test]
fn strokes_are_begun_anew_at_the_first_touch() {
    let mut app = drawing();
    assert!(matches!(
        app.reanchor_active_stroke_to_touch(),
        Some(CanvasCommand::EndStroke(StrokeId(6)))
    ));
    assert!(app.reanchor_active_stroke_to_touch().is_none());
    let first = input(9.0, 9.0);
    let output = Ok(CommandOutput::StrokeStarted { id: StrokeId(7) });
    assert_eq!(app.finish_reanchor(first, output), Ok(()));
    assert_eq!(app.active_stroke, Some(StrokeId(7)));
    assert_eq!(app.tracker.audit.begin_point, Some(point(9.0, 9.0)));
    assert_eq!(app.tracker.audit.reanchored_touch_begins, 1);
    assert_eq!(
        app.finish_reanchor(first, Ok(CommandOutput::Other)),
        Err("画笔命令未能重新开始笔画".to_owned())
    );
    assert_eq!(app.finish_reanchor(first, Err("g".to_owned())), Err("g".to_owned()));
    assert_eq!(app.active_stroke, Some(StrokeId(7)));
}

#[test]
fn drags_end_the_stroke_and_its_tap_is_painted_once() {
    let mut app = drawing();
    assert!(matches!(app.end_drag(), DragEnd::Stroke(StrokeId(6))));
    assert_eq!(app.active_stroke, None);
    assert_eq!(app.tracker.latest_input_preview, None);
    assert!(app.tracker.raw_lead_points.is_empty());
    assert!(matches!(app.end_drag(), DragEnd::Nothing));
    match app.tap_command(input(1.0, 2.0)) {
        CanvasCommand::Brush(dab) => {
            assert_eq!(dab.layer, LayerId(1));
            assert_eq!(dab.points, vec![point(1.0, 2.0)]);
            assert_eq!(number(dab.radius), 15.0);
        }
        other => panic!("unexpected command {other:?}"),
    }
    assert!(!paints_tap(CommandOutput::StrokeEnded { committed: true }));
    assert!(paints_tap(CommandOutput::StrokeEnded { committed: false }));
    assert!(paints_tap(CommandOutput::Other));
}

#[test]
fn drags_end_with_a_selection() {
    let corner = |x: f32, y: f32| SelectionPoint { x: single(x), y: single(y) };
    let mut app = fresh();
    app.active_stroke = Some(StrokeId(2));
    app.tool_mode = ToolMode::RectSelection;
    app.selection.begin_rect(corner(1.0, 1.0));
    app.selection.drag_rect(corner(3.0, 4.0));
    let selected = SelectionRect { x: 1, y: 1, width: 2, height: 3 };
    assert!(matches!(
        app.end_drag(),
        DragEnd::Selection(CanvasCommand::SetRectSelection(rect)) if rect == selected
    ));
    assert_eq!(app.selection.selection_drag, None);
    assert_eq!(app.active_stroke, Some(StrokeId(2)));
    assert!(matches!(app.end_drag(), DragEnd::Nothing));
    app.tool_mode = ToolMode::LassoSelection;
    app.selection.lasso_points = vec![corner(0.0, 0.0), corner(5.0, 0.0), corner(5.0, 5.0)];
    assert!(matches!(
        app.end_drag(),
        DragEnd::Selection(CanvasCommand::SetPolygonSelection(polygon)) if polygon.points.len() == 3
    ));
}

#[test]
fn new_canvases_forget_the_old_one() {
    let mut app = drawing();
    app.new_canvas_width = 300;
    app.new_canvas_height = 0;
    app.brush.fallback_pressure = single(0.75);
    app.brush.stamp_texture_created = true;
    app.brush.pressure_from_device = true;
    app.cursor.select(LayerId(8));
    app.viewport.zoom_to(single(4.0));
    let config = app.create_new_canvas(initial_canvas_config());
    assert_eq!((config.width, config.height, config.tile_size), (300, 1, 256));
    app.finish_new_canvas(&config, Err("设备丢失".to_owned()));
    assert_eq!(app.last_error.as_deref(), Some("设备丢失"));
    assert_eq!((app.cursor.layer_id, app.active_stroke), (LayerId(8), drawing().active_stroke));
    assert_eq!(number(app.viewport.zoom), 4.0);
    app.finish_new_canvas(&config, Ok(vec![layer(1), layer(2)]));
    assert_eq!((app.canvas_width, app.canvas_height), (300, 1));
    assert_eq!((app.cursor.layer_id, app.cursor.next_layer_id), (LayerId(1), 2));
    assert_eq!(app.active_stroke, None);
    assert_eq!(number(app.brush.last_pressure), 0.75);
    assert!(!app.brush.pressure_from_device);
    assert!(!app.brush.stamp_texture_created);
    assert_eq!(app.tracker.audit.begin_point, None);
    assert_eq!(app.recording.trace_base_layers.len(), 2);
    assert_eq!(number(app.viewport.zoom), 1.0);
    assert_eq!(app.motion.last_cursor, None);
}

#[test]
fn recordings_are_kept_when_they_stop() {
    let mut app = fresh();
    app.note_error("old".to_owned());
    app.recording.trace_rebuild_result = Some("旧".to_owned());
    app.recording.trace_enabled = false;
    let capture = app.apply_trace_config(true, vec![layer(9)]);
    assert!(!capture.enabled);
    assert_eq!(capture.max_bytes_per_session, 8 * 1024 * 1024);
    assert!(app.recording.has_last_trace);
    assert_eq!(app.recording.trace_base_layers, vec![layer(1)]);
    assert_eq!(app.recording.trace_rebuild_result.as_deref(), Some("旧"));
    assert_eq!(app.last_error, None);
    assert_eq!(app.recording.trace_report(true), Some(TraceSource::Current));
    assert_eq!(app.recording.trace_report(false), Some(TraceSource::Cached));
    app.recording.trace_enabled = true;
    let capture = app.apply_trace_config(false, vec![layer(9)]);
    assert!(capture.enabled);
    assert!(app.recording.has_last_trace);
    assert_eq!(app.recording.trace_base_layers, vec![layer(9)]);
    assert_eq!(app.recording.trace_rebuild_result, None);
}

#[test]
fn rebuilds_say_what_came_of_them() {
    let mut app = fresh();
    let recording = &mut app.recording;
    assert_eq!(recording.trace_report(false), None);
    assert_eq!(recording.begin_rebuild(false, true), None);
    assert_eq!(
        recording.trace_rebuild_result.as_deref(),
        Some("无法访问 WGPU 渲染状态，不能显示重构结果")
    );
    assert_eq!(recording.begin_rebuild(true, false), None);
    assert_eq!(recording.trace_rebuild_result.as_deref(), Some("记录为空，无法重构"));
    recording.trace_enabled = false;
    assert_eq!(recording.begin_rebuild(true, false), None);
    assert_eq!(recording.trace_rebuild_result.as_deref(), Some("记录未启用，无法重构"));
    recording.has_last_trace = true;
    assert_eq!(recording.begin_rebuild(true, false), Some(TraceSource::Cached));
    assert_eq!(recording.begin_rebuild(true, true), Some(TraceSource::Current));
    recording.fail_rebuild(&CanvasError::MissingLayer(LayerId(7)), "");
    assert_eq!(
        recording.trace_rebuild_result.as_deref(),
        Some("重构失败：图层 LayerId(7) 不存在")
    );
    let report = TraceReport {
        event_count: 0,
        command_count: 1,
        stroke_count: 0,
        stroke_append_count: 0,
        point_count: 2,
        layer_event_count: 0,
        selection_event_count: 0,
        dirty_summary_count: 0,
        resource_reference_count: 3,
        degradation_count: 4,
        estimated_bytes: 0,
    };
    recording.complete_rebuild(Ok(()), &report, "0.000000");
    assert_eq!(
        recording.trace_rebuild_result.as_deref(),
        Some("已重构到画布：命令=1，点=2，资源引用=3，降级=4，重构前最大像素误差=0.000000")
    );
    recording.complete_rebuild(Err("缺少呈现纹理视图".to_owned()), &report, "0.000000");
    assert_eq!(
        recording.trace_rebuild_result.as_deref(),
        Some("重构已完成，但显示纹理注册失败：缺少呈现纹理视图")
    );
}

#[test]
fn rebuilt_canvases_are_taken_up() {
    let mut app = fresh();
    let mut canvas = initial_canvas_config();
    canvas.width = 200;
    canvas.height = 100;
    app.rebuild_from_trace(&canvas, vec![layer(7), layer(3)]);
    assert_eq!((app.cursor.layer_id, app.cursor.next_layer_id), (LayerId(3), 8));
    assert_eq!((app.canvas_width, app.canvas_height), (200, 100));
    assert!(!app.recording.trace_enabled);
    assert_eq!(app.recording.trace_base_layers, vec![layer(7), layer(3)]);
}

#[test]
fn batches_are_fed_to_the_stroke_under_way() {
    let mut app = drawing();
    let batch = vec![input(5.0, 6.0)];
    let (feed, action) = app.feed(StrokeFeed::Idle, FeedEvent::Passed { anew: None, batch });
    assert!(matches!(feed, StrokeFeed::Appending));
    assert!(matches!(
        action,
        FeedAction::Append(CanvasCommand::AppendStroke(append)) if append.stroke == StrokeId(6)
    ));
    let report = DispatchReport { uploaded_points: 1, dispatches: 1 };
    let (feed, action) = app.feed(feed, FeedEvent::Appended(Ok(report)));
    assert!(matches!((feed, action), (StrokeFeed::Idle, FeedAction::Painted)));
    let (feed, action) =
        app.feed(StrokeFeed::Appending, FeedEvent::Appended(Err("h".to_owned())));
    assert!(matches!((feed, action), (StrokeFeed::Idle, FeedAction::Rest)));
    assert_eq!(app.last_error.as_deref(), Some("h"));
    let (feed, action) =
        app.feed(StrokeFeed::Idle, FeedEvent::Passed { anew: None, batch: Vec::new() });
    assert!(matches!((feed, action), (StrokeFeed::Idle, FeedAction::Rest)));
}

#[test]
fn restarted_strokes_end_begin_and_append_in_order() {
    let mut app = drawing();
    let (first, batch) = (input(9.0, 9.0), vec![input(5.0, 6.0)]);
    let (feed, action) =
        app.feed(StrokeFeed::Idle, FeedEvent::Passed { anew: Some(first), batch });
    assert!(matches!(action, FeedAction::End(CanvasCommand::EndStroke(StrokeId(6)))));
    assert_eq!(app.active_stroke, None);
    let (feed, action) = app.feed(feed, FeedEvent::Ended(Ok(())));
    assert!(matches!(
        action,
        FeedAction::Begin(CanvasCommand::BeginStroke(begin)) if begin.first_point == point(9.0, 9.0)
    ));
    let started = CommandOutput::StrokeStarted { id: StrokeId(7) };
    let (feed, action) = app.feed(feed, FeedEvent::Begun(Ok(started)));
    assert!(matches!(feed, StrokeFeed::Appending));
    assert!(matches!(
        action,
        FeedAction::Append(CanvasCommand::AppendStroke(append)) if append.stroke == StrokeId(7)
    ));
    assert_eq!(app.active_stroke, Some(StrokeId(7)));
    assert_eq!(app.tracker.audit.reanchored_touch_begins, 1);
}

#[test]
fn failed_restarts_leave_no_stroke() {
    let passed = || FeedEvent::Passed { anew: Some(input(9.0, 9.0)), batch: vec![input(1.0, 1.0)] };
    let mut app = drawing();
    let (feed, _) = app.feed(StrokeFeed::Idle, passed());
    let (feed, action) = app.feed(feed, FeedEvent::Ended(Err("i".to_owned())));
    assert!(matches!((feed, action), (StrokeFeed::Idle, FeedAction::Rest)));
    assert_eq!(app.active_stroke, None);
    assert_eq!(app.last_error.as_deref(), Some("i"));

    let (feed, action) = app.feed(StrokeFeed::Idle, passed());
    assert!(matches!(action, FeedAction::Begin(_)));
    let (feed, action) = app.feed(feed, FeedEvent::Begun(Ok(CommandOutput::Other)));
    assert!(matches!((feed, action), (StrokeFeed::Idle, FeedAction::Rest)));
    assert_eq!(app.last_error.as_deref(), Some("画笔命令未能重新开始笔画"));

    let (feed, _) = app.feed(StrokeFeed::Idle, passed());
    let (feed, action) = app.feed(feed, FeedEvent::Begun(Err("j".to_owned())));
    assert!(matches!((feed, action), (StrokeFeed::Idle, FeedAction::Rest)));
    assert_eq!(app.last_error.as_deref(), Some("j"));
    assert_eq!(app.active_stroke, None);

    let (feed, action) = app.feed(StrokeFeed::Idle, FeedEvent::Ended(Ok(())));
    assert!(matches!((feed, action), (StrokeFeed::Idle, FeedAction::Rest)));
}

#[test]
fn taps_are_painted_when_the_stroke_came_to_nothing() {
    let app = fresh();
    let tap = Some(input(1.0, 2.0));
    let kept = CommandOutput::StrokeEnded { committed: true };
    let dropped = CommandOutput::StrokeEnded { committed: false };
    assert!(app.tap_after_end(kept, tap).is_none());
    assert!(app.tap_after_end(dropped, None).is_none());
    assert!(matches!(
        app.tap_after_end(dropped, tap),
        Some(CanvasCommand::Brush(dab)) if dab.points == vec![point(1.0, 2.0)]
    ));
}

#[test]
fn frames_without_samples_fall_back_to_the_pointer() {
    let pos = Some(ScreenPos { x: single(4.0), y: single(5.0) });
    assert_eq!(fallback_position(&[], pos), pos);
    assert_eq!(fallback_position(&[], None), None);
    assert_eq!(fallback_position(&[input(1.0, 1.0)], pos), None);
}

#[test]
fn previews_change_nothing_that_the_engine_is_told() {
    let plain = drawing;
    let previewing = || {
        let mut app = drawing();
        app.prediction = true;
        app.raw_lead_preview = false;
        app.debug_overlay = true;
        app
    };
    let told = |mut app: CanvasApp| {
        let batch = vec![input(5.0, 6.0), input(7.0, 8.0)];
        let (feed, append) = app.feed(StrokeFeed::Idle, FeedEvent::Passed { anew: None, batch });
        let report = DispatchReport { uploaded_points: 2, dispatches: 1 };
        let (_, rest) = app.feed(feed, FeedEvent::Appended(Ok(report)));
        let begin = app.begin_stroke_command(input(3.0, 4.0));
        let tap = app.tap_command(input(1.0, 2.0));
        let end = app.end_drag();
        let texts = format!("{append:?} {rest:?} {begin:?} {tap:?} {end:?}");
        (texts, app.active_stroke, app.cursor, app.viewport)
    };
    assert_eq!(told(plain()), told(previewing()));
}
