use canva_test::brush::Color;
use canva_test::command::{CanvasCommand, CanvasError, CommandOutput, StrokeId};
use canva_test::config::initial_canvas_config;
use canva_test::ending::{EndingAction, EndingEvent, StrokeEnding};
use canva_test::feed::{FeedAction, FeedEvent, StrokeFeed};
use canva_test::geometry::ScreenPos;
use canva_test::input::{AdapterSample, NativeRoute, StrokeInputPoint, StrokeInputSource};
use canva_test::layers::{BlendMode, LayerGroupMode, LayerId, LayerSnapshot, LayerSpec};
use canva_test::making::{CanvasMaking, MakingAction, MakingEvent};
use canva_test::rebuilding::{
    CanvasRebuild, RebuildAction, RebuildEvent, RebuildFailure, RebuiltCanvas,
};
use canva_test::recording::TraceSource;
use canva_test::scalar::{Double, Single};
use canva_test::shell::{CanvasApp, DispatchReport, DragEnd, DragStart};
use canva_test::trace::TraceReport;

fn single(value: f32) -> Single {
    Single { bits: value.to_bits() }
}

fn number(value: Single) -> f32 {
    f32::from_bits(value.bits)
}

fn abs_diff(a: Single, b: Single) -> Single {
    single((number(a) - number(b)).abs())
}

fn layer(id: u64) -> LayerSnapshot {
    LayerSnapshot {
        spec: LayerSpec {
            id: LayerId(id),
            visible: true,
            opacity: single(1.0),
            alpha_locked: false,
            clip_to_below: false,
            blend_mode: BlendMode::Normal,
            mask_layer: None,
        },
        parent: None,
        group_mode: LayerGroupMode::PassThrough,
        tile_count: 0,
    }
}

fn sample(x: f32, y: f32) -> StrokeInputPoint {
    StrokeInputPoint {
        point: AdapterSample {
            x: single(x),
            y: single(y),
            pressure: single(0.5),
            tilt_x: single(0.0),
            tilt_y: single(0.0),
            twist: single(0.0),
            time_seconds: Double { bits: 1.0f64.to_bits() },
        },
        source: StrokeInputSource::Touch,
        pressure_from_device: true,
    }
}

fn used() -> CanvasApp {
    let mut app = CanvasApp::new(LayerId(3), vec![layer(3)]);
    app.new_canvas_width = 640;
    app.new_canvas_height = 480;
    app.viewport.zoom_to(single(4.0));
    app.active_stroke = Some(StrokeId(6));
    app.note_error("old".to_owned());
    app
}

fn untouched(app: &CanvasApp) -> bool {
    let before = used();
    app.cursor == before.cursor
        && app.viewport == before.viewport
        && app.active_stroke == before.active_stroke
        && (app.canvas_width, app.canvas_height) == (before.canvas_width, before.canvas_height)
        && app.recording.trace_base_layers == before.recording.trace_base_layers
        && app.recording.trace_enabled == before.recording.trace_enabled
        && app.brush == before.brush
}

fn asked(app: &mut CanvasApp) -> (CanvasMaking, MakingAction) {
    let current = initial_canvas_config();
    app.make_canvas(CanvasMaking::Idle, MakingEvent::Asked { can_display: true, current })
}

#[test]
fn canvases_are_made_step_by_step() {
    let mut app = used();
    let (making, action) = asked(&mut app);
    assert!(matches!(
        action,
        MakingAction::Execute(CanvasCommand::NewCanvas(config))
            if (config.width, config.height) == (640, 480)
    ));
    let (making, action) = app.make_canvas(making, MakingEvent::Done(Ok(())));
    assert!(matches!(
        action,
        MakingAction::Execute(CanvasCommand::AddPlainLayer(LayerId(1)))
    ));
    let (making, action) = app.make_canvas(making, MakingEvent::Done(Ok(())));
    assert!(matches!(action, MakingAction::Composite));
    let (making, action) = app.make_canvas(making, MakingEvent::Done(Ok(())));
    assert!(matches!(action, MakingAction::Present));
    assert!(untouched(&app));
    let (making, action) =
        app.make_canvas(making, MakingEvent::Presented(Ok(vec![layer(1)])));
    assert!(matches!(action, MakingAction::Register));
    assert_eq!((app.canvas_width, app.canvas_height), (640, 480));
    assert_eq!((app.cursor.layer_id, app.cursor.next_layer_id), (LayerId(1), 2));
    assert_eq!(app.active_stroke, None);
    assert_eq!(number(app.viewport.zoom), 1.0);
    assert_eq!(app.recording.trace_base_layers, vec![layer(1)]);
    assert_eq!(app.last_error.as_deref(), Some("old"));
    let (making, action) = app.make_canvas(making, MakingEvent::Done(Ok(())));
    assert!(matches!((making, action), (CanvasMaking::Idle, MakingAction::SendBrushSettings)));
    assert_eq!(app.last_error, None);
}

#[test]
fn canvases_that_cannot_be_made_leave_the_old_one() {
    for failing in 0..4 {
        let mut app = used();
        let (mut making, mut action) = asked(&mut app);
        for _ in 0..failing {
            (making, action) = app.make_canvas(making, MakingEvent::Done(Ok(())));
        }
        let error = format!("步骤 {failing}");
        let event = match action {
            MakingAction::Present => MakingEvent::Presented(Err(error.clone())),
            _ => MakingEvent::Done(Err(error.clone())),
        };
        (making, action) = app.make_canvas(making, event);
        assert!(matches!((making, action), (CanvasMaking::Idle, MakingAction::Rest)));
        assert_eq!(app.last_error, Some(error));
        assert!(untouched(&app));
    }
}

#[test]
fn canvases_are_not_made_where_they_cannot_be_displayed() {
    let mut app = used();
    let asked = MakingEvent::Asked { can_display: false, current: initial_canvas_config() };
    let (making, action) = app.make_canvas(CanvasMaking::Idle, asked);
    assert!(matches!((making, action), (CanvasMaking::Idle, MakingAction::Rest)));
    assert_eq!(app.last_error.as_deref(), Some("无法访问 WGPU 渲染状态"));
    assert!(untouched(&app));
}

#[test]
fn textures_that_cannot_be_registered_leave_an_error() {
    let mut app = used();
    let error = "缺少呈现纹理视图".to_owned();
    let (making, action) =
        app.make_canvas(CanvasMaking::Registering, MakingEvent::Done(Err(error)));
    assert!(matches!((making, action), (CanvasMaking::Idle, MakingAction::Rest)));
    assert_eq!(app.last_error.as_deref(), Some("缺少呈现纹理视图"));
}

#[test]
fn events_of_no_step_change_nothing() {
    let mut app = used();
    let (making, action) =
        app.make_canvas(CanvasMaking::Idle, MakingEvent::Done(Err("late".to_owned())));
    assert!(matches!((making, action), (CanvasMaking::Idle, MakingAction::Rest)));
    let (ending, action) = app.end_stroke(StrokeEnding::Idle, EndingEvent::Shown(Ok(())));
    assert!(matches!((ending, action), (StrokeEnding::Idle, EndingAction::Rest)));
    let (rebuild, action) =
        app.rebuild(CanvasRebuild::Idle, RebuildEvent::Done(Ok(())), abs_diff);
    assert!(matches!((rebuild, action), (CanvasRebuild::Idle, RebuildAction::Rest)));
    assert!(untouched(&app));
    assert_eq!(app.last_error.as_deref(), Some("old"));
}

fn stopped(app: &mut CanvasApp, tap: Option<StrokeInputPoint>) -> StrokeEnding {
    let event = EndingEvent::Stopped { stroke: StrokeId(6), tap };
    let (ending, action) = app.end_stroke(StrokeEnding::Idle, event);
    assert!(matches!(
        action,
        EndingAction::Execute(CanvasCommand::EndStroke(StrokeId(6)))
    ));
    ending
}

#[test]
fn strokes_that_came_to_nothing_leave_the_dab_of_their_tap() {
    let mut app = used();
    let ending = stopped(&mut app, Some(sample(3.0, 4.0)));
    let output = CommandOutput::StrokeEnded { committed: false };
    let (ending, action) = app.end_stroke(ending, EndingEvent::Executed(Ok(output)));
    assert!(matches!(
        action,
        EndingAction::Execute(CanvasCommand::Brush(dab))
            if dab.layer == LayerId(3) && dab.points.len() == 1 && number(dab.points[0].x) == 3.0
    ));
    let (ending, action) =
        app.end_stroke(ending, EndingEvent::Executed(Ok(CommandOutput::Other)));
    assert!(matches!(action, EndingAction::Show));
    let (ending, action) = app.end_stroke(ending, EndingEvent::Shown(Ok(())));
    assert!(matches!((ending, action), (StrokeEnding::Idle, EndingAction::Rest)));
    assert_eq!(app.last_error, None);
}

#[test]
fn committed_strokes_are_shown_without_a_dab() {
    let committed = CommandOutput::StrokeEnded { committed: true };
    for (tap, output) in
        [(Some(sample(3.0, 4.0)), committed), (None, committed), (None, CommandOutput::Other)]
    {
        let mut app = used();
        let ending = stopped(&mut app, tap);
        let (ending, action) = app.end_stroke(ending, EndingEvent::Executed(Ok(output)));
        assert!(matches!((ending, action), (StrokeEnding::Showing, EndingAction::Show)));
        assert_eq!(app.last_error.as_deref(), Some("old"));
    }
}

#[test]
fn failed_ends_are_neither_dabbed_nor_shown() {
    let mut app = used();
    let ending = stopped(&mut app, Some(sample(3.0, 4.0)));
    let (ending, action) = app.end_stroke(ending, EndingEvent::Executed(Err("end".to_owned())));
    assert!(matches!((ending, action), (StrokeEnding::Idle, EndingAction::Rest)));
    assert_eq!(app.last_error.as_deref(), Some("end"));

    let mut app = used();
    let ending = stopped(&mut app, Some(sample(3.0, 4.0)));
    let (ending, _) = app.end_stroke(ending, EndingEvent::Executed(Ok(CommandOutput::Other)));
    let (ending, action) = app.end_stroke(ending, EndingEvent::Executed(Err("dab".to_owned())));
    assert!(matches!((ending, action), (StrokeEnding::Idle, EndingAction::Rest)));
    assert_eq!(app.last_error.as_deref(), Some("dab"));

    let mut app = used();
    let (ending, action) =
        app.end_stroke(StrokeEnding::Showing, EndingEvent::Shown(Err("show".to_owned())));
    assert!(matches!((ending, action), (StrokeEnding::Idle, EndingAction::Rest)));
    assert_eq!(app.last_error.as_deref(), Some("show"));
    assert!(untouched(&app));
}

fn image(red: f32, count: usize) -> Vec<Color> {
    let pixel = Color {
        red: single(red),
        green: single(0.0),
        blue: single(0.0),
        alpha: single(1.0),
    };
    vec![pixel; count]
}

fn report() -> TraceReport {
    TraceReport {
        event_count: 0,
        command_count: 1,
        stroke_count: 0,
        stroke_append_count: 0,
        point_count: 2,
        layer_event_count: 0,
        selection_event_count: 0,
        dirty_summary_count: 0,
        resource_reference_count: 3,
        degradation_count: 4,
        estimated_bytes: 0,
    }
}

fn replaying(app: &mut CanvasApp) -> CanvasRebuild {
    let asked = RebuildEvent::Asked { can_display: true, has_current_trace: true };
    let (rebuild, action) = app.rebuild(CanvasRebuild::Idle, asked, abs_diff);
    assert!(matches!(action, RebuildAction::Composite));
    let (rebuild, action) = app.rebuild(rebuild, RebuildEvent::Done(Ok(())), abs_diff);
    assert!(matches!(action, RebuildAction::Read));
    let (rebuild, action) =
        app.rebuild(rebuild, RebuildEvent::Read(Ok(image(0.5, 2))), abs_diff);
    assert!(matches!(action, RebuildAction::Replay(TraceSource::Current)));
    rebuild
}

fn rereading(app: &mut CanvasApp) -> CanvasRebuild {
    let rebuild = replaying(app);
    let (rebuild, action) = app.rebuild(rebuild, RebuildEvent::Done(Ok(())), abs_diff);
    assert!(matches!(action, RebuildAction::Composite));
    let (rebuild, action) = app.rebuild(rebuild, RebuildEvent::Done(Ok(())), abs_diff);
    assert!(matches!(action, RebuildAction::Present));
    let (rebuild, action) = app.rebuild(rebuild, RebuildEvent::Done(Ok(())), abs_diff);
    assert!(matches!(action, RebuildAction::Reread));
    rebuild
}

fn reread(pixels: usize) -> RebuildEvent {
    let mut canvas = initial_canvas_config();
    canvas.width = 200;
    canvas.height = 100;
    let layers = vec![layer(7), layer(2)];
    RebuildEvent::Reread {
        result: Ok(RebuiltCanvas { image: image(0.75, pixels), canvas, layers }),
        size_diagnostic: "画布尺寸必须非零".to_owned(),
    }
}

#[test]
fn rebuilds_go_step_by_step() {
    let mut app = used();
    let rebuild = rereading(&mut app);
    assert!(untouched(&app));
    let (rebuild, action) = app.rebuild(rebuild, reread(2), abs_diff);
    assert!(matches!(
        action,
        RebuildAction::Register(difference) if number(difference) == 0.25
    ));
    assert_eq!((app.canvas_width, app.canvas_height), (200, 100));
    assert_eq!((app.cursor.layer_id, app.cursor.next_layer_id), (LayerId(2), 8));
    assert!(!app.recording.trace_enabled);
    assert_eq!(app.recording.trace_base_layers, vec![layer(7), layer(2)]);
    assert_eq!(app.recording.trace_rebuild_result, None);
    let event = RebuildEvent::Registered {
        shown: Ok(()),
        report: report(),
        max_diff: "0.250000".to_owned(),
    };
    let (rebuild, action) = app.rebuild(rebuild, event, abs_diff);
    assert!(matches!((rebuild, action), (CanvasRebuild::Idle, RebuildAction::Rest)));
    assert_eq!(
        app.recording.trace_rebuild_result.as_deref(),
        Some("已重构到画布：命令=1，点=2，资源引用=3，降级=4，重构前最大像素误差=0.250000")
    );
    assert_eq!(app.last_error.as_deref(), Some("old"));
}

#[test]
fn rebuilds_of_another_size_are_called_off() {
    let mut app = used();
    let rebuild = rereading(&mut app);
    let (rebuild, action) = app.rebuild(rebuild, reread(3), abs_diff);
    assert!(matches!((rebuild, action), (CanvasRebuild::Idle, RebuildAction::Rest)));
    let said = app.recording.trace_rebuild_result.take();
    assert!(said.unwrap().contains("画布尺寸必须非零"));
    assert!(untouched(&app));
}

#[test]
fn failed_rebuilds_only_change_what_is_said_of_them() {
    for failing in 0..3 {
        let mut app = used();
        let mut rebuild = replaying(&mut app);
        for _ in 0..failing {
            (rebuild, _) = app.rebuild(rebuild, RebuildEvent::Done(Ok(())), abs_diff);
        }
        let failure = RebuildFailure {
            error: CanvasError::MissingLayer(LayerId(7)),
            diagnostic: String::new(),
        };
        let (rebuild, action) =
            app.rebuild(rebuild, RebuildEvent::Done(Err(failure)), abs_diff);
        assert!(matches!((rebuild, action), (CanvasRebuild::Idle, RebuildAction::Rest)));
        assert_eq!(
            app.recording.trace_rebuild_result.as_deref(),
            Some("重构失败：图层 LayerId(7) 不存在")
        );
        assert!(untouched(&app));
        assert_eq!(app.last_error.as_deref(), Some("old"));
    }

    let mut app = used();
    let failure = || RebuildFailure {
        error: CanvasError::MissingStroke(StrokeId(9)),
        diagnostic: String::new(),
    };
    let reading = CanvasRebuild::Reading { source: TraceSource::Cached };
    let (rebuild, action) =
        app.rebuild(reading, RebuildEvent::Read(Err(failure())), abs_diff);
    assert!(matches!((rebuild, action), (CanvasRebuild::Idle, RebuildAction::Rest)));
    let rebuild = rereading(&mut app);
    let event =
        RebuildEvent::Reread { result: Err(failure()), size_diagnostic: String::new() };
    let (rebuild, action) = app.rebuild(rebuild, event, abs_diff);
    assert!(matches!((rebuild, action), (CanvasRebuild::Idle, RebuildAction::Rest)));
    assert_eq!(
        app.recording.trace_rebuild_result.as_deref(),
        Some("重构失败：笔触 StrokeId(9) 不存在")
    );
    assert!(untouched(&app));
}

#[test]
fn rebuilds_need_a_record_and_a_display() {
    let mut app = used();
    let asked = RebuildEvent::Asked { can_display: false, has_current_trace: true };
    let (rebuild, action) = app.rebuild(CanvasRebuild::Idle, asked, abs_diff);
    assert!(matches!((rebuild, action), (CanvasRebuild::Idle, RebuildAction::Rest)));
    assert_eq!(
        app.recording.trace_rebuild_result.as_deref(),
        Some("无法访问 WGPU 渲染状态，不能显示重构结果")
    );
    let asked = RebuildEvent::Asked { can_display: true, has_current_trace: false };
    let (rebuild, action) = app.rebuild(CanvasRebuild::Idle, asked, abs_diff);
    assert!(matches!((rebuild, action), (CanvasRebuild::Idle, RebuildAction::Rest)));
    assert_eq!(app.recording.trace_rebuild_result.as_deref(), Some("记录为空，无法重构"));
}

#[test]
fn drags_start_and_stop_with_the_pointer_or_the_pen() {
    for (begin_index, stopped, pointer) in
        [(None, false, false), (Some(0), false, false), (None, true, false), (None, false, true)]
    {
        let route = NativeRoute { begin_index, stopped, updates: Vec::new() };
        assert_eq!(route.drag_starts(pointer), pointer || begin_index == Some(0));
        assert_eq!(route.drag_stops(pointer), pointer || stopped);
    }
}

/// Goes through a frame with a stroke on it, and tells what the engine was asked for.
fn told(mut app: CanvasApp) -> Vec<String> {
    let mut told = Vec::new();
    let pointer = Some(ScreenPos { x: single(3.0), y: single(4.0) });
    app.active_stroke = None;
    let start = app.start_drag(&[], None, None, pointer);
    assert!(matches!(start, DragStart::StrokeAt(_)));
    app.begin_stroke(sample(3.0, 4.0), Double { bits: 0 }, single(0.0), 5, |_, _| single(9.0));
    told.push(format!("{:?}", app.begin_stroke_command(sample(3.0, 4.0))));
    assert!(app.finish_begin_stroke(Ok(CommandOutput::StrokeStarted { id: StrokeId(8) })));
    let batch = vec![sample(5.0, 6.0), sample(7.0, 8.0)];
    let (feed, action) = app.feed(StrokeFeed::Idle, FeedEvent::Passed { anew: None, batch });
    told.push(format!("{action:?}"));
    let dispatch = DispatchReport { uploaded_points: 2, dispatches: 1 };
    let (_, action) = app.feed(feed, FeedEvent::Appended(Ok(dispatch)));
    assert!(matches!(action, FeedAction::Painted));
    let end = app.end_drag();
    assert!(matches!(end, DragEnd::Stroke(StrokeId(8))));
    let ending = EndingEvent::Stopped { stroke: StrokeId(8), tap: Some(sample(3.0, 4.0)) };
    let (ending, action) = app.end_stroke(StrokeEnding::Idle, ending);
    told.push(format!("{action:?}"));
    let (_, action) = app.end_stroke(ending, EndingEvent::Executed(Ok(CommandOutput::Other)));
    told.push(format!("{action:?}"));
    told.push(format!("{:?} {:?} {:?}", app.cursor, app.viewport, app.active_stroke));
    told
}

#[test]
fn previews_do_not_reach_the_engine() {
    let plain = told(used());
    assert_eq!(plain.len(), 5);
    for previews in 0..8 {
        let mut app = used();
        app.prediction = previews & 1 != 0;
        app.raw_lead_preview = previews & 2 != 0;
        app.debug_overlay = previews & 4 != 0;
        assert_eq!(told(app), plain);
    }
}
