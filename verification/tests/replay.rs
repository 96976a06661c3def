use canva_test::brush::{BrushMode, Color};
use canva_test::command::{
    AppendStrokeCommand, BeginStrokeCommand, BrushCommand, CanvasCommand, CanvasError,
    CommandOutput, StrokeId,
};
use canva_test::config::initial_canvas_config;
use canva_test::geometry::StrokePoint;
use canva_test::layers::{BlendMode, LayerGroupMode, LayerId, LayerSnapshot, LayerSpec};
use canva_test::replay::{
    max_pixel_abs_diff, rebuild_difference, remap_replay_stroke_command, replay_opening,
    ReplayAction, ReplayStep, TraceReplay,
};
use canva_test::scalar::Single;
use canva_test::trace::{
    replay_capture, replay_preamble, trace_base_layer_commands, trace_rebuild_error_message,
    trace_replay_command_payload, trace_stroke_begin_after, SessionTrace, StrokeIdMap,
    TraceCommandEvent, TraceEvent, TraceReplayCommand, TraceReport,
};

fn single(value: f32) -> Single {
    Single { bits: value.to_bits() }
}

fn number(value: Single) -> f32 {
    f32::from_bits(value.bits)
}

fn rgba(red: f32, green: f32, blue: f32, alpha: f32) -> Color {
    Color { red: single(red), green: single(green), blue: single(blue), alpha: single(alpha) }
}

fn point(x: f32, y: f32) -> StrokePoint {
    StrokePoint { x: single(x), y: single(y), pressure: single(1.0) }
}

fn spec(id: u64) -> LayerSpec {
    LayerSpec {
        id: LayerId(id),
        visible: true,
        opacity: single(1.0),
        alpha_locked: false,
        clip_to_below: false,
        blend_mode: BlendMode::Normal,
        mask_layer: None,
    }
}

fn layer(id: u64) -> LayerSnapshot {
    LayerSnapshot {
        spec: spec(id),
        parent: None,
        group_mode: LayerGroupMode::PassThrough,
        tile_count: 0,
    }
}

fn empty_trace() -> SessionTrace {
    SessionTrace {
        canvas: initial_canvas_config(),
        events: Vec::new(),
        report: TraceReport {
            event_count: 0,
            command_count: 0,
            stroke_count: 0,
            stroke_append_count: 0,
            point_count: 0,
            layer_event_count: 0,
            selection_event_count: 0,
            dirty_summary_count: 0,
            resource_reference_count: 0,
            degradation_count: 0,
            estimated_bytes: 0,
        },
    }
}

fn recorded(command: CanvasCommand) -> TraceEvent {
    TraceEvent::Command(TraceCommandEvent {
        replay: Some(TraceReplayCommand::Command(command)),
        diagnostic: String::new(),
    })
}

fn begin_stroke() -> CanvasCommand {
    CanvasCommand::BeginStroke(BeginStrokeCommand {
        layer: LayerId(1),
        mode: BrushMode::Paint,
        radius: single(2.0),
        color: rgba(0.0, 0.0, 0.0, 1.0),
        first_point: point(1.0, 1.0),
    })
}

fn append_stroke(stroke: u64) -> CanvasCommand {
    CanvasCommand::AppendStroke(AppendStrokeCommand {
        stroke: StrokeId(stroke),
        points: vec![point(2.0, 2.0)],
    })
}

#[test]
fn max_pixel_abs_diff_reports_mismatch_and_rejects_different_lengths() {
    let abs_diff = |a: Single, b: Single| single((number(a) - number(b)).abs());
    let left = vec![rgba(0.0, 0.5, 1.0, 1.0), rgba(0.25, 0.0, 0.0, 1.0)];
    let right = vec![rgba(0.0, 0.25, 1.0, 1.0), rgba(0.75, 0.0, 0.0, 1.0)];
    let diff = number(max_pixel_abs_diff(&left, &right, abs_diff).expect("same length"));
    assert!((diff - 0.5).abs() <= f32::EPSILON);
    assert!(max_pixel_abs_diff(&left, &right[..1], abs_diff).is_none());
    assert_eq!(max_pixel_abs_diff(&[], &[], abs_diff).map(number), Some(0.0));
}

#[test]
fn trace_base_layer_commands_restore_existing_scene_layers() {
    let mut child = LayerSnapshot {
        spec: spec(2),
        parent: Some(LayerId(1)),
        group_mode: LayerGroupMode::Isolated,
        tile_count: 3,
    };
    child.spec.opacity = single(0.5);
    let commands = trace_base_layer_commands(&[layer(1), child]);
    assert!(matches!(
        &commands[0],
        CanvasCommand::AddLayer(spec) if spec.id == LayerId(1)
    ));
    assert!(matches!(
        &commands[1],
        CanvasCommand::AddLayer(spec)
            if spec.id == LayerId(2) && (number(spec.opacity) - 0.5).abs() <= f32::EPSILON
    ));
    assert!(matches!(
        &commands[2],
        CanvasCommand::SetLayerParent { id: LayerId(2), parent: Some(LayerId(1)) }
    ));
    assert!(matches!(
        &commands[3],
        CanvasCommand::SetLayerGroupMode { id: LayerId(2), mode: LayerGroupMode::Isolated }
    ));
    assert_eq!(commands.len(), 4);
}

#[test]
fn replays_start_on_a_new_canvas_without_recording() {
    let trace = empty_trace();
    assert!(trace.canvas.data_capture.enabled);
    let commands = replay_preamble(&trace, &[layer(1), layer(4)]);
    assert_eq!(commands.len(), 3);
    assert!(matches!(
        &commands[0],
        CanvasCommand::NewCanvas(config)
            if !config.data_capture.enabled && config.width == trace.canvas.width
    ));
    assert!(matches!(&commands[2], CanvasCommand::AddLayer(spec) if spec.id == LayerId(4)));
}

#[test]
fn trace_replay_command_payload_reports_resource_resolver_state() {
    let brush = CanvasCommand::Brush(BrushCommand {
        layer: LayerId(1),
        mode: BrushMode::Paint,
        radius: single(2.0),
        color: rgba(0.0, 0.0, 0.0, 1.0),
        points: vec![point(1.0, 2.0)],
    });
    let command = TraceCommandEvent {
        replay: Some(TraceReplayCommand::Command(brush)),
        diagnostic: "trace command：position=0，类型=笔刷".to_owned(),
    };
    assert!(matches!(trace_replay_command_payload(&command), Ok(CanvasCommand::Brush(_))));

    let missing_resource = TraceCommandEvent {
        replay: Some(TraceReplayCommand::MissingResource),
        diagnostic: "trace command：position=1，类型=粘贴像素，replay payload=资源占位；\
                     trace 资源引用 paste:fixture，尺寸=2x2，checksum=42"
            .to_owned(),
    };
    let error = trace_replay_command_payload(&missing_resource)
        .expect_err("resource placeholder should require a resolver");
    assert!(matches!(error, CanvasError::MissingTraceResource(_)));
    let message = trace_rebuild_error_message(&error, "");
    for expected in [
        "重构失败：测试程序重构暂不解析外部资源引用",
        "trace command：position=1",
        "类型=粘贴像素",
        "replay payload=资源占位",
        "trace 资源引用",
        "paste:fixture",
        "尺寸=2x2",
        "checksum=42",
    ] {
        assert!(
            message.contains(expected),
            "资源占位重构错误 `{message}` 应包含 `{expected}`"
        );
    }

    let missing_payload = TraceCommandEvent {
        replay: None,
        diagnostic: "trace command：position=2，类型=笔刷，无 replay payload".to_owned(),
    };
    let error = trace_replay_command_payload(&missing_payload)
        .expect_err("missing replay payload should be surfaced");
    let message = trace_rebuild_error_message(&error, "");
    for expected in [
        "重构失败：测试程序重构缺少可执行 command replay payload",
        "trace command：position=2",
        "类型=笔刷",
        "无 replay payload",
    ] {
        assert!(
            message.contains(expected),
            "缺失 replay payload 错误 `{message}` 应包含 `{expected}`"
        );
    }
}

#[test]
fn replay_stroke_commands_remap_streaming_stroke_ids() {
    let mut strokes = StrokeIdMap::new();
    strokes.insert(StrokeId(29), StrokeId(1));

    let append = remap_replay_stroke_command(
        &CanvasCommand::AppendStroke(AppendStrokeCommand {
            stroke: StrokeId(29),
            points: vec![point(1.0, 2.0)],
        }),
        &strokes,
    );
    assert!(matches!(
        append,
        CanvasCommand::AppendStroke(AppendStrokeCommand { stroke: StrokeId(1), .. })
    ));

    let end = remap_replay_stroke_command(&CanvasCommand::EndStroke(StrokeId(29)), &strokes);
    assert!(matches!(end, CanvasCommand::EndStroke(StrokeId(1))));

    let unknown = remap_replay_stroke_command(&CanvasCommand::EndStroke(StrokeId(30)), &strokes);
    assert!(matches!(unknown, CanvasCommand::EndStroke(StrokeId(30))));
    let undo = remap_replay_stroke_command(&CanvasCommand::Undo, &strokes);
    assert!(matches!(undo, CanvasCommand::Undo));
    assert!(strokes.holds(StrokeId(1)));
    assert!(!strokes.holds(StrokeId(29)));
    assert_eq!(strokes.resolve(StrokeId(29)), StrokeId(1));
    assert_eq!(strokes.resolve(StrokeId(5)), StrokeId(5));
}

#[test]
fn trace_stroke_begin_after_finds_original_streaming_id() {
    let mut trace = empty_trace();
    trace.events.push(TraceEvent::Command(TraceCommandEvent {
        replay: None,
        diagnostic: String::new(),
    }));
    trace.events.push(TraceEvent::StrokeBegin(StrokeId(29)));
    assert_eq!(trace_stroke_begin_after(&trace, 0), Some(StrokeId(29)));
    assert_eq!(trace_stroke_begin_after(&trace, 1), None);
    assert_eq!(trace_stroke_begin_after(&trace, usize::MAX), None);
}

#[test]
fn stroke_beginnings_are_looked_for_before_the_next_command() {
    let mut trace = empty_trace();
    trace.events.push(recorded(begin_stroke()));
    trace.events.push(TraceEvent::Other);
    trace.events.push(recorded(CanvasCommand::Undo));
    trace.events.push(TraceEvent::Other);
    trace.events.push(TraceEvent::StrokeBegin(StrokeId(4)));
    assert_eq!(trace_stroke_begin_after(&trace, 0), None);
    assert_eq!(trace_stroke_begin_after(&trace, 2), Some(StrokeId(4)));
}

/// A replay that is through with its opening.
fn opened(trace: &SessionTrace) -> TraceReplay {
    let mut replay = TraceReplay::new(trace, &[]);
    assert!(matches!(
        replay.next(trace, &[]),
        ReplayAction::SetCapture(capture) if !capture.enabled
    ));
    assert!(matches!(
        replay.next(trace, &[]),
        ReplayAction::Open(CanvasCommand::NewCanvas(_))
    ));
    assert!(replay.answered(trace, Ok(CommandOutput::Other)).is_ok());
    replay
}

#[test]
fn replays_send_strokes_to_their_stand_ins() {
    let mut trace = empty_trace();
    trace.events.push(recorded(CanvasCommand::AddLayer(spec(1))));
    trace.events.push(recorded(append_stroke(7)));
    trace.events.push(recorded(begin_stroke()));
    trace.events.push(TraceEvent::StrokeBegin(StrokeId(29)));
    trace.events.push(recorded(append_stroke(29)));
    trace.events.push(recorded(CanvasCommand::EndStroke(StrokeId(29))));
    trace.events.push(recorded(CanvasCommand::EndStroke(StrokeId(7))));
    trace.events.push(TraceEvent::Other);
    let layers = [layer(1)];

    let mut replay = opened(&trace);
    assert!(matches!(
        replay.next(&trace, &layers),
        ReplayAction::Execute(CanvasCommand::BeginStroke(_))
    ));
    assert_eq!(replay.position, 3);
    assert!(replay.answered(&trace, Ok(CommandOutput::StrokeStarted { id: StrokeId(1) })).is_ok());
    match replay.next(&trace, &layers) {
        ReplayAction::Execute(CanvasCommand::AppendStroke(append)) => {
            assert_eq!(append.stroke, StrokeId(1));
            assert_eq!(append.points, vec![point(2.0, 2.0)]);
        }
        other => panic!("unexpected action {other:?}"),
    }
    assert!(replay.answered(&trace, Ok(CommandOutput::Other)).is_ok());
    assert!(matches!(
        replay.next(&trace, &layers),
        ReplayAction::Execute(CanvasCommand::EndStroke(StrokeId(1)))
    ));
    assert!(replay.answered(&trace, Ok(CommandOutput::StrokeEnded { committed: true })).is_ok());
    assert!(matches!(replay.next(&trace, &layers), ReplayAction::Finished));
    assert_eq!(replay.position, trace.events.len());
    assert!(matches!(replay.next(&trace, &layers), ReplayAction::Finished));
}

#[test]
fn replays_add_missing_layers_and_pass_over_present_ones() {
    let mut trace = empty_trace();
    trace.events.push(recorded(CanvasCommand::AddLayer(spec(1))));
    trace.events.push(recorded(CanvasCommand::AddPlainLayer(LayerId(2))));
    let mut replay = opened(&trace);
    assert!(matches!(
        replay.next(&trace, &[layer(1)]),
        ReplayAction::Execute(CanvasCommand::AddPlainLayer(LayerId(2)))
    ));
    let mut replay = opened(&trace);
    assert!(matches!(replay.next(&trace, &[layer(1), layer(2)]), ReplayAction::Finished));
    let mut replay = opened(&trace);
    assert!(matches!(
        replay.next(&trace, &[]),
        ReplayAction::Execute(CanvasCommand::AddLayer(_))
    ));
}

#[test]
fn replays_stop_at_commands_without_a_payload() {
    let mut trace = empty_trace();
    trace.events.push(TraceEvent::Other);
    trace.events.push(TraceEvent::Command(TraceCommandEvent {
        replay: None,
        diagnostic: "position=1".to_owned(),
    }));
    let mut replay = opened(&trace);
    match replay.next(&trace, &[]) {
        ReplayAction::Failed(CanvasError::MissingTraceResource(id)) => {
            assert_eq!(id, "测试程序重构缺少可执行 command replay payload；position=1");
        }
        other => panic!("unexpected action {other:?}"),
    }
    assert!(replay.failed);
    assert!(matches!(replay.next(&trace, &[]), ReplayAction::Stopped));
    assert_eq!(replay.position, 2);
}

#[test]
fn replays_do_not_map_strokes_that_the_engine_did_not_begin() {
    let mut trace = empty_trace();
    trace.events.push(recorded(begin_stroke()));
    trace.events.push(TraceEvent::StrokeBegin(StrokeId(29)));
    trace.events.push(recorded(append_stroke(29)));
    let mut replay = opened(&trace);
    replay.next(&trace, &[]);
    assert!(replay.answered(&trace, Ok(CommandOutput::Other)).is_ok());
    assert!(matches!(replay.next(&trace, &[]), ReplayAction::Finished));
}

#[test]
fn commands_are_duplicated_as_they_are() {
    let command = append_stroke(3);
    match command.duplicate() {
        CanvasCommand::AppendStroke(append) => {
            assert_eq!(append.stroke, StrokeId(3));
            assert_eq!(append.points, vec![point(2.0, 2.0)]);
        }
        other => panic!("unexpected command {other:?}"),
    }
    assert!(matches!(CanvasCommand::Recorded(8).duplicate(), CanvasCommand::Recorded(8)));
}

#[test]
fn replays_switch_recording_off_before_anything_else() {
    let trace = empty_trace();
    let recorded = trace.canvas.data_capture;
    let capture = replay_capture(&trace);
    assert!(recorded.enabled && !capture.enabled);
    assert_eq!(capture.level, recorded.level);
    assert_eq!(capture.max_bytes_per_session, recorded.max_bytes_per_session);
    let steps = replay_opening(&trace, &[layer(1), layer(4)]);
    assert_eq!(steps.len(), 4);
    assert!(matches!(&steps[0], ReplayStep::SetCapture(set) if *set == capture));
    assert!(matches!(
        &steps[1],
        ReplayStep::Execute(CanvasCommand::NewCanvas(config)) if config.data_capture == capture
    ));
    assert!(matches!(
        &steps[2],
        ReplayStep::Execute(CanvasCommand::AddLayer(spec)) if spec.id == LayerId(1)
    ));
    assert!(matches!(
        &steps[3],
        ReplayStep::Execute(CanvasCommand::AddLayer(spec)) if spec.id == LayerId(4)
    ));
}

#[test]
fn image_differences_are_symmetric_and_zero_for_equal_images() {
    let abs_diff = |a: Single, b: Single| single((number(a) - number(b)).abs());
    let left = [rgba(0.0, 0.5, 1.0, 1.0), rgba(0.25, -0.0, 0.0, 1.0)];
    let right = [rgba(-0.0, 0.5, 1.0, 1.0), rgba(0.25, 0.0, 0.0, 0.875)];
    let there = max_pixel_abs_diff(&left, &right, abs_diff);
    assert_eq!(there.map(number), Some(0.125));
    assert_eq!(max_pixel_abs_diff(&right, &left, abs_diff), there);
    assert_eq!(max_pixel_abs_diff(&left, &left, abs_diff).map(number), Some(0.0));
    assert_eq!(max_pixel_abs_diff(&left[..1], &right[..1], abs_diff).map(number), Some(0.0));
}

#[test]
fn replays_open_with_the_recorded_layers() {
    let trace = empty_trace();
    let mut replay = TraceReplay::new(&trace, &[layer(1), layer(4)]);
    assert!(matches!(replay.next(&trace, &[]), ReplayAction::SetCapture(_)));
    assert!(matches!(
        replay.next(&trace, &[]),
        ReplayAction::Open(CanvasCommand::NewCanvas(config)) if !config.data_capture.enabled
    ));
    for id in [1, 4] {
        assert!(matches!(
            replay.next(&trace, &[]),
            ReplayAction::Open(CanvasCommand::AddLayer(spec)) if spec.id == LayerId(id)
        ));
        assert!(replay.answered(&trace, Ok(CommandOutput::Other)).is_ok());
    }
    assert!(matches!(replay.next(&trace, &[]), ReplayAction::Finished));
    assert!(!replay.failed);
}

#[test]
fn replays_stop_at_the_first_error_of_the_engine() {
    let mut trace = empty_trace();
    trace.events.push(recorded(begin_stroke()));
    trace.events.push(TraceEvent::StrokeBegin(StrokeId(29)));
    trace.events.push(recorded(CanvasCommand::Undo));
    let mut replay = opened(&trace);
    replay.next(&trace, &[]);
    let error = CanvasError::MissingLayer(LayerId(1));
    assert!(matches!(
        replay.answered(&trace, Err(error)),
        Err(CanvasError::MissingLayer(LayerId(1)))
    ));
    assert!(replay.failed);
    for _ in 0..3 {
        assert!(matches!(replay.next(&trace, &[]), ReplayAction::Stopped));
        assert_eq!(replay.position, 1);
    }

    let mut replay = TraceReplay::new(&trace, &[layer(1)]);
    replay.next(&trace, &[]);
    replay.next(&trace, &[]);
    assert!(replay.answered(&trace, Err(CanvasError::InvalidCanvasSize)).is_err());
    assert!(matches!(replay.next(&trace, &[]), ReplayAction::Stopped));
    assert_eq!((replay.opened, replay.position), (2, 0));
}

#[test]
fn strokes_keep_their_stand_in_until_their_number_is_begun_again() {
    let mut trace = empty_trace();
    for _ in 0..2 {
        trace.events.push(recorded(begin_stroke()));
        trace.events.push(TraceEvent::StrokeBegin(StrokeId(29)));
        trace.events.push(recorded(CanvasCommand::Undo));
        trace.events.push(recorded(append_stroke(29)));
        trace.events.push(recorded(CanvasCommand::EndStroke(StrokeId(29))));
    }
    let mut replay = opened(&trace);
    for id in [5, 6] {
        replay.next(&trace, &[]);
        let started = CommandOutput::StrokeStarted { id: StrokeId(id) };
        assert!(replay.answered(&trace, Ok(started)).is_ok());
        assert!(matches!(
            replay.next(&trace, &[]),
            ReplayAction::Execute(CanvasCommand::Undo)
        ));
        assert!(replay.answered(&trace, Ok(CommandOutput::Other)).is_ok());
        assert!(matches!(
            replay.next(&trace, &[]),
            ReplayAction::Execute(CanvasCommand::AppendStroke(append))
                if append.stroke == StrokeId(id) && append.points == vec![point(2.0, 2.0)]
        ));
        assert!(replay.answered(&trace, Ok(CommandOutput::Other)).is_ok());
        assert!(matches!(
            replay.next(&trace, &[]),
            ReplayAction::Execute(CanvasCommand::EndStroke(StrokeId(ended))) if ended == id
        ));
        let ended = CommandOutput::StrokeEnded { committed: true };
        assert!(replay.answered(&trace, Ok(ended)).is_ok());
    }
    assert!(matches!(replay.next(&trace, &[]), ReplayAction::Finished));
}

#[test]
fn images_of_different_sizes_are_not_compared() {
    let abs_diff = |a: Single, b: Single| single((number(a) - number(b)).abs());
    let image = [rgba(0.0, 0.5, 1.0, 1.0), rgba(0.25, 0.0, 0.0, 1.0)];
    assert!(matches!(
        rebuild_difference(&image, &image[..1], abs_diff),
        Err(CanvasError::InvalidCanvasSize)
    ));
    let other = [rgba(0.0, 0.5, 1.0, 1.0), rgba(0.25, 0.0, 0.5, 1.0)];
    assert!(matches!(
        rebuild_difference(&image, &other, abs_diff),
        Ok(difference) if number(difference) == 0.5
    ));
}
