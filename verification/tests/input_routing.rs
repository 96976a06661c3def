use canva_test::brush::{
    BrushMode, BrushPreset, BrushSettings, PressureCurve, StampTextureStep, FAINT, ONE,
};
use canva_test::geometry::{ScreenPos, ScreenRect, StrokePoint};
use canva_test::input::{
    begin_input_point, choose_frame_input, current_input_point, input_stroke_points,
    native_input_batch_max_gap, native_phase_appends_to_active_stroke,
    native_phase_can_begin_stroke, native_phase_stops_active_stroke, native_phase_touches_surface,
    route_native_input, stroke_point_from_input, stroke_points_from_input, stylus_phase_of_touch,
    touch_begin_event, touch_phase_appends_to_active_stroke, touch_phase_can_begin_stroke,
    AdapterSample, FrameInput, NativeInputPoint, StrokeInputPoint, StrokeInputSource, StylusPhase, TouchEvent,
    TouchPhase,
};
use canva_test::scalar::{Double, Single};

fn single(value: f32) -> Single {
    Single { bits: value.to_bits() }
}

fn double(value: f64) -> Double {
    Double { bits: value.to_bits() }
}

fn number(value: Single) -> f32 {
    f32::from_bits(value.bits)
}

fn pos(x: f32, y: f32) -> ScreenPos {
    ScreenPos { x: single(x), y: single(y) }
}

fn touch(x: f32, y: f32, phase: TouchPhase, force: Option<f32>) -> TouchEvent {
    TouchEvent { pos: pos(x, y), phase, force: force.map(single) }
}

fn input_test_point(
    x: f32,
    y: f32,
    pressure: f32,
    source: StrokeInputSource,
    pressure_from_device: bool,
) -> StrokeInputPoint {
    StrokeInputPoint {
        point: AdapterSample {
            x: single(x),
            y: single(y),
            pressure: single(pressure),
            tilt_x: single(0.0),
            tilt_y: single(0.0),
            twist: single(0.0),
            time_seconds: double(0.0),
        },
        source,
        pressure_from_device,
    }
}

fn native(x: f32, y: f32, phase: StylusPhase, window_pos: ScreenPos) -> NativeInputPoint {
    NativeInputPoint {
        point: input_test_point(x, y, 0.5, StrokeInputSource::WindowsPointer, true),
        phase,
        window_pos,
    }
}

fn distance(a: StrokePoint, b: StrokePoint) -> Single {
    let dx = number(a.x) - number(b.x);
    let dy = number(a.y) - number(b.y);
    single((dx * dx + dy * dy).sqrt())
}

#[test]
fn input_layer_does_not_append_touch_start_as_move_sample() {
    assert!(!touch_phase_appends_to_active_stroke(TouchPhase::Start));
    assert!(touch_phase_appends_to_active_stroke(TouchPhase::Move));
    assert!(!touch_phase_appends_to_active_stroke(TouchPhase::End));
    assert!(!touch_phase_appends_to_active_stroke(TouchPhase::Cancel));
}

#[test]
fn input_layer_native_pointer_phase_policy_matches_streaming_model() {
    assert!(native_phase_can_begin_stroke(StylusPhase::Down));
    assert!(!native_phase_can_begin_stroke(StylusPhase::Move));
    assert!(!native_phase_can_begin_stroke(StylusPhase::Hover));
    assert!(!native_phase_can_begin_stroke(StylusPhase::Up));
    assert!(native_phase_appends_to_active_stroke(StylusPhase::Move));
    assert!(!native_phase_appends_to_active_stroke(StylusPhase::Down));
    assert!(!native_phase_appends_to_active_stroke(StylusPhase::Hover));
    assert!(native_phase_stops_active_stroke(StylusPhase::Up));
    assert!(native_phase_stops_active_stroke(StylusPhase::Cancel));
    assert!(!native_phase_stops_active_stroke(StylusPhase::Hover));
}

#[test]
fn hovering_pens_do_not_touch_the_surface() {
    assert!(!native_phase_touches_surface(StylusPhase::Hover));
    assert!(native_phase_touches_surface(StylusPhase::Down));
    assert!(native_phase_touches_surface(StylusPhase::Cancel));
    assert!(touch_phase_can_begin_stroke(TouchPhase::Start));
    assert!(touch_phase_can_begin_stroke(TouchPhase::Move));
    assert!(!touch_phase_can_begin_stroke(TouchPhase::End));
    assert_eq!(stylus_phase_of_touch(TouchPhase::Start), StylusPhase::Down);
    assert_eq!(stylus_phase_of_touch(TouchPhase::Move), StylusPhase::Move);
    assert_eq!(stylus_phase_of_touch(TouchPhase::End), StylusPhase::Up);
    assert_eq!(stylus_phase_of_touch(TouchPhase::Cancel), StylusPhase::Cancel);
}

#[test]
fn native_input_batch_gap_uses_canvas_points() {
    let points = vec![
        native(10.0, 20.0, StylusPhase::Move, pos(100.0, 100.0)),
        native(13.0, 24.0, StylusPhase::Move, pos(300.0, 300.0)),
    ];

    assert!((number(native_input_batch_max_gap(&points, distance)) - 5.0).abs() <= f32::EPSILON);
}

#[test]
fn native_input_batch_gap_is_the_widest_one() {
    let step = |x: f32| native(x, 0.0, StylusPhase::Move, pos(0.0, 0.0));
    assert_eq!(number(native_input_batch_max_gap(&[], distance)), 0.0);
    assert_eq!(number(native_input_batch_max_gap(&[step(4.0)], distance)), 0.0);
    let points = [step(0.0), step(2.0), step(9.0), step(f32::NAN), step(9.5), step(10.0)];
    assert_eq!(number(native_input_batch_max_gap(&points, distance)), 7.0);
}

#[test]
fn input_layer_can_begin_from_touch_move_when_start_is_missing() {
    let events = vec![touch(24.0, 32.0, TouchPhase::Move, Some(0.42))];
    let begin = touch_begin_event(&events).expect("move should begin touch stroke");

    assert_eq!(begin.pos, pos(24.0, 32.0));
    assert_eq!(begin.phase, TouchPhase::Move);
    assert_eq!(begin.force.map(number), Some(0.42));
}

#[test]
fn strokes_begin_with_a_start_before_any_move() {
    let events = [
        touch(1.0, 1.0, TouchPhase::Move, None),
        touch(2.0, 2.0, TouchPhase::Start, Some(0.5)),
        touch(3.0, 3.0, TouchPhase::Start, None),
    ];
    assert_eq!(touch_begin_event(&events), Some(events[1]));
    assert_eq!(touch_begin_event(&[touch(1.0, 1.0, TouchPhase::End, None)]), None);

    let sample = begin_input_point(&events, double(3.5), pos(9.0, 9.0));
    assert_eq!(sample.pos, pos(2.0, 2.0));
    assert_eq!(sample.phase, StylusPhase::Down);
    assert_eq!(sample.force.map(number), Some(0.5));
    assert_eq!(sample.source, StrokeInputSource::Touch);
    assert_eq!(sample.batch_size, 1);

    let sample = begin_input_point(&[], double(3.5), pos(9.0, 9.0));
    assert_eq!(sample, current_input_point(pos(9.0, 9.0), StylusPhase::Down, double(3.5)));
    assert_eq!(sample.source, StrokeInputSource::PointerFallback);
    assert_eq!(sample.force, None);
}

#[test]
fn touch_moves_win_over_pointer_positions() {
    let events = [
        touch(1.0, 1.0, TouchPhase::Start, None),
        touch(2.0, 2.0, TouchPhase::Move, Some(0.25)),
        touch(3.0, 3.0, TouchPhase::Move, None),
        touch(4.0, 4.0, TouchPhase::End, None),
    ];
    let plan = input_stroke_points(&events, &[pos(8.0, 8.0)], double(1.0));
    assert_eq!(plan.source, StrokeInputSource::Touch);
    assert_eq!(plan.samples.len(), 2);
    assert_eq!(plan.samples[0].pos, pos(2.0, 2.0));
    assert_eq!(plan.samples[1].pos, pos(3.0, 3.0));
    for sample in &plan.samples {
        assert_eq!(sample.phase, StylusPhase::Move);
        assert_eq!(sample.batch_size, 2);
        assert_eq!(sample.time_seconds, double(1.0));
    }

    let lifted = input_stroke_points(&events[3..], &[pos(8.0, 8.0)], double(1.0));
    assert_eq!(lifted.source, StrokeInputSource::Touch);
    assert!(lifted.samples.is_empty());

    let pointer = input_stroke_points(&[], &[pos(8.0, 8.0), pos(9.0, 9.0)], double(1.0));
    assert_eq!(pointer.source, StrokeInputSource::PointerFallback);
    assert_eq!(pointer.samples.len(), 2);
    assert_eq!(pointer.samples[1].pos, pos(9.0, 9.0));
    assert_eq!(pointer.samples[1].force, None);
    assert_eq!(pointer.samples[1].batch_size, 2);
}

#[test]
fn native_samples_are_routed_by_phase_and_place() {
    let canvas = ScreenRect { min: pos(0.0, 0.0), max: pos(100.0, 100.0) };
    let points = [
        native(1.0, 1.0, StylusPhase::Down, pos(200.0, 5.0)),
        native(2.0, 2.0, StylusPhase::Move, pos(50.0, 50.0)),
        native(3.0, 3.0, StylusPhase::Down, pos(60.0, 60.0)),
        native(4.0, 4.0, StylusPhase::Move, pos(300.0, 60.0)),
        native(5.0, 5.0, StylusPhase::Down, pos(61.0, 60.0)),
    ];
    let route = route_native_input(&points, canvas);
    assert_eq!(route.begin_index, Some(2));
    assert!(!route.stopped);
    assert_eq!(route.updates, vec![points[1].point, points[3].point]);

    let lifted = [native(1.0, 1.0, StylusPhase::Cancel, pos(0.0, 0.0))];
    let route = route_native_input(&lifted, canvas);
    assert_eq!(route.begin_index, None);
    assert!(route.stopped);
    assert!(route.updates.is_empty());
}

#[test]
fn stroke_points_keep_place_and_pressure() {
    let input = input_test_point(1.5, 2.5, 0.75, StrokeInputSource::Touch, true);
    let point = stroke_point_from_input(input);
    assert_eq!((number(point.x), number(point.y), number(point.pressure)), (1.5, 2.5, 0.75));
    let other = input_test_point(3.5, 4.5, 0.25, StrokeInputSource::Touch, true);
    assert_eq!(
        stroke_points_from_input(&vec![input, other]),
        vec![point, stroke_point_from_input(other)]
    );
}

#[test]
fn presets_choose_a_plain_black_brush() {
    let mut brush = BrushSettings::new();
    brush.brush_mode = BrushMode::Erase;
    brush.stamp_texture = true;
    brush.stamp_texture_created = true;
    brush.velocity_dynamics = true;
    brush.fallback_pressure = single(0.3);
    brush.stabilizer_enabled = true;
    brush.apply_brush_preset(BrushPreset::SoftRoundPressureOpacityFlow);
    assert_eq!(number(brush.brush_radius), 14.0);
    assert_eq!(brush.brush_mode, BrushMode::Paint);
    assert!(!brush.stamp_texture);
    assert!(brush.stamp_texture_created);
    assert!(!brush.velocity_dynamics);
    assert!(brush.pressure_dynamics);
    assert!(brush.stabilizer_enabled);
    assert_eq!(number(brush.stamp_hardness), 0.0);
    assert_eq!(number(brush.fallback_pressure), 1.0);
    assert_eq!(number(brush.last_pressure), 1.0);
    let color = brush.color();
    assert_eq!((number(color.red), number(color.alpha)), (0.0, 1.0));
    brush.apply_brush_preset(BrushPreset::HardRound);
    assert!(!brush.pressure_dynamics);
    assert_eq!(number(brush.stamp_hardness), 1.0);
}

#[test]
fn presets_tell_what_pressure_controls() {
    let targets = |preset: BrushPreset| {
        (
            preset.is_soft_round(),
            preset.pressure_controls_size(),
            preset.pressure_controls_opacity(),
            preset.pressure_controls_flow(),
        )
    };
    assert_eq!(targets(BrushPreset::SoftRound), (true, false, false, false));
    assert_eq!(targets(BrushPreset::HardRound), (false, false, false, false));
    assert_eq!(targets(BrushPreset::SoftRoundPressureSize), (true, true, false, false));
    assert_eq!(targets(BrushPreset::HardRoundPressureSize), (false, true, false, false));
    assert_eq!(targets(BrushPreset::SoftRoundPressureOpacity), (true, false, true, false));
    assert_eq!(targets(BrushPreset::HardRoundPressureOpacity), (false, false, true, false));
    assert_eq!(targets(BrushPreset::SoftRoundPressureOpacityFlow), (true, false, true, true));
    assert_eq!(targets(BrushPreset::HardRoundPressureOpacityFlow), (false, false, true, true));
}

#[test]
fn engine_settings_follow_the_brush() {
    let mut brush = BrushSettings::new();
    let faint = PressureCurve::Linear { from: Single { bits: FAINT }, to: Single { bits: ONE } };
    let told = brush.sync_core_brush_settings(single(12.0));
    assert_eq!(number(told.session_radius), 15.0);
    assert_eq!(number(told.prediction.max_distance), 12.0);
    assert!(!told.prediction.enabled);
    assert_eq!(told.dynamics.size, PressureCurve::Constant(single(1.0)));
    assert_eq!(told.dynamics.opacity, PressureCurve::EngineDefault);
    assert_eq!(told.stamp_texture, StampTextureStep::Deactivate);

    brush.apply_brush_preset(BrushPreset::HardRoundPressureSize);
    brush.velocity_dynamics = true;
    brush.texture_grain = true;
    brush.stamp_texture = true;
    brush.core_prediction = true;
    let told = brush.sync_core_brush_settings(single(11.2));
    assert_eq!(told.dynamics.size, faint);
    assert_eq!(told.dynamics.flow, PressureCurve::EngineDefault);
    assert_eq!(
        told.dynamics.velocity_size,
        PressureCurve::Linear { from: single(1.25), to: single(0.65) }
    );
    assert_eq!(
        told.dynamics.velocity_opacity,
        PressureCurve::Linear { from: single(1.0), to: single(0.55) }
    );
    assert_eq!(
        told.dynamics.velocity_flow,
        PressureCurve::Linear { from: single(1.0), to: single(0.7) }
    );
    assert_eq!(
        told.dynamics.texture_grain,
        PressureCurve::Linear { from: single(0.15), to: single(0.75) }
    );
    assert!(told.prediction.enabled);
    assert_eq!(told.stamp_texture, StampTextureStep::CreateAndActivate);
    brush.stamp_texture_created = true;
    assert_eq!(
        brush.sync_core_brush_settings(single(11.2)).stamp_texture,
        StampTextureStep::Activate
    );
}

#[test]
fn samples_carry_the_brush_and_leave_a_pressure_behind() {
    let mut brush = BrushSettings::new();
    brush.brush_mode = BrushMode::Erase;
    let point = StrokePoint { x: single(1.0), y: single(2.0), pressure: single(1.0) };
    let sample = brush.stylus_sample(
        point,
        StylusPhase::Move,
        Some(single(f32::NAN)),
        None,
        double(4.0),
        0,
    );
    assert_eq!(sample.pressure_raw, None);
    assert_eq!(sample.batch_size, 1);
    assert!(sample.eraser);
    assert!(sample.primary_button);
    assert_eq!((number(sample.x), number(sample.y)), (1.0, 2.0));
    brush.adapt_stylus_sample(sample, single(0.0));
    assert_eq!(number(brush.last_pressure), 0.01);
    assert!(!brush.pressure_from_device);

    let force = Some(single(0.4));
    let sample = brush.stylus_sample(point, StylusPhase::Move, force, force, double(4.0), 3);
    assert_eq!(sample.pressure_raw, force);
    assert_eq!(sample.batch_size, 3);
    brush.adapt_stylus_sample(sample, single(0.4));
    assert_eq!(number(brush.last_pressure), 0.4);
    assert!(brush.pressure_from_device);
    brush.adapt_stylus_sample(sample, single(f32::NAN));
    assert_eq!(number(brush.last_pressure), 0.01);
    assert_eq!(brush.input_calibration().fallback_pressure, brush.fallback_pressure);
    brush.forget_device_pressure();
    assert_eq!(number(brush.last_pressure), 1.0);
    assert!(!brush.pressure_from_device);
}

#[test]
fn native_samples_go_before_window_events() {
    let plan = || input_stroke_points(&[], &[pos(8.0, 8.0)], double(1.0));
    match choose_frame_input(Vec::new(), plan()) {
        FrameInput::Planned(kept) => {
            assert_eq!(kept.source, StrokeInputSource::PointerFallback);
            assert_eq!(kept.samples, plan().samples);
        }
        FrameInput::Taken { .. } => panic!("no native sample was there to take"),
    }
    let native = vec![input_test_point(1.0, 2.0, 0.5, StrokeInputSource::WindowsPointer, true)];
    match choose_frame_input(native.clone(), plan()) {
        FrameInput::Taken { source, points } => {
            assert_eq!(source, StrokeInputSource::WindowsPointer);
            assert_eq!(points, native);
        }
        FrameInput::Planned(_) => panic!("native samples were passed over"),
    }
}
