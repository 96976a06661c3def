use canva_test::audit::{InputTracker, NativeStats, ReceivedSample, StrokeAudit};
use canva_test::geometry::{ScreenPos, StrokePoint};
use canva_test::input::{
    AdapterSample, StrokeInputPoint, StrokeInputSource, TouchEvent, TouchPhase,
};
use canva_test::latency::{
    input_batch_timestamp_age_range, input_latency_ms, InputLatencyProbe, TimedSample,
};
use canva_test::lead::{
    draws_raw_lead, push_raw_lead_point, raw_lead_tail_start, RAW_LEAD_POINT_LIMIT,
    RAW_LEAD_SEGMENT_LIMIT,
};
use canva_test::range::SingleRange;
use canva_test::scalar::{Double, Single};

fn single(value: f32) -> Single {
    Single { bits: value.to_bits() }
}

fn double(value: f64) -> Double {
    Double { bits: value.to_bits() }
}

fn number(value: Single) -> f32 {
    f32::from_bits(value.bits)
}

fn at(x: f32, y: f32) -> StrokePoint {
    StrokePoint { x: single(x), y: single(y), pressure: single(1.0) }
}

fn distance_squared(a: StrokePoint, b: StrokePoint) -> Single {
    let dx = number(a.x) - number(b.x);
    let dy = number(a.y) - number(b.y);
    single(dx * dx + dy * dy)
}

fn distance(a: StrokePoint, b: StrokePoint) -> Single {
    single(number(distance_squared(a, b)).sqrt())
}

fn plus(sum: Double, gap: Single) -> Double {
    double(f64::from_bits(sum.bits) + f64::from(number(gap)))
}

fn elapsed_ms(sample: f64, frame: f64) -> Single {
    single(((frame - sample) * 1000.0) as f32)
}

fn latency(sample: f64, frame: f64) -> Option<f32> {
    input_latency_ms(double(sample), double(frame), elapsed_ms(sample, frame)).map(number)
}

fn input(x: f32, y: f32, pressure: f32, time: f64) -> StrokeInputPoint {
    StrokeInputPoint {
        point: AdapterSample {
            x: single(x),
            y: single(y),
            pressure: single(pressure),
            tilt_x: single(0.0),
            tilt_y: single(0.0),
            twist: single(0.0),
            time_seconds: double(time),
        },
        source: StrokeInputSource::Touch,
        pressure_from_device: true,
    }
}

fn received(x: f32, y: f32, time: f64, frame: f64, moment: u64) -> ReceivedSample {
    ReceivedSample {
        input: input(x, y, 0.5, time),
        elapsed_ms: elapsed_ms(time, frame),
        received: moment,
    }
}

#[test]
fn input_latency_audit_uses_sample_and_frame_timestamps() {
    assert_eq!(latency(1.000, 1.016), Some(16.0));
    assert_eq!(latency(1.020, 1.016), Some(0.0));
    assert_eq!(latency(f64::NAN, 1.016), None);
    assert_eq!(latency(1.000, f64::INFINITY), None);
}

#[test]
fn input_batch_timestamp_age_reports_newest_and_oldest_samples() {
    let ages = |times: &[f64], frame: f64| {
        let samples: Vec<TimedSample> = times
            .iter()
            .map(|time| TimedSample {
                time_seconds: double(*time),
                elapsed_ms: elapsed_ms(*time, frame),
            })
            .collect();
        let range = input_batch_timestamp_age_range(&samples, double(frame));
        (range.min.map(number), range.max.map(number))
    };
    let (newest, oldest) = ages(&[1.000, 1.004, 1.012], 1.016);

    assert!((newest.expect("newest age") - 4.0).abs() <= f32::EPSILON);
    assert!((oldest.expect("oldest age") - 16.0).abs() <= f32::EPSILON);

    let (newest, oldest) = ages(&[f64::NAN, f64::INFINITY], 1.016);
    assert_eq!(newest, None);
    assert_eq!(oldest, None);
}

#[test]
fn raw_lead_tail_start_limits_preview_to_recent_points() {
    let points = (0..80).map(|index| at(index as f32, 0.0)).collect::<Vec<_>>();

    assert_eq!(
        raw_lead_tail_start(&points, None, distance_squared),
        points.len() - RAW_LEAD_SEGMENT_LIMIT - 1
    );
}

#[test]
fn raw_lead_tail_start_tracks_core_tip_nearest_recent_point() {
    let points = (0..80).map(|index| at(index as f32, 0.0)).collect::<Vec<_>>();
    let core_tip = at(70.2, 0.0);

    assert_eq!(raw_lead_tail_start(&points, Some(core_tip), distance_squared), 69);
}

#[test]
fn raw_lead_tail_start_stays_within_the_trail() {
    let tip = Some(at(0.0, 0.0));
    assert_eq!(raw_lead_tail_start(&[], tip, distance_squared), 0);
    assert_eq!(raw_lead_tail_start(&[at(1.0, 0.0), at(2.0, 0.0)], tip, distance_squared), 0);
    let short = (0..5).map(|index| at(index as f32, 0.0)).collect::<Vec<_>>();
    assert_eq!(raw_lead_tail_start(&short, None, distance_squared), 0);
    assert_eq!(raw_lead_tail_start(&short, tip, distance_squared), 0);
    assert_eq!(raw_lead_tail_start(&short, Some(at(4.0, 0.0)), distance_squared), 3);
    let twice = vec![at(3.0, 0.0), at(1.0, 0.0), at(5.0, 0.0), at(1.0, 0.0)];
    assert_eq!(raw_lead_tail_start(&twice, Some(at(1.0, 0.0)), distance_squared), 0);
    let nowhere = Some(at(f32::NAN, 0.0));
    assert_eq!(raw_lead_tail_start(&short, nowhere, distance_squared), 0);
    let long = (0..80).map(|index| at(index as f32, 0.0)).collect::<Vec<_>>();
    assert_eq!(raw_lead_tail_start(&long, tip, distance_squared), 31);
}

#[test]
fn raw_lead_is_drawn_when_it_is_ahead() {
    let trail = vec![at(0.0, 0.0), at(3.0, 4.0)];
    assert!(draws_raw_lead(&trail, None, distance_squared));
    assert!(draws_raw_lead(&trail, Some(at(3.0, 3.0)), distance_squared));
    assert!(!draws_raw_lead(&trail, Some(at(3.0, 3.5)), distance_squared));
    assert!(!draws_raw_lead(&[], None, distance_squared));
}

#[test]
fn raw_lead_keeps_recent_points_and_no_repeats() {
    let mut trail = Vec::new();
    push_raw_lead_point(&mut trail, at(1.0, 1.0), distance_squared);
    push_raw_lead_point(&mut trail, at(1.0, 1.0), distance_squared);
    assert_eq!(trail, vec![at(1.0, 1.0)]);
    push_raw_lead_point(&mut trail, at(f32::NAN, 1.0), distance_squared);
    assert_eq!(trail.len(), 2);
    for index in 0..200 {
        push_raw_lead_point(&mut trail, at(index as f32, 2.0), distance_squared);
        assert!(trail.len() <= RAW_LEAD_POINT_LIMIT);
    }
    assert_eq!(trail.len(), RAW_LEAD_POINT_LIMIT);
    assert_eq!(trail[0], at(104.0, 2.0));
    assert_eq!(trail[95], at(199.0, 2.0));
}

#[test]
fn input_latency_probe_reports_internal_segments() {
    fn assert_ms(actual: Option<u64>, expected: f32) {
        let ms = actual.expect("latency segment") as f32 / 1_000_000.0;
        assert!((ms - expected).abs() <= f32::EPSILON);
    }

    let start: u64 = 77_000_000;
    let probe = InputLatencyProbe {
        sample_id: 7,
        app_receive: start,
        source_timestamp_age_ms: Some(single(3.0)),
        session_emit: Some(start + 1_000_000),
        core_append_start: Some(start + 2_000_000),
        core_append_done: Some(start + 5_000_000),
        paint: Some(start + 8_000_000),
    };

    let report = probe.report();

    assert_eq!(report.sample_id, 7);
    let age = report.source_timestamp_age_ms.map(number).expect("latency segment");
    assert!((age - 3.0).abs() <= f32::EPSILON);
    assert_ms(report.receive_to_session, 1.0);
    assert_ms(report.core_append, 3.0);
    assert_ms(report.receive_to_core_done, 5.0);
    assert_ms(report.receive_to_paint, 8.0);
}

#[test]
fn missing_stages_have_no_spans() {
    let mut probe = InputLatencyProbe::new(1, 50, None);
    let report = probe.report();
    assert_eq!(report.receive_to_session, None);
    assert_eq!(report.receive_to_core_done, None);
    assert_eq!(report.core_append, None);
    assert_eq!(report.receive_to_paint, None);
    probe.core_append_done = Some(60);
    assert_eq!(probe.report().core_append, None);
    assert_eq!(probe.report().receive_to_core_done, Some(10));
    probe.paint = Some(40);
    assert_eq!(probe.report().receive_to_paint, Some(0));
}

#[test]
fn touch_events_are_counted_by_phase() {
    let event = |phase: TouchPhase, force: Option<f32>| TouchEvent {
        pos: ScreenPos { x: single(0.0), y: single(0.0) },
        phase,
        force: force.map(single),
    };
    let mut audit = StrokeAudit::new();
    audit.note_touch_events(&[
        event(TouchPhase::Start, Some(0.5)),
        event(TouchPhase::Move, None),
        event(TouchPhase::Move, Some(0.25)),
        event(TouchPhase::Move, Some(f32::NAN)),
        event(TouchPhase::End, Some(0.75)),
        event(TouchPhase::Cancel, Some(f32::INFINITY)),
    ]);
    assert_eq!(audit.last_touch_events, 6);
    assert_eq!(audit.last_touch_starts, 1);
    assert_eq!(audit.last_touch_moves, 3);
    assert_eq!(audit.last_touch_ends, 1);
    assert_eq!(audit.last_touch_cancels, 1);
    assert_eq!(audit.ignored_touch_starts, 1);
    assert_eq!(
        audit.last_raw_force,
        SingleRange { min: Some(single(0.25)), max: Some(single(0.75)) }
    );
    assert_eq!(audit.last_raw_force_missing, 3);
    audit.note_touch_events(&[event(TouchPhase::Start, None)]);
    assert_eq!(audit.ignored_touch_starts, 2);
    audit.note_touch_events(&[]);
    assert_eq!(audit.last_touch_events, 0);
    assert_eq!(audit.last_raw_force, SingleRange { min: None, max: None });
    assert_eq!(audit.ignored_touch_starts, 2);
}

#[test]
fn adapted_pressures_leave_out_what_is_not_finite() {
    let mut audit = StrokeAudit::new();
    audit.record_adapted_pressure_range(&[
        input(0.0, 0.0, 0.5, 0.0),
        input(0.0, 0.0, f32::NAN, 0.0),
        input(0.0, 0.0, 0.25, 0.0),
        input(0.0, 0.0, f32::INFINITY, 0.0),
    ]);
    assert_eq!(
        audit.last_adapted_pressure,
        SingleRange { min: Some(single(0.25)), max: Some(single(0.5)) }
    );
    audit.record_adapted_pressure_range(&[]);
    assert_eq!(audit.last_adapted_pressure, SingleRange { min: None, max: None });
}

#[test]
fn native_batches_add_up_and_gaps_peak() {
    let mut audit = StrokeAudit::new();
    audit.note_native_batch(4, None);
    audit.note_native_batch(2, Some(NativeStats { dropped_events: 9, last_error: None }));
    assert_eq!(audit.native_pointer_events, 6);
    assert_eq!(audit.last_native_pointer_batch, 2);
    assert_eq!(audit.native_pointer_dropped, 9);
    audit.note_native_gap(single(3.0));
    audit.note_native_gap(single(2.0));
    assert_eq!(number(audit.last_native_batch_max_gap), 2.0);
    assert_eq!(number(audit.max_native_batch_gap), 3.0);
    audit.start_drag(1, None);
    assert_eq!(audit.native_pointer_events, 1);
    assert_eq!(audit.native_pointer_dropped, 0);
    assert_eq!(number(audit.max_native_batch_gap), 0.0);
}

#[test]
fn frames_and_gaps_are_averaged() {
    let mut audit = StrokeAudit::new();
    let divide = |sum: Double, count: u32| double(f64::from_bits(sum.bits) / f64::from(count));
    assert_eq!(audit.avg_event_gap(divide), double(0.0));
    audit.note_frame(single(16.0));
    audit.note_frame(single(8.0));
    assert_eq!(audit.frames, 2);
    assert_eq!(number(audit.last_frame_dt), 8.0);
    assert_eq!(number(audit.max_frame_dt), 16.0);
    audit.note_raw_point(at(0.0, 0.0), distance, plus);
    assert_eq!(audit.event_gap_count, 0);
    audit.note_raw_point(at(3.0, 4.0), distance, plus);
    audit.note_raw_point(at(3.0, 5.0), distance, plus);
    assert_eq!(audit.event_gap_count, 2);
    assert_eq!(number(audit.max_event_gap), 5.0);
    assert_eq!(audit.avg_event_gap(divide), double(3.0));
    assert_eq!(audit.raw_pts.len(), 3);
    audit.note_raw_events(5);
    assert_eq!(audit.raw_events, 5);
    audit.note_raw_events(usize::MAX);
    assert_eq!(audit.raw_events, u32::MAX);
}

#[test]
fn batches_are_tracked_sample_by_sample() {
    let mut tracker = InputTracker::new();
    let frame = 1.016;
    let samples = [
        received(0.0, 0.0, 1.000, frame, 10),
        received(3.0, 4.0, 1.004, frame, 20),
        received(3.0, 4.0, 1.012, frame, 30),
    ];
    tracker.take_batch(&samples, double(frame), distance_squared, distance, plus);
    assert_eq!(tracker.audit.raw_events, 3);
    assert_eq!(tracker.audit.raw_pts.len(), 3);
    assert_eq!(tracker.audit.event_gap_count, 2);
    assert_eq!(number(tracker.audit.max_event_gap), 5.0);
    assert_eq!(tracker.raw_lead_points.len(), 2);
    assert_eq!(tracker.next_latency_sample_id, 4);
    let probe = tracker.latency_probe.expect("latest probe");
    assert_eq!((probe.sample_id, probe.app_receive), (3, 30));
    assert_eq!(tracker.audit.last_input_latency_ms.map(number), Some(4.0));
    assert_eq!(number(tracker.audit.max_input_latency_ms), 16.0);
    assert_eq!(tracker.audit.last_batch_source_age_ms.min.map(number), Some(4.0));
    assert_eq!(tracker.audit.last_batch_source_age_ms.max.map(number), Some(16.0));
    assert_eq!(number(tracker.audit.max_batch_oldest_source_age_ms), 16.0);
    assert_eq!(tracker.latest_input_preview, Some(StrokePoint {
        x: single(3.0),
        y: single(4.0),
        pressure: single(0.5),
    }));
}

#[test]
fn fallback_samples_are_previewed_but_not_counted() {
    let mut tracker = InputTracker::new();
    tracker.take_batch(&[], double(2.0), distance_squared, distance, plus);
    assert_eq!(tracker.audit.raw_events, 0);
    assert_eq!(tracker.latest_input_preview, None);
    tracker.take_fallback(received(1.0, 2.0, 2.0, 2.0, 5), double(2.0), distance_squared);
    assert_eq!(tracker.audit.raw_events, 0);
    assert!(tracker.audit.raw_pts.is_empty());
    assert_eq!(tracker.raw_lead_points.len(), 1);
    assert_eq!(tracker.audit.last_batch_source_age_ms.max.map(number), Some(0.0));
}

#[test]
fn marks_bring_the_report_up_to_date() {
    let mut tracker = InputTracker::new();
    tracker.mark_latest_latency_paint(1);
    assert_eq!(tracker.audit.latest_latency, None);
    tracker.take_fallback(received(1.0, 2.0, 2.0, 2.0, 100), double(2.0), distance_squared);
    tracker.mark_latest_latency_session_emit(110);
    tracker.mark_latest_latency_core_append(120, 150);
    tracker.mark_latest_latency_paint(190);
    let report = tracker.audit.latest_latency.expect("report");
    assert_eq!(report.receive_to_session, Some(10));
    assert_eq!(report.core_append, Some(30));
    assert_eq!(report.receive_to_core_done, Some(50));
    assert_eq!(report.receive_to_paint, Some(90));
    assert_eq!(tracker.audit.max_receive_to_core_done, 50);
    tracker.take_fallback(received(9.0, 2.0, 2.0, 2.0, 200), double(2.0), distance_squared);
    tracker.mark_latest_latency_core_append(201, 205);
    assert_eq!(tracker.audit.max_receive_to_core_done, 50);
    assert_eq!(tracker.audit.max_receive_to_paint, 90);
    assert_eq!(tracker.audit.latest_latency.map(|report| report.sample_id), Some(2));
    tracker.reset_active_stroke_tracking();
    assert_eq!(tracker.latency_probe, None);
    assert_eq!(tracker.latest_input_preview, None);
    assert!(tracker.raw_lead_points.is_empty());
    assert_eq!(tracker.next_latency_sample_id, 3);
}
