//! What the shell records about the input of the stroke under way.

use crate::geometry::StrokePoint;
use crate::input::{
    count_phase, stroke_point_from_input, StrokeInputPoint, StrokeInputSource, TouchEvent,
    TouchPhase,
};
use crate::latency::{
    input_batch_timestamp_age_range, input_latency_ms, InputLatencyProbe, InputLatencyReport,
    TimedSample,
};
use crate::lead::push_raw_lead_point;
use crate::range::SingleRange;
use crate::scalar::{Double, Single};
use vstd::prelude::*;

verus! {

/// `after` is the audit `before` once the raw point `point` was recorded: with the point, and
/// with its gap to the point before, if there is one.
pub open spec fn appended<
    F: Fn(StrokePoint, StrokePoint) -> Single,
    G: Fn(Double, Single) -> Double,
>(before: StrokeAudit, point: StrokePoint, distance: F, plus: G, after: StrokeAudit) -> bool {
    &&& after.raw_pts@ == before.raw_pts@.push(point)
    &&& before.raw_pts@.len() == 0 ==> after == (StrokeAudit {
        raw_pts: after.raw_pts,
        ..before
    })
    &&& before.raw_pts@.len() > 0 ==> exists|gap: Single|
        {
            &&& #[trigger] call_ensures(distance, (point, before.raw_pts@.last()), gap)
            &&& call_ensures(plus, (before.sum_event_gap, gap), after.sum_event_gap)
            &&& after == (StrokeAudit {
                raw_pts: after.raw_pts,
                sum_event_gap: after.sum_event_gap,
                event_gap_count: (before.event_gap_count + 1) as u32,
                max_event_gap: peak(before.max_event_gap, gap),
                ..before
            })
        }
}

/// Counters and extremes of the input of one stroke.
pub struct StrokeAudit {
    pub frames: u32,
    pub raw_events: u32,
    pub ignored_touch_starts: u32,
    pub last_touch_events: usize,
    pub last_touch_starts: usize,
    pub last_touch_moves: usize,
    pub last_touch_ends: usize,
    pub last_touch_cancels: usize,
    pub last_raw_force: SingleRange,
    pub last_raw_force_missing: usize,
    pub last_adapted_pressure: SingleRange,
    pub max_event_gap: Single,
    pub sum_event_gap: Double,
    pub event_gap_count: u32,
    pub max_frame_dt: Single,
    pub last_frame_dt: Single,
    pub last_input_latency_ms: Option<Single>,
    pub max_input_latency_ms: Single,
    /// Ages of the newest and of the oldest sample of the last batch.
    pub last_batch_source_age_ms: SingleRange,
    pub max_batch_oldest_source_age_ms: Single,
    pub latest_latency: Option<InputLatencyReport>,
    pub max_receive_to_core_done: u64,
    pub max_receive_to_paint: u64,
    pub native_pointer_events: u32,
    pub last_native_pointer_batch: usize,
    pub last_native_batch_max_gap: Single,
    pub max_native_batch_gap: Single,
    pub native_pointer_dropped: u64,
    pub native_pointer_last_error: Option<u32>,
    pub begin_point: Option<StrokePoint>,
    pub begin_pressure_from_device: bool,
    pub begin_input_source: Option<StrokeInputSource>,
    pub reanchored_touch_begins: u32,
    pub append_batches: u32,
    pub last_append_len: usize,
    pub last_append_first: Option<StrokePoint>,
    pub last_append_second: Option<StrokePoint>,
    pub last_core_uploaded_points: usize,
    pub last_core_dispatches: usize,
    pub raw_pts: Vec<StrokePoint>,
}

/// What the native pointer capture reports about itself.
#[derive(Clone, Copy, Debug, PartialEq, Eq, Structural)]
pub struct NativeStats {
    pub dropped_events: u64,
    pub last_error: Option<u32>,
}

/// `n` limited to the range of a `u32`.
pub open spec fn limited(n: int) -> u32 {
    if n > u32::MAX {
        u32::MAX
    } else {
        n as u32
    }
}

/// `total` raised by `count`, limited to the range of a `u32`.
fn raise(total: u32, count: usize) -> (r: u32)
    ensures
        r == limited(total + count),
{
    if count > u32::MAX as usize {
        u32::MAX
    } else {
        total.saturating_add(count as u32)
    }
}

/// The highest value seen, once `value` was seen too.
pub open spec fn peak(highest: Single, value: Single) -> Single {
    if highest.below(value) {
        value
    } else {
        highest
    }
}

/// The longest span seen, once `value` was seen too.
pub open spec fn longest(highest: u64, value: Option<u64>) -> u64 {
    match value {
        Some(value) if value > highest => value,
        _ => highest,
    }
}

/// The forces that `events` carry, as far as they are finite.
pub open spec fn finite_forces(events: Seq<TouchEvent>) -> Seq<Option<Single>> {
    events.map_values(
        |event: TouchEvent|
            match event.force {
                Some(force) => crate::range::if_finite(force),
                None => None,
            },
    )
}

/// The pressures of `points`, as far as they are finite.
pub open spec fn finite_pressures(points: Seq<StrokeInputPoint>) -> Seq<Option<Single>> {
    points.map_values(|input: StrokeInputPoint| crate::range::if_finite(input.point.pressure))
}

/// How many of `values` are missing.
pub open spec fn missing(values: Seq<Option<Single>>) -> nat {
    values.filter(|value: Option<Single>| value is None).len()
}

impl StrokeAudit {
    /// Nothing was recorded yet.
    pub open spec fn blank(self) -> bool {
        &&& self.frames == 0
        &&& self.raw_events == 0
        &&& self.ignored_touch_starts == 0
        &&& self.last_touch_events == 0
        &&& self.last_touch_starts == 0
        &&& self.last_touch_moves == 0
        &&& self.last_touch_ends == 0
        &&& self.last_touch_cancels == 0
        &&& self.last_raw_force == (SingleRange { min: None, max: None })
        &&& self.last_raw_force_missing == 0
        &&& self.last_adapted_pressure == (SingleRange { min: None, max: None })
        &&& self.max_event_gap.bits == 0
        &&& self.sum_event_gap.bits == 0
        &&& self.event_gap_count == 0
        &&& self.max_frame_dt.bits == 0
        &&& self.last_frame_dt.bits == 0
        &&& self.last_input_latency_ms is None
        &&& self.max_input_latency_ms.bits == 0
        &&& self.last_batch_source_age_ms == (SingleRange { min: None, max: None })
        &&& self.max_batch_oldest_source_age_ms.bits == 0
        &&& self.latest_latency is None
        &&& self.max_receive_to_core_done == 0
        &&& self.max_receive_to_paint == 0
        &&& self.native_pointer_events == 0
        &&& self.last_native_pointer_batch == 0
        &&& self.last_native_batch_max_gap.bits == 0
        &&& self.max_native_batch_gap.bits == 0
        &&& self.native_pointer_dropped == 0
        &&& self.native_pointer_last_error is None
        &&& self.begin_point is None
        &&& !self.begin_pressure_from_device
        &&& self.begin_input_source is None
        &&& self.reanchored_touch_begins == 0
        &&& self.append_batches == 0
        &&& self.last_append_len == 0
        &&& self.last_append_first is None
        &&& self.last_append_second is None
        &&& self.last_core_uploaded_points == 0
        &&& self.last_core_dispatches == 0
        &&& self.raw_pts@.len() == 0
    }

    pub fn new() -> (r: StrokeAudit)
        ensures
            r.blank(),
    {
        StrokeAudit {
            frames: 0,
            raw_events: 0,
            ignored_touch_starts: 0,
            last_touch_events: 0,
            last_touch_starts: 0,
            last_touch_moves: 0,
            last_touch_ends: 0,
            last_touch_cancels: 0,
            last_raw_force: SingleRange::empty(),
            last_raw_force_missing: 0,
            last_adapted_pressure: SingleRange::empty(),
            max_event_gap: Single::zero(),
            sum_event_gap: Double::zero(),
            event_gap_count: 0,
            max_frame_dt: Single::zero(),
            last_frame_dt: Single::zero(),
            last_input_latency_ms: None,
            max_input_latency_ms: Single::zero(),
            last_batch_source_age_ms: SingleRange::empty(),
            max_batch_oldest_source_age_ms: Single::zero(),
            latest_latency: None,
            max_receive_to_core_done: 0,
            max_receive_to_paint: 0,
            native_pointer_events: 0,
            last_native_pointer_batch: 0,
            last_native_batch_max_gap: Single::zero(),
            max_native_batch_gap: Single::zero(),
            native_pointer_dropped: 0,
            native_pointer_last_error: None,
            begin_point: None,
            begin_pressure_from_device: false,
            begin_input_source: None,
            reanchored_touch_begins: 0,
            append_batches: 0,
            last_append_len: 0,
            last_append_first: None,
            last_append_second: None,
            last_core_uploaded_points: 0,
            last_core_dispatches: 0,
            raw_pts: Vec::new(),
        }
    }

    /// Forgets everything.
    pub fn reset(&mut self)
        ensures
            final(self).blank(),
    {
        *self = StrokeAudit::new();
    }

    /// The mean gap between raw points, or zero before the second point. `divide` divides.
    pub fn avg_event_gap<F: Fn(Double, u32) -> Double>(&self, divide: F) -> (r: Double)
        requires
            forall|sum: Double, count: u32| count > 0 ==> call_requires(divide, (sum, count)),
        ensures
            self.event_gap_count == 0 ==> r == (Double { bits: 0 }),
            self.event_gap_count > 0 ==> call_ensures(
                divide,
                (self.sum_event_gap, self.event_gap_count),
                r,
            ),
    {
        if self.event_gap_count == 0 {
            Double::zero()
        } else {
            divide(self.sum_event_gap, self.event_gap_count)
        }
    }

    /// Records the touch events of a frame: how many there are in each phase, and how hard
    /// they press.
    pub fn note_touch_events(&mut self, events: &[TouchEvent])
        ensures
            *final(self) == (StrokeAudit {
                last_touch_events: events@.len() as usize,
                last_touch_starts: crate::input::events_in_phase(
                    events@,
                    TouchPhase::Start,
                ).len() as usize,
                last_touch_moves: crate::input::events_in_phase(
                    events@,
                    TouchPhase::Move,
                ).len() as usize,
                last_touch_ends: crate::input::events_in_phase(
                    events@,
                    TouchPhase::End,
                ).len() as usize,
                last_touch_cancels: crate::input::events_in_phase(
                    events@,
                    TouchPhase::Cancel,
                ).len() as usize,
                ignored_touch_starts: limited(
                    old(self).ignored_touch_starts + crate::input::events_in_phase(
                        events@,
                        TouchPhase::Start,
                    ).len(),
                ),
                last_raw_force: crate::range::range_of(finite_forces(events@)),
                last_raw_force_missing: missing(finite_forces(events@)) as usize,
                ..*old(self)
            }),
    {
        self.last_touch_events = events.len();
        self.last_touch_starts = count_phase(events, TouchPhase::Start);
        self.last_touch_moves = count_phase(events, TouchPhase::Move);
        self.last_touch_ends = count_phase(events, TouchPhase::End);
        self.last_touch_cancels = count_phase(events, TouchPhase::Cancel);
        self.ignored_touch_starts = raise(self.ignored_touch_starts, self.last_touch_starts);
        let mut forces = SingleRange::empty();
        let mut without: usize = 0;
        let mut i: usize = 0;
        let ghost absent = |value: Option<Single>| value is None;
        proof {
            reveal(Seq::filter);
            assert(finite_forces(events@.take(0)) =~= Seq::empty());
        }
        while i < events.len()
            invariant
                i <= events@.len(),
                absent == (|value: Option<Single>| value is None),
                forces == crate::range::range_of(finite_forces(events@.take(i as int))),
                without <= i,
                without == finite_forces(events@.take(i as int)).filter(absent).len(),
            decreases events@.len() - i,
        {
            let force = match events[i].force {
                Some(force) => {
                    if force.is_finite() {
                        Some(force)
                    } else {
                        None
                    }
                },
                None => None,
            };
            proof {
                reveal(Seq::filter);
                assert(finite_forces(events@.take(i + 1)).drop_last() =~= finite_forces(
                    events@.take(i as int),
                ));
            }
            if force.is_none() {
                without += 1;
            }
            forces.note(force);
            i += 1;
        }
        assert(events@.take(i as int) =~= events@);
        self.last_raw_force = forces;
        self.last_raw_force_missing = without;
    }

    /// Records the lightest and the hardest pressure of a batch.
    pub fn record_adapted_pressure_range(&mut self, points: &[StrokeInputPoint])
        ensures
            *final(self) == (StrokeAudit {
                last_adapted_pressure: crate::range::range_of(finite_pressures(points@)),
                ..*old(self)
            }),
    {
        let mut pressures = SingleRange::empty();
        let mut i: usize = 0;
        assert(finite_pressures(points@.take(0)) =~= Seq::empty());
        while i < points.len()
            invariant
                i <= points@.len(),
                pressures == crate::range::range_of(finite_pressures(points@.take(i as int))),
            decreases points@.len() - i,
        {
            let pressure = points[i].point.pressure;
            pressures.note(
                if pressure.is_finite() {
                    Some(pressure)
                } else {
                    None
                },
            );
            assert(finite_pressures(points@.take(i + 1)).drop_last() =~= finite_pressures(
                points@.take(i as int),
            ));
            i += 1;
        }
        assert(points@.take(i as int) =~= points@);
        self.last_adapted_pressure = pressures;
    }

    /// Records a batch of `count` native events, and what the capture says of itself.
    pub fn note_native_batch(&mut self, count: usize, stats: Option<NativeStats>)
        ensures
            *final(self) == (StrokeAudit {
                last_native_pointer_batch: count,
                native_pointer_events: limited(old(self).native_pointer_events + count),
                native_pointer_dropped: match stats {
                    Some(stats) => stats.dropped_events,
                    None => old(self).native_pointer_dropped,
                },
                native_pointer_last_error: match stats {
                    Some(stats) => stats.last_error,
                    None => old(self).native_pointer_last_error,
                },
                ..*old(self)
            }),
    {
        if let Some(stats) = stats {
            self.native_pointer_dropped = stats.dropped_events;
            self.native_pointer_last_error = stats.last_error;
        }
        self.last_native_pointer_batch = count;
        self.native_pointer_events = raise(self.native_pointer_events, count);
    }

    /// Records the widest gap of a native batch.
    pub fn note_native_gap(&mut self, gap: Single)
        ensures
            *final(self) == (StrokeAudit {
                last_native_batch_max_gap: gap,
                max_native_batch_gap: peak(old(self).max_native_batch_gap, gap),
                ..*old(self)
            }),
    {
        self.last_native_batch_max_gap = gap;
        if self.max_native_batch_gap.lt(gap) {
            self.max_native_batch_gap = gap;
        }
    }

    /// Starts over for a drag whose first frame brought `count` native samples.
    pub fn start_drag(&mut self, count: usize, stats: Option<NativeStats>)
        ensures
            exists|blank: StrokeAudit| #[trigger]
                blank.blank() && *final(self) == (StrokeAudit {
                    last_native_pointer_batch: count,
                    native_pointer_events: limited(count as int),
                    native_pointer_dropped: match stats {
                        Some(stats) => stats.dropped_events,
                        None => 0,
                    },
                    native_pointer_last_error: match stats {
                        Some(stats) => stats.last_error,
                        None => None,
                    },
                    ..blank
                }),
    {
        self.reset();
        let ghost blank = *self;
        self.note_native_batch(count, stats);
        assert(blank.blank());
    }

    /// Records the sample that a stroke begins with.
    pub fn note_begin(&mut self, point: StrokePoint, from_device: bool, source: StrokeInputSource)
        ensures
            *final(self) == (StrokeAudit {
                begin_point: Some(point),
                begin_pressure_from_device: from_device,
                begin_input_source: Some(source),
                ..*old(self)
            }),
    {
        self.begin_point = Some(point);
        self.begin_pressure_from_device = from_device;
        self.begin_input_source = Some(source);
    }

    /// Records that the stroke was begun anew at the first touch sample.
    pub fn note_reanchor(&mut self, point: StrokePoint, from_device: bool)
        ensures
            *final(self) == (StrokeAudit {
                begin_point: Some(point),
                begin_pressure_from_device: from_device,
                begin_input_source: Some(StrokeInputSource::Touch),
                reanchored_touch_begins: limited(old(self).reanchored_touch_begins + 1),
                ..*old(self)
            }),
    {
        self.note_begin(point, from_device, StrokeInputSource::Touch);
        self.reanchored_touch_begins = self.reanchored_touch_begins.saturating_add(1);
    }

    /// Records a frame of the drag that took `frame_dt_ms` milliseconds.
    pub fn note_frame(&mut self, frame_dt_ms: Single)
        requires
            old(self).frames < u32::MAX,
        ensures
            *final(self) == (StrokeAudit {
                frames: (old(self).frames + 1) as u32,
                last_frame_dt: frame_dt_ms,
                max_frame_dt: peak(old(self).max_frame_dt, frame_dt_ms),
                ..*old(self)
            }),
    {
        self.frames += 1;
        self.last_frame_dt = frame_dt_ms;
        if self.max_frame_dt.lt(frame_dt_ms) {
            self.max_frame_dt = frame_dt_ms;
        }
    }

    /// Records that a frame brought `count` samples.
    pub fn note_raw_events(&mut self, count: usize)
        ensures
            *final(self) == (StrokeAudit {
                raw_events: limited(old(self).raw_events + count),
                ..*old(self)
            }),
    {
        self.raw_events = raise(self.raw_events, count);
    }

    /// Records a raw point and its gap to the one before. `distance` measures the gap and
    /// `plus` adds it to the sum.
    pub fn note_raw_point<
        F: Fn(StrokePoint, StrokePoint) -> Single,
        G: Fn(Double, Single) -> Double,
    >(&mut self, point: StrokePoint, distance: F, plus: G)
        requires
            old(self).raw_pts@.len() > 0 ==> old(self).event_gap_count < u32::MAX,
            forall|a: StrokePoint, b: StrokePoint| call_requires(distance, (a, b)),
            forall|sum: Double, gap: Single| call_requires(plus, (sum, gap)),
        ensures
            appended(*old(self), point, distance, plus, *final(self)),
    {
        let length: usize = self.raw_pts.len();
        if length > 0 {
            let gap = distance(point, self.raw_pts[length - 1]);
            self.sum_event_gap = plus(self.sum_event_gap, gap);
            self.event_gap_count += 1;
            if self.max_event_gap.lt(gap) {
                self.max_event_gap = gap;
            }
        }
        self.raw_pts.push(point);
    }

    /// Records a batch that is sent to the engine.
    pub fn note_append(&mut self, batch: &[StrokePoint])
        ensures
            *final(self) == (StrokeAudit {
                append_batches: limited(old(self).append_batches + 1),
                last_append_len: batch@.len() as usize,
                last_append_first: if batch@.len() > 0 {
                    Some(batch@[0])
                } else {
                    None
                },
                last_append_second: if batch@.len() > 1 {
                    Some(batch@[1])
                } else {
                    None
                },
                ..*old(self)
            }),
    {
        self.append_batches = self.append_batches.saturating_add(1);
        self.last_append_len = batch.len();
        self.last_append_first = if batch.len() > 0 {
            Some(batch[0])
        } else {
            None
        };
        self.last_append_second = if batch.len() > 1 {
            Some(batch[1])
        } else {
            None
        };
    }

    /// Records what the engine made of the last batch.
    pub fn note_dispatch(&mut self, uploaded_points: usize, dispatches: usize)
        ensures
            *final(self) == (StrokeAudit {
                last_core_uploaded_points: uploaded_points,
                last_core_dispatches: dispatches,
                ..*old(self)
            }),
    {
        self.last_core_uploaded_points = uploaded_points;
        self.last_core_dispatches = dispatches;
    }

    /// The audit once a sample of age `age` was seen.
    pub open spec fn with_age(self, age: Option<Single>) -> StrokeAudit {
        match age {
            Some(age) => StrokeAudit {
                last_input_latency_ms: Some(age),
                max_input_latency_ms: peak(self.max_input_latency_ms, age),
                ..self
            },
            None => self,
        }
    }

    fn note_age(&mut self, age: Option<Single>)
        ensures
            *final(self) == old(self).with_age(age),
    {
        if let Some(age) = age {
            self.last_input_latency_ms = Some(age);
            if self.max_input_latency_ms.lt(age) {
                self.max_input_latency_ms = age;
            }
        }
    }

    /// The audit once a batch of samples was seen.
    pub open spec fn with_batch_ages(
        self,
        samples: Seq<TimedSample>,
        frame_time: Double,
    ) -> StrokeAudit {
        let ages = crate::range::range_of(crate::latency::batch_ages(samples, frame_time));
        StrokeAudit {
            last_batch_source_age_ms: ages,
            max_batch_oldest_source_age_ms: match ages.max {
                Some(oldest) => peak(self.max_batch_oldest_source_age_ms, oldest),
                None => self.max_batch_oldest_source_age_ms,
            },
            ..self
        }
    }

    /// Records the ages of a batch of samples.
    pub fn record_input_batch_timestamp_ages(&mut self, samples: &[TimedSample], frame_time: Double)
        ensures
            *final(self) == old(self).with_batch_ages(samples@, frame_time),
    {
        let ages = input_batch_timestamp_age_range(samples, frame_time);
        self.last_batch_source_age_ms = ages;
        if let Some(oldest) = ages.max {
            if self.max_batch_oldest_source_age_ms.lt(oldest) {
                self.max_batch_oldest_source_age_ms = oldest;
            }
        }
    }

    /// The audit once `report` is the latest one.
    pub open spec fn with_report(self, report: InputLatencyReport) -> StrokeAudit {
        StrokeAudit {
            latest_latency: Some(report),
            max_receive_to_core_done: longest(
                self.max_receive_to_core_done,
                report.receive_to_core_done,
            ),
            max_receive_to_paint: longest(self.max_receive_to_paint, report.receive_to_paint),
            ..self
        }
    }

    fn note_report(&mut self, report: InputLatencyReport)
        ensures
            *final(self) == old(self).with_report(report),
    {
        if let Some(value) = report.receive_to_core_done {
            if value > self.max_receive_to_core_done {
                self.max_receive_to_core_done = value;
            }
        }
        if let Some(value) = report.receive_to_paint {
            if value > self.max_receive_to_paint {
                self.max_receive_to_paint = value;
            }
        }
        self.latest_latency = Some(report);
    }
}

/// Every touch event of a frame is counted in exactly one phase.
pub proof fn touch_counts_add_up(events: Seq<TouchEvent>)
    ensures
        events.len() == crate::input::events_in_phase(events, TouchPhase::Start).len()
            + crate::input::events_in_phase(events, TouchPhase::Move).len()
            + crate::input::events_in_phase(events, TouchPhase::End).len()
            + crate::input::events_in_phase(events, TouchPhase::Cancel).len(),
    decreases events.len(),
{
    reveal(Seq::filter);
    if events.len() > 0 {
        touch_counts_add_up(events.drop_last());
    }
}

/// There is one gap between every two neighboring raw points.
pub open spec fn gaps_counted(audit: StrokeAudit) -> bool {
    audit.event_gap_count == if audit.raw_pts@.len() == 0 {
        0
    } else {
        audit.raw_pts@.len() - 1
    }
}

/// Every gap is counted, from a fresh audit on and with every raw point, as long as gaps can
/// be counted, and the widest one is never forgotten.
pub proof fn every_gap_is_counted<
    F: Fn(StrokePoint, StrokePoint) -> Single,
    G: Fn(Double, Single) -> Double,
>(before: StrokeAudit, point: StrokePoint, distance: F, plus: G, after: StrokeAudit)
    requires
        before.blank() || gaps_counted(before),
        before.event_gap_count < u32::MAX,
        appended(before, point, distance, plus, after),
    ensures
        gaps_counted(before),
        gaps_counted(after),
        !after.max_event_gap.below(before.max_event_gap),
{
}

/// A recorded peak never falls, and no recorded number exceeds it.
pub proof fn peaks_do_not_fall(highest: Single, value: Single)
    ensures
        !peak(highest, value).below(highest),
        !highest.nan() ==> !peak(highest, value).below(value),
{
}

/// A sample with the moment of its receipt and the time since it was taken.
#[derive(Clone, Copy, Debug, PartialEq, Eq, Structural)]
pub struct ReceivedSample {
    pub input: StrokeInputPoint,
    pub elapsed_ms: Single,
    pub received: u64,
}

/// `after` is the tracker `before` once it took up `sample`: the sample is the preview,
/// was offered to the trail, and has a latency probe of its own.
pub open spec fn previewed<F: Fn(StrokePoint, StrokePoint) -> Single>(
    before: InputTracker,
    sample: ReceivedSample,
    frame_time: Double,
    distance_squared: F,
    after: InputTracker,
) -> bool {
    let point = crate::input::stroke_point(sample.input);
    let age = crate::latency::sample_age(
        sample.input.point.time_seconds,
        frame_time,
        sample.elapsed_ms,
    );
    let probe = InputLatencyProbe {
        sample_id: before.next_latency_sample_id,
        app_receive: sample.received,
        source_timestamp_age_ms: age,
        session_emit: None,
        core_append_start: None,
        core_append_done: None,
        paint: None,
    };
    &&& after.latest_input_preview == Some(point)
    &&& crate::lead::extended(
        before.raw_lead_points@,
        point,
        distance_squared,
        after.raw_lead_points@,
    )
    &&& after.latency_probe == Some(probe)
    &&& after.next_latency_sample_id == crate::layers::following(before.next_latency_sample_id)
    &&& after.audit == before.audit.with_age(age).with_report(probe.spans())
}

/// `after` is the tracker `before` once it took up `sample` and recorded its raw point.
pub open spec fn taken_up<
    F: Fn(StrokePoint, StrokePoint) -> Single,
    G: Fn(StrokePoint, StrokePoint) -> Single,
    H: Fn(Double, Single) -> Double,
>(
    before: InputTracker,
    sample: ReceivedSample,
    frame_time: Double,
    distance_squared: F,
    distance: G,
    plus: H,
    after: InputTracker,
) -> bool {
    exists|between: InputTracker|
        {
            &&& #[trigger] previewed(before, sample, frame_time, distance_squared, between)
            &&& appended(
                between.audit,
                crate::input::stroke_point(sample.input),
                distance,
                plus,
                after.audit,
            )
            &&& after == (InputTracker { audit: after.audit, ..between })
        }
}

/// `states` are the states of a tracker from before the first of `samples` to after the last.
pub open spec fn taken_up_in_turn<
    F: Fn(StrokePoint, StrokePoint) -> Single,
    G: Fn(StrokePoint, StrokePoint) -> Single,
    H: Fn(Double, Single) -> Double,
>(
    states: Seq<InputTracker>,
    samples: Seq<ReceivedSample>,
    frame_time: Double,
    distance_squared: F,
    distance: G,
    plus: H,
) -> bool {
    &&& states.len() == samples.len() + 1
    &&& forall|i: int|
        0 <= i < samples.len() ==> taken_up(
            states[i],
            #[trigger] samples[i],
            frame_time,
            distance_squared,
            distance,
            plus,
            states[i + 1],
        )
}

/// The raw points of a batch.
pub open spec fn raw_points(samples: Seq<ReceivedSample>) -> Seq<StrokePoint> {
    samples.map_values(|sample: ReceivedSample| crate::input::stroke_point(sample.input))
}

/// How many gaps a batch adds: one for each sample but the first point of a stroke.
pub open spec fn new_gaps(audit: StrokeAudit, samples: Seq<ReceivedSample>) -> int {
    if audit.raw_pts@.len() > 0 || samples.len() == 0 {
        samples.len() as int
    } else {
        samples.len() - 1
    }
}

/// The time stamps of a batch.
pub open spec fn time_stamps(samples: Seq<ReceivedSample>) -> Seq<TimedSample> {
    samples.map_values(
        |sample: ReceivedSample|
            TimedSample {
                time_seconds: sample.input.point.time_seconds,
                elapsed_ms: sample.elapsed_ms,
            },
    )
}

/// Everything that is tracked about the live input of a stroke.
pub struct InputTracker {
    pub audit: StrokeAudit,
    pub latest_input_preview: Option<StrokePoint>,
    pub raw_lead_points: Vec<StrokePoint>,
    pub latency_probe: Option<InputLatencyProbe>,
    pub next_latency_sample_id: u64,
}

impl InputTracker {
    /// The trail of raw points stays within its limit.
    pub open spec fn valid(self) -> bool {
        self.raw_lead_points@.len() <= crate::lead::RAW_LEAD_POINT_LIMIT
    }

    pub fn new() -> (r: InputTracker)
        ensures
            r.valid(),
            r.audit.blank(),
            r.latest_input_preview is None,
            r.raw_lead_points@.len() == 0,
            r.latency_probe is None,
            r.next_latency_sample_id == 1,
    {
        InputTracker {
            audit: StrokeAudit::new(),
            latest_input_preview: None,
            raw_lead_points: Vec::new(),
            latency_probe: None,
            next_latency_sample_id: 1,
        }
    }

    /// Takes up a sample: it becomes the preview, extends the trail, and gets a latency
    /// probe of its own. `now` is the moment of receipt, `elapsed_ms` the time since the
    /// sample was taken.
    pub fn record_input_preview_sample<F: Fn(StrokePoint, StrokePoint) -> Single>(
        &mut self,
        input: StrokeInputPoint,
        frame_time: Double,
        elapsed_ms: Single,
        now: u64,
        distance_squared: F,
    )
        requires
            forall|a: StrokePoint, b: StrokePoint| call_requires(distance_squared, (a, b)),
        ensures
            previewed(
                *old(self),
                ReceivedSample { input, elapsed_ms, received: now },
                frame_time,
                distance_squared,
                *final(self),
            ),
            old(self).valid() ==> final(self).valid(),
    {
        let preview = stroke_point_from_input(input);
        self.latest_input_preview = Some(preview);
        push_raw_lead_point(&mut self.raw_lead_points, preview, distance_squared);
        let age = input_latency_ms(input.point.time_seconds, frame_time, elapsed_ms);
        self.audit.note_age(age);
        let sample_id: u64 = self.next_latency_sample_id;
        self.next_latency_sample_id = self.next_latency_sample_id.saturating_add(1);
        self.latency_probe = Some(InputLatencyProbe::new(sample_id, now, age));
        self.update_latency_report();
    }

    /// Takes up the samples of a frame in turn, after their ages and their number were
    /// recorded. `distance_squared` and `distance` measure gaps, and `plus` adds them up.
    pub fn take_batch<
        F: Fn(StrokePoint, StrokePoint) -> Single + Copy,
        G: Fn(StrokePoint, StrokePoint) -> Single + Copy,
        H: Fn(Double, Single) -> Double + Copy,
    >(
        &mut self,
        samples: &[ReceivedSample],
        frame_time: Double,
        distance_squared: F,
        distance: G,
        plus: H,
    )
        requires
            old(self).audit.event_gap_count + new_gaps(old(self).audit, samples@) <= u32::MAX,
            forall|a: StrokePoint, b: StrokePoint| call_requires(distance_squared, (a, b)),
            forall|a: StrokePoint, b: StrokePoint| call_requires(distance, (a, b)),
            forall|sum: Double, gap: Single| call_requires(plus, (sum, gap)),
        ensures
            exists|states: Seq<InputTracker>|
                {
                    &&& #[trigger] taken_up_in_turn(
                        states,
                        samples@,
                        frame_time,
                        distance_squared,
                        distance,
                        plus,
                    )
                    &&& states[0] == old(self).with_frame(samples@, frame_time)
                    &&& states[samples@.len() as int] == *final(self)
                },
            final(self).audit.raw_pts@ == old(self).audit.raw_pts@ + raw_points(samples@),
            final(self).audit.event_gap_count == old(self).audit.event_gap_count + new_gaps(
                old(self).audit,
                samples@,
            ),
            samples@.len() > 0 ==> final(self).latest_input_preview == Some(
                crate::input::stroke_point(samples@.last().input),
            ),
            old(self).valid() ==> final(self).valid(),
    {
        self.note_ages(samples, frame_time);
        self.audit.note_raw_events(samples.len());
        let ghost started = *self;
        let ghost mut states: Seq<InputTracker> = seq![*self];
        let mut i: usize = 0;
        assert(started.audit.raw_pts@ =~= old(self).audit.raw_pts@ + raw_points(samples@.take(0)));
        while i < samples.len()
            invariant
                i <= samples@.len(),
                forall|a: StrokePoint, b: StrokePoint| call_requires(distance_squared, (a, b)),
                forall|a: StrokePoint, b: StrokePoint| call_requires(distance, (a, b)),
                forall|sum: Double, gap: Single| call_requires(plus, (sum, gap)),
                started == old(self).with_frame(samples@, frame_time),
                states.len() == i + 1,
                states[0] == started,
                states[i as int] == *self,
                forall|j: int|
                    0 <= j < i ==> taken_up(
                        states[j],
                        #[trigger] samples@[j],
                        frame_time,
                        distance_squared,
                        distance,
                        plus,
                        states[j + 1],
                    ),
                self.audit.event_gap_count == old(self).audit.event_gap_count + new_gaps(
                    old(self).audit,
                    samples@.take(i as int),
                ),
                old(self).audit.event_gap_count + new_gaps(old(self).audit, samples@) <= u32::MAX,
                self.audit.raw_pts@ == old(self).audit.raw_pts@ + raw_points(
                    samples@.take(i as int),
                ),
                i > 0 ==> self.latest_input_preview == Some(
                    crate::input::stroke_point(samples@[i - 1].input),
                ),
                old(self).valid() ==> self.valid(),
            decreases samples@.len() - i,
        {
            let sample = samples[i];
            let ghost before = *self;
            self.record_input_preview_sample(
                sample.input,
                frame_time,
                sample.elapsed_ms,
                sample.received,
                distance_squared,
            );
            let ghost between = *self;
            self.audit.note_raw_point(stroke_point_from_input(sample.input), distance, plus);
            proof {
                assert(previewed(before, sample, frame_time, distance_squared, between));
                states = states.push(*self);
            }
            i += 1;
        }
        assert(samples@.take(i as int) =~= samples@);
        assert(taken_up_in_turn(
            states,
            samples@,
            frame_time,
            distance_squared,
            distance,
            plus,
        ));
    }

    /// The tracker once the ages and the number of a frame's samples were recorded.
    pub open spec fn with_frame(
        self,
        samples: Seq<ReceivedSample>,
        frame_time: Double,
    ) -> InputTracker {
        let aged = self.audit.with_batch_ages(time_stamps(samples), frame_time);
        InputTracker {
            audit: StrokeAudit { raw_events: limited(aged.raw_events + samples.len()), ..aged },
            ..self
        }
    }

    fn note_ages(&mut self, samples: &[ReceivedSample], frame_time: Double)
        ensures
            *final(self) == (InputTracker {
                audit: old(self).audit.with_batch_ages(time_stamps(samples@), frame_time),
                ..*old(self)
            }),
    {
        let mut stamps: Vec<TimedSample> = Vec::new();
        let mut i: usize = 0;
        while i < samples.len()
            invariant
                i <= samples@.len(),
                stamps@ == time_stamps(samples@.take(i as int)),
            decreases samples@.len() - i,
        {
            stamps.push(
                TimedSample {
                    time_seconds: samples[i].input.point.time_seconds,
                    elapsed_ms: samples[i].elapsed_ms,
                },
            );
            assert(samples@.take(i + 1) =~= samples@.take(i as int).push(samples@[i as int]));
            i += 1;
        }
        assert(samples@.take(i as int) =~= samples@);
        self.audit.record_input_batch_timestamp_ages(stamps.as_slice(), frame_time);
    }

    /// Takes up the pointer's current position in a frame without samples: it is previewed,
    /// and its age is recorded, but it is no raw point.
    pub fn take_fallback<F: Fn(StrokePoint, StrokePoint) -> Single>(
        &mut self,
        sample: ReceivedSample,
        frame_time: Double,
        distance_squared: F,
    )
        requires
            forall|a: StrokePoint, b: StrokePoint| call_requires(distance_squared, (a, b)),
        ensures
            exists|between: InputTracker|
                {
                    &&& #[trigger] previewed(
                        *old(self),
                        sample,
                        frame_time,
                        distance_squared,
                        between,
                    )
                    &&& *final(self) == (InputTracker {
                        audit: between.audit.with_batch_ages(
                            time_stamps(seq![sample]),
                            frame_time,
                        ),
                        ..between
                    })
                },
            old(self).valid() ==> final(self).valid(),
    {
        self.record_input_preview_sample(
            sample.input,
            frame_time,
            sample.elapsed_ms,
            sample.received,
            distance_squared,
        );
        let mut samples: Vec<ReceivedSample> = Vec::new();
        samples.push(sample);
        assert(samples@ =~= seq![sample]);
        self.note_ages(samples.as_slice(), frame_time);
    }

    /// The tracker once its probe, if it has one, was replaced by `probe`.
    pub open spec fn with_probe(self, probe: InputLatencyProbe) -> InputTracker {
        if self.latency_probe is Some {
            InputTracker {
                latency_probe: Some(probe),
                audit: self.audit.with_report(probe.spans()),
                ..self
            }
        } else {
            self
        }
    }

    /// Marks that the input session passed the latest sample on.
    pub fn mark_latest_latency_session_emit(&mut self, now: u64)
        ensures
            *final(self) == old(self).with_probe(
                InputLatencyProbe { session_emit: Some(now), ..old(self).latency_probe->0 },
            ),
    {
        if let Some(mut probe) = self.latency_probe {
            probe.session_emit = Some(now);
            self.latency_probe = Some(probe);
            self.update_latency_report();
        }
    }

    /// Marks when the engine began and finished to append the latest sample.
    pub fn mark_latest_latency_core_append(&mut self, start: u64, done: u64)
        ensures
            *final(self) == old(self).with_probe(
                InputLatencyProbe {
                    core_append_start: Some(start),
                    core_append_done: Some(done),
                    ..old(self).latency_probe->0
                },
            ),
    {
        if let Some(mut probe) = self.latency_probe {
            probe.core_append_start = Some(start);
            probe.core_append_done = Some(done);
            self.latency_probe = Some(probe);
            self.update_latency_report();
        }
    }

    /// Marks that the latest sample was painted.
    pub fn mark_latest_latency_paint(&mut self, now: u64)
        ensures
            *final(self) == old(self).with_probe(
                InputLatencyProbe { paint: Some(now), ..old(self).latency_probe->0 },
            ),
    {
        if let Some(mut probe) = self.latency_probe {
            probe.paint = Some(now);
            self.latency_probe = Some(probe);
            self.update_latency_report();
        }
    }

    /// Brings the latest report and the longest spans up to date with the probe.
    pub fn update_latency_report(&mut self)
        ensures
            old(self).latency_probe is None ==> *final(self) == *old(self),
            old(self).latency_probe is Some ==> *final(self) == (InputTracker {
                audit: old(self).audit.with_report(old(self).latency_probe->0.spans()),
                ..*old(self)
            }),
    {
        if let Some(probe) = self.latency_probe {
            self.audit.note_report(probe.report());
        }
    }

    /// Forgets the preview, the trail and the probe.
    pub fn reset_active_stroke_tracking(&mut self)
        ensures
            final(self).latest_input_preview is None,
            final(self).raw_lead_points@.len() == 0,
            final(self).latency_probe is None,
            final(self).audit == old(self).audit,
            final(self).next_latency_sample_id == old(self).next_latency_sample_id,
            final(self).valid(),
    {
        self.latest_input_preview = None;
        self.raw_lead_points.clear();
        self.latency_probe = None;
    }
}

} // verus!
