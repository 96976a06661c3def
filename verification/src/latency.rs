//! Latency of input samples, from their time stamp to the paint that shows them.
//!
//! Moments are nanoseconds on a monotonic clock; spans between them are nanoseconds too.

use crate::range::SingleRange;
use crate::scalar::{Double, Single};
use vstd::prelude::*;

verus! {

/// When a sample passed the stages of its way to the screen.
#[derive(Clone, Copy, Debug, PartialEq, Eq, Structural)]
pub struct InputLatencyProbe {
    pub sample_id: u64,
    pub app_receive: u64,
    pub source_timestamp_age_ms: Option<Single>,
    pub session_emit: Option<u64>,
    pub core_append_start: Option<u64>,
    pub core_append_done: Option<u64>,
    pub paint: Option<u64>,
}

/// How long a sample took between the stages it has passed.
#[derive(Clone, Copy, Debug, PartialEq, Eq, Structural)]
pub struct InputLatencyReport {
    pub sample_id: u64,
    pub source_timestamp_age_ms: Option<Single>,
    pub receive_to_session: Option<u64>,
    pub receive_to_core_done: Option<u64>,
    pub core_append: Option<u64>,
    pub receive_to_paint: Option<u64>,
}

/// The span from `earlier` to `later`, which is empty if they are out of order.
pub open spec fn span(earlier: u64, later: u64) -> u64 {
    if later > earlier {
        (later - earlier) as u64
    } else {
        0
    }
}

/// The span from `earlier` to a moment that may not have come yet.
pub open spec fn span_to(earlier: u64, later: Option<u64>) -> Option<u64> {
    match later {
        Some(moment) => Some(span(earlier, moment)),
        None => None,
    }
}

fn elapsed(earlier: u64, later: Option<u64>) -> (r: Option<u64>)
    ensures
        r == span_to(earlier, later),
{
    match later {
        Some(moment) => Some(moment.saturating_sub(earlier)),
        None => None,
    }
}

impl InputLatencyProbe {
    pub fn new(sample_id: u64, app_receive: u64, source_timestamp_age_ms: Option<Single>) -> (r:
        InputLatencyProbe)
        ensures
            r == (InputLatencyProbe {
                sample_id,
                app_receive,
                source_timestamp_age_ms,
                session_emit: None,
                core_append_start: None,
                core_append_done: None,
                paint: None,
            }),
    {
        InputLatencyProbe {
            sample_id,
            app_receive,
            source_timestamp_age_ms,
            session_emit: None,
            core_append_start: None,
            core_append_done: None,
            paint: None,
        }
    }

    /// The spans between the stages that were passed.
    pub open spec fn spans(self) -> InputLatencyReport {
        InputLatencyReport {
            sample_id: self.sample_id,
            source_timestamp_age_ms: self.source_timestamp_age_ms,
            receive_to_session: span_to(self.app_receive, self.session_emit),
            receive_to_core_done: span_to(self.app_receive, self.core_append_done),
            core_append: match self.core_append_start {
                Some(start) => span_to(start, self.core_append_done),
                None => None,
            },
            receive_to_paint: span_to(self.app_receive, self.paint),
        }
    }

    pub fn report(self) -> (r: InputLatencyReport)
        ensures
            r == self.spans(),
    {
        InputLatencyReport {
            sample_id: self.sample_id,
            source_timestamp_age_ms: self.source_timestamp_age_ms,
            receive_to_session: elapsed(self.app_receive, self.session_emit),
            receive_to_core_done: elapsed(self.app_receive, self.core_append_done),
            core_append: match self.core_append_start {
                Some(start) => elapsed(start, self.core_append_done),
                None => None,
            },
            receive_to_paint: elapsed(self.app_receive, self.paint),
        }
    }
}

/// A sample that passes its stages in order spends no longer in the engine than it takes
/// to leave the engine, and no longer for that than it takes to be painted.
pub proof fn stages_in_order_nest(probe: InputLatencyProbe)
    requires
        probe.core_append_start is Some,
        probe.core_append_done is Some,
        probe.paint is Some,
        probe.app_receive <= probe.core_append_start->0 <= probe.core_append_done->0
            <= probe.paint->0,
    ensures
        probe.spans().core_append->0 <= probe.spans().receive_to_core_done->0,
        probe.spans().receive_to_core_done->0 <= probe.spans().receive_to_paint->0,
        probe.spans().receive_to_core_done->0 == (probe.core_append_start->0 - probe.app_receive)
            + probe.spans().core_append->0,
{
}

/// The age of a sample taken at `sample_time` in a frame at `frame_time`, unless one of
/// the clocks gave no finite time. A sample from the future has the age zero.
pub open spec fn sample_age(sample_time: Double, frame_time: Double, elapsed_ms: Single) -> Option<
    Single,
> {
    if sample_time.finite() && frame_time.finite() {
        Some(elapsed_ms.larger(Single { bits: 0 }))
    } else {
        None
    }
}

/// The age of a sample in milliseconds. `elapsed_ms` is `frame_time` minus `sample_time`,
/// turned into milliseconds.
pub fn input_latency_ms(sample_time: Double, frame_time: Double, elapsed_ms: Single) -> (r: Option<
    Single,
>)
    ensures
        r == sample_age(sample_time, frame_time, elapsed_ms),
{
    if sample_time.is_finite() && frame_time.is_finite() {
        Some(elapsed_ms.max(Single::zero()))
    } else {
        None
    }
}

/// No sample is younger than the frame that shows it.
pub proof fn ages_are_not_negative(sample_time: Double, frame_time: Double, elapsed_ms: Single)
    ensures
        sample_age(sample_time, frame_time, elapsed_ms) matches Some(age) ==> !age.nan()
            && age.rank() >= 0,
{
}

/// When a sample was taken, and how many milliseconds later its frame came.
#[derive(Clone, Copy, Debug, PartialEq, Eq, Structural)]
pub struct TimedSample {
    pub time_seconds: Double,
    pub elapsed_ms: Single,
}

/// The ages of a batch of samples.
pub open spec fn batch_ages(samples: Seq<TimedSample>, frame_time: Double) -> Seq<Option<Single>> {
    samples.map_values(
        |sample: TimedSample| sample_age(sample.time_seconds, frame_time, sample.elapsed_ms),
    )
}

/// The ages of the newest and of the oldest sample of a batch, as the ends of a range.
pub fn input_batch_timestamp_age_range(samples: &[TimedSample], frame_time: Double) -> (r:
    SingleRange)
    ensures
        r == crate::range::range_of(batch_ages(samples@, frame_time)),
{
    let mut ages = SingleRange::empty();
    let mut i: usize = 0;
    assert(batch_ages(samples@.take(0), frame_time) =~= Seq::empty());
    while i < samples.len()
        invariant
            i <= samples@.len(),
            ages == crate::range::range_of(batch_ages(samples@.take(i as int), frame_time)),
        decreases samples@.len() - i,
    {
        let age = input_latency_ms(samples[i].time_seconds, frame_time, samples[i].elapsed_ms);
        ages.note(age);
        assert(batch_ages(samples@.take(i + 1), frame_time).drop_last() =~= batch_ages(
            samples@.take(i as int),
            frame_time,
        ));
        i += 1;
    }
    assert(samples@.take(i as int) =~= samples@);
    ages
}

/// In a batch with a valid time stamp, the newest sample is not older than the oldest one.
pub proof fn newest_is_not_older(samples: Seq<TimedSample>, frame_time: Double, i: int)
    requires
        0 <= i < samples.len(),
        samples[i].time_seconds.finite(),
        frame_time.finite(),
    ensures
        ({
            let ages = crate::range::range_of(batch_ages(samples, frame_time));
            &&& ages.min is Some
            &&& ages.max is Some
            &&& ages.min->0.at_most(ages.max->0)
        }),
{
    let values = batch_ages(samples, frame_time);
    crate::range::range_is_tight(values);
    assert(values[i] is Some);
    ages_are_not_negative(samples[i].time_seconds, frame_time, samples[i].elapsed_ms);
}

} // verus!
