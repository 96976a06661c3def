//! What is measured about the input, and how values are compared and rounded.

use crate::audit::{InputTracker, NativeStats, ReceivedSample, StrokeAudit};
use crate::geometry::StrokePoint;
use crate::input::{StrokeInputPoint, StrokeInputSource, TouchEvent, TouchPhase};
use crate::latency::{InputLatencyProbe, InputLatencyReport, TimedSample};
use crate::laws::strokes::marks;
use crate::range::SingleRange;
use crate::scalar::{Double, Single};
use vstd::prelude::*;

verus! {

/// The highest value seen is kept, and gives way to a higher one alone.
pub open spec fn highest_kept(before: Single, value: Single, after: Single) -> bool {
    &&& before.below(value) ==> after == value
    &&& !before.below(value) ==> after == before
}

/// Comparing two values compares the numbers that they are; a NaN compares with nothing.
pub proof fn comparisons_are_of_numbers(a: Single, b: Single, lt: bool, le: bool, eq: bool)
    requires
        call_ensures(Single::lt, (a, b), lt),
        call_ensures(Single::le, (a, b), le),
        call_ensures(Single::equals, (a, b), eq),
    ensures
        a.finite() && b.finite() ==> (lt <==> a.value() < b.value()),
        a.finite() && b.finite() ==> (le <==> a.value() <= b.value()),
        a.finite() && b.finite() ==> (eq <==> a.value() == b.value()),
        a.nan() || b.nan() ==> !lt && !le && !eq,
        !a.nan() && b.bits == 0x7f80_0000 ==> le && (lt <==> a.bits != b.bits) && (eq <==> a.bits
            == b.bits),
        !b.nan() && a.bits == 0xff80_0000 ==> le && (lt <==> a.bits != b.bits) && (eq <==> a.bits
            == b.bits),
{
    if a.finite() && b.finite() {
        crate::scalar::rank_orders_values(a, b);
    }
}

/// The larger of two numbers is one of them and not below either, the smaller not above
/// either; a NaN gives way to a number.
pub proof fn extremes_are_of_numbers(a: Single, b: Single, max: Single, min: Single)
    requires
        call_ensures(Single::max, (a, b), max),
        call_ensures(Single::min, (a, b), min),
    ensures
        max == a || max == b,
        min == a || min == b,
        a.finite() && b.finite() ==> max.value() >= a.value() && max.value() >= b.value(),
        a.finite() && b.finite() ==> min.value() <= a.value() && min.value() <= b.value(),
        a.nan() ==> max == b && min == b,
        b.nan() && !a.nan() ==> max == a && min == a,
{
    if a.finite() && b.finite() {
        crate::scalar::rank_orders_values(a, b);
    }
}

/// Some bit patterns stand for numbers, two for infinities, and the rest for nothing: the
/// exponent bits tell which.
pub proof fn bits_tell_numbers_apart(a: Single, nan: bool, finite: bool, b: Double, also: bool)
    requires
        call_ensures(Single::is_nan, (a,), nan),
        call_ensures(Single::is_finite, (a,), finite),
        call_ensures(Double::is_finite, (b,), also),
    ensures
        a.bits < 0x8000_0000 ==> (finite <==> a.bits < 0x7f80_0000),
        a.bits >= 0x8000_0000 ==> (finite <==> a.bits < 0xff80_0000),
        a.bits < 0x8000_0000 ==> (nan <==> a.bits > 0x7f80_0000),
        a.bits >= 0x8000_0000 ==> (nan <==> a.bits > 0xff80_0000),
        b.bits < 0x8000_0000_0000_0000 ==> (also <==> b.bits < 0x7ff0_0000_0000_0000),
        b.bits >= 0x8000_0000_0000_0000 ==> (also <==> b.bits < 0xfff0_0000_0000_0000),
{
}

/// The bits of a number tell its value: the sign bit negates it, one more in the exponent
/// doubles it, and steps between two exponents are equally long.
pub proof fn bits_tell_values(a: Single, b: Single, c: Single)
    requires
        a.finite(),
        b.finite(),
        c.finite(),
    ensures
        b.bits == a.bits + 0x8000_0000 ==> b.value() == -a.value(),
        0x0080_0000 <= a.bits < 0x8000_0000 && b.bits == a.bits + 0x0080_0000 ==> b.value() == 2
            * a.value(),
        b.bits == a.bits + 1 && c.bits == a.bits + 2 && c.bits < 0x8000_0000 && a.bits
            / 0x0080_0000 == c.bits / 0x0080_0000 ==> c.value() - b.value() == b.value()
            - a.value(),
        (Single { bits: 0 }).value() == 0,
        (Single { bits: 0x3f80_0000 }).value() == vstd::arithmetic::power2::pow2(149),
{
    vstd::arithmetic::power2::lemma2_to64();
    vstd::arithmetic::power2::lemma_pow2_adds(23, 126);
    let exponent = a.bits as int / 0x0080_0000;
    let fraction = a.bits as int % 0x0080_0000;
    if 0x0080_0000 <= a.bits < 0x8000_0000 && b.bits == a.bits + 0x0080_0000 {
        assert(b.bits as int / 0x0080_0000 == exponent + 1);
        assert(b.bits as int % 0x0080_0000 == fraction);
        vstd::arithmetic::power2::lemma_pow2_unfold(exponent as nat);
        let scale = vstd::arithmetic::power2::pow2((exponent - 1) as nat) as int;
        assert((0x0080_0000 + fraction) * (2 * scale) == 2 * ((0x0080_0000 + fraction) * scale))
            by (nonlinear_arith);
    }
    if b.bits == a.bits + 1 && c.bits == a.bits + 2 && c.bits < 0x8000_0000 && a.bits / 0x0080_0000
        == c.bits / 0x0080_0000 {
        assert(b.bits as int / 0x0080_0000 == exponent && c.bits as int / 0x0080_0000 == exponent);
        assert(b.bits as int % 0x0080_0000 == fraction + 1);
        assert(c.bits as int % 0x0080_0000 == fraction + 2);
        if exponent > 0 {
            let scale = vstd::arithmetic::power2::pow2((exponent - 1) as nat) as int;
            assert((0x0080_0000 + (fraction + 2)) * scale - (0x0080_0000 + (fraction + 1)) * scale
                == (0x0080_0000 + (fraction + 1)) * scale - (0x0080_0000 + fraction) * scale)
                by (nonlinear_arith);
        }
    }
}

/// Zero has no bits set.
pub proof fn zero_has_no_bits(a: Single, b: Double)
    requires
        call_ensures(Single::zero, (), a),
        call_ensures(Double::zero, (), b),
    ensures
        a.bits == 0,
        b.bits == 0,
{
}

/// A number between zero and the last pixel is rounded down to the pixel that it lies in, and
/// up to the end of the last pixel that it reaches.
pub proof fn numbers_are_rounded_to_pixels(a: Single, floor: u32, ceil: u32)
    requires
        call_ensures(Single::floor_u32, (a,), floor),
        call_ensures(Single::ceil_u32, (a,), ceil),
        a.finite(),
        0 <= a.value() <= u32::MAX * vstd::arithmetic::power2::pow2(149),
    ensures
        ({
            let one = vstd::arithmetic::power2::pow2(149) as int;
            &&& floor * one <= a.value() < (floor + 1) * one
            &&& (ceil - 1) * one < a.value() <= ceil * one
        }),
{
    crate::selection::lemma_edges_cover(a, a);
    assert(a.smaller(a) == a && a.larger(a) == a);
}

/// What lies left of the first pixel is rounded to it, and what lies right of the last pixel to
/// the last; a NaN is rounded to the first.
pub proof fn numbers_beyond_the_pixels_are_rounded_to_an_end(a: Single, floor: u32, ceil: u32)
    requires
        call_ensures(Single::floor_u32, (a,), floor),
        call_ensures(Single::ceil_u32, (a,), ceil),
    ensures
        a.nan() ==> floor == 0 && ceil == 0,
        !a.nan() && !a.finite() && a.bits >= 0x8000_0000 ==> floor == 0 && ceil == 0,
        !a.nan() && !a.finite() && a.bits < 0x8000_0000 ==> floor == u32::MAX && ceil == u32::MAX,
        a.finite() && a.value() < 0 ==> floor == 0,
{
    if a.finite() && a.value() < 0 {
        let one = vstd::arithmetic::power2::pow2(149) as int;
        vstd::arithmetic::power2::lemma_pow2_pos(149);
        vstd::arithmetic::div_mod::lemma_fundamental_div_mod(a.value(), one);
        let quotient = a.value() / one;
        assert(quotient < 0) by (nonlinear_arith)
            requires
                a.value() == one * quotient + a.value() % one,
                0 <= a.value() % one,
                a.value() < 0,
                one > 0,
        ;
    }
}

/// A measurement widens a range just as far as to reach it; a missing one does not.
pub proof fn ranges_reach_every_measurement(range: &mut SingleRange, value: Option<Single>)
    requires
        call_ensures(SingleRange::note, (range, value), ()),
    ensures
        value is None ==> *final(range) == *old(range),
        value is Some && old(range).min is None ==> final(range).min == value,
        value is Some && old(range).max is None ==> final(range).max == value,
        value is Some && old(range).min is Some && !value->0.nan() && !old(range).min->0.nan()
            ==> final(range).min is Some && final(range).min->0.at_most(value->0)
            && final(range).min->0.at_most(old(range).min->0) && (final(range).min == value
            || final(range).min == old(range).min),
        value is Some && old(range).max is Some && !value->0.nan() && !old(range).max->0.nan()
            ==> final(range).max is Some && value->0.at_most(final(range).max->0)
            && old(range).max->0.at_most(final(range).max->0) && (final(range).max == value
            || final(range).max == old(range).max),
{
}

/// A range starts without an end.
pub proof fn ranges_start_empty(range: SingleRange)
    requires
        call_ensures(SingleRange::empty, (), range),
    ensures
        range.min is None,
        range.max is None,
{
}

/// Nothing is recorded yet in a fresh audit, nor after a reset.
pub proof fn audits_start_blank(audit: StrokeAudit, reset: &mut StrokeAudit)
    requires
        call_ensures(StrokeAudit::new, (), audit),
        call_ensures(StrokeAudit::reset, (reset,), ()),
    ensures
        audit.frames == 0 && audit.raw_events == 0 && audit.ignored_touch_starts == 0,
        audit.raw_pts@.len() == 0 && audit.event_gap_count == 0 && audit.append_batches == 0,
        audit.begin_point is None && audit.begin_input_source is None,
        audit.latest_latency is None && audit.last_input_latency_ms is None,
        audit.max_event_gap.bits == 0 && audit.max_frame_dt.bits == 0,
        audit.native_pointer_events == 0 && audit.native_pointer_dropped == 0,
        audit.reanchored_touch_begins == 0,
        audit.last_touch_events == 0 && audit.last_touch_starts == 0 && audit.last_touch_moves == 0,
        audit.last_touch_ends == 0 && audit.last_touch_cancels == 0,
        audit.last_raw_force.min is None && audit.last_raw_force.max is None,
        audit.last_adapted_pressure.min is None && audit.last_adapted_pressure.max is None,
        audit.last_raw_force_missing == 0 && audit.sum_event_gap.bits == 0,
        audit.last_frame_dt.bits == 0 && audit.max_input_latency_ms.bits == 0,
        audit.last_batch_source_age_ms.min is None && audit.last_batch_source_age_ms.max is None,
        audit.max_batch_oldest_source_age_ms.bits == 0,
        audit.max_receive_to_core_done == 0 && audit.max_receive_to_paint == 0,
        audit.last_native_pointer_batch == 0 && audit.last_native_batch_max_gap.bits == 0,
        audit.max_native_batch_gap.bits == 0 && audit.native_pointer_last_error is None,
        !audit.begin_pressure_from_device,
        audit.last_append_len == 0 && audit.last_append_first is None && audit.last_append_second
            is None,
        audit.last_core_uploaded_points == 0 && audit.last_core_dispatches == 0,
        *final(reset) == (StrokeAudit { raw_pts: final(reset).raw_pts, ..audit }),
        final(reset).frames == 0 && final(reset).raw_events == 0,
        final(reset).raw_pts@.len() == 0 && final(reset).event_gap_count == 0,
        final(reset).append_batches == 0 && final(reset).begin_point is None,
        final(reset).latest_latency is None && final(reset).native_pointer_events == 0,
        final(reset).ignored_touch_starts == 0 && final(reset).reanchored_touch_begins == 0,
        final(reset).max_event_gap.bits == 0 && final(reset).max_frame_dt.bits == 0,
{
}

/// The touches of a frame are counted phase by phase, each in its own, and starts that do not
/// begin a stroke are added up.
pub proof fn touches_are_counted_by_phase(
    audit: &mut StrokeAudit,
    events: &[TouchEvent],
    starts: usize,
    moves: usize,
    ends: usize,
    cancels: usize,
)
    requires
        call_ensures(StrokeAudit::note_touch_events, (audit, events), ()),
        call_ensures(crate::input::count_phase, (events, TouchPhase::Start), starts),
        call_ensures(crate::input::count_phase, (events, TouchPhase::Move), moves),
        call_ensures(crate::input::count_phase, (events, TouchPhase::End), ends),
        call_ensures(crate::input::count_phase, (events, TouchPhase::Cancel), cancels),
        events@.len() <= usize::MAX,
    ensures
        final(audit).last_touch_starts == starts,
        final(audit).last_touch_moves == moves,
        final(audit).last_touch_ends == ends,
        final(audit).last_touch_cancels == cancels,
        final(audit).last_touch_events == events@.len(),
        starts + moves + ends + cancels == events@.len(),
        old(audit).ignored_touch_starts + starts <= u32::MAX ==> final(audit).ignored_touch_starts
            == old(audit).ignored_touch_starts + starts,
        old(audit).ignored_touch_starts + starts > u32::MAX ==> final(audit).ignored_touch_starts
            == u32::MAX,
        *final(audit) == (StrokeAudit {
            last_touch_events: final(audit).last_touch_events,
            last_touch_starts: final(audit).last_touch_starts,
            last_touch_moves: final(audit).last_touch_moves,
            last_touch_ends: final(audit).last_touch_ends,
            last_touch_cancels: final(audit).last_touch_cancels,
            ignored_touch_starts: final(audit).ignored_touch_starts,
            last_raw_force: final(audit).last_raw_force,
            last_raw_force_missing: final(audit).last_raw_force_missing,
            ..*old(audit)
        }),
{
    crate::audit::touch_counts_add_up(events@);
}

/// The lightest and the hardest touch of a frame are those of its finite forces: none is
/// lighter or harder, and they are forces of the frame.
pub proof fn forces_lie_between_the_lightest_and_the_hardest(
    audit: &mut StrokeAudit,
    events: &[TouchEvent],
    i: int,
)
    requires
        call_ensures(StrokeAudit::note_touch_events, (audit, events), ()),
        0 <= i < events@.len(),
        events@[i].force is Some,
        events@[i].force->0.finite(),
    ensures
        final(audit).last_raw_force.min is Some && final(audit).last_raw_force.max is Some,
        final(audit).last_raw_force.min->0.at_most(events@[i].force->0),
        events@[i].force->0.at_most(final(audit).last_raw_force.max->0),
        exists|j: int|
            0 <= j < events@.len() && (#[trigger] events@[j]).force
                == final(audit).last_raw_force.min,
        exists|j: int|
            0 <= j < events@.len() && (#[trigger] events@[j]).force
                == final(audit).last_raw_force.max,
{
    let forces = crate::audit::finite_forces(events@);
    crate::range::range_is_tight(forces);
    assert(forces[i] == events@[i].force);
    let a = choose|a: int|
        0 <= a < forces.len() && forces[a] == final(audit).last_raw_force.min;
    assert(events@[a].force == forces[a]);
    let b = choose|b: int|
        0 <= b < forces.len() && forces[b] == final(audit).last_raw_force.max;
    assert(events@[b].force == forces[b]);
}

/// The pressures of a batch lie between the lightest and the hardest that are recorded.
pub proof fn pressures_lie_between_the_lightest_and_the_hardest(
    audit: &mut StrokeAudit,
    points: &[StrokeInputPoint],
    i: int,
)
    requires
        call_ensures(StrokeAudit::record_adapted_pressure_range, (audit, points), ()),
        0 <= i < points@.len(),
        points@[i].point.pressure.finite(),
    ensures
        final(audit).last_adapted_pressure.min is Some,
        final(audit).last_adapted_pressure.max is Some,
        final(audit).last_adapted_pressure.min->0.at_most(points@[i].point.pressure),
        points@[i].point.pressure.at_most(final(audit).last_adapted_pressure.max->0),
        *final(audit) == (StrokeAudit {
            last_adapted_pressure: final(audit).last_adapted_pressure,
            ..*old(audit)
        }),
{
    let pressures = crate::audit::finite_pressures(points@);
    crate::range::range_is_tight(pressures);
    assert(pressures[i] == Some(points@[i].point.pressure));
}

/// Native batches are added up, and what the capture last said of itself is kept.
pub proof fn native_batches_are_added_up(
    audit: &mut StrokeAudit,
    count: usize,
    stats: Option<NativeStats>,
)
    requires
        call_ensures(StrokeAudit::note_native_batch, (audit, count, stats), ()),
    ensures
        final(audit).last_native_pointer_batch == count,
        old(audit).native_pointer_events + count <= u32::MAX ==> final(audit).native_pointer_events
            == old(audit).native_pointer_events + count,
        old(audit).native_pointer_events + count > u32::MAX ==> final(audit).native_pointer_events
            == u32::MAX,
        stats is Some ==> final(audit).native_pointer_dropped == stats->0.dropped_events
            && final(audit).native_pointer_last_error == stats->0.last_error,
        stats is None ==> final(audit).native_pointer_dropped == old(audit).native_pointer_dropped
            && final(audit).native_pointer_last_error == old(audit).native_pointer_last_error,
        *final(audit) == (StrokeAudit {
            last_native_pointer_batch: final(audit).last_native_pointer_batch,
            native_pointer_events: final(audit).native_pointer_events,
            native_pointer_dropped: final(audit).native_pointer_dropped,
            native_pointer_last_error: final(audit).native_pointer_last_error,
            ..*old(audit)
        }),
{
}

/// The widest native gap so far is kept, beside the latest one.
pub proof fn the_widest_native_gap_is_kept(audit: &mut StrokeAudit, gap: Single)
    requires
        call_ensures(StrokeAudit::note_native_gap, (audit, gap), ()),
    ensures
        final(audit).last_native_batch_max_gap == gap,
        highest_kept(old(audit).max_native_batch_gap, gap, final(audit).max_native_batch_gap),
        *final(audit) == (StrokeAudit {
            last_native_batch_max_gap: final(audit).last_native_batch_max_gap,
            max_native_batch_gap: final(audit).max_native_batch_gap,
            ..*old(audit)
        }),
{
}

/// A drag that starts counts from nothing, with the native samples of its first frame.
pub proof fn drags_count_from_nothing(
    audit: &mut StrokeAudit,
    count: usize,
    stats: Option<NativeStats>,
    fresh: StrokeAudit,
)
    requires
        call_ensures(StrokeAudit::start_drag, (audit, count, stats), ()),
        call_ensures(StrokeAudit::new, (), fresh),
    ensures
        stats is Some ==> final(audit).native_pointer_dropped == stats->0.dropped_events
            && final(audit).native_pointer_last_error == stats->0.last_error,
        stats is None ==> final(audit).native_pointer_dropped == 0
            && final(audit).native_pointer_last_error is None,
        *final(audit) == (StrokeAudit {
            last_native_pointer_batch: final(audit).last_native_pointer_batch,
            native_pointer_events: final(audit).native_pointer_events,
            native_pointer_dropped: final(audit).native_pointer_dropped,
            native_pointer_last_error: final(audit).native_pointer_last_error,
            raw_pts: final(audit).raw_pts,
            ..fresh
        }),
        final(audit).frames == 0 && final(audit).raw_events == 0,
        final(audit).raw_pts@.len() == 0 && final(audit).event_gap_count == 0,
        final(audit).append_batches == 0 && final(audit).begin_point is None,
        final(audit).last_native_pointer_batch == count,
        count <= u32::MAX ==> final(audit).native_pointer_events == count,
{
}

/// What a stroke began with is recorded as it was, and beginning it anew counts.
pub proof fn beginnings_are_recorded(
    audit: &mut StrokeAudit,
    point: StrokePoint,
    from_device: bool,
    source: StrokeInputSource,
    anew: &mut StrokeAudit,
    other: StrokePoint,
    also: bool,
)
    requires
        call_ensures(StrokeAudit::note_begin, (audit, point, from_device, source), ()),
        call_ensures(StrokeAudit::note_reanchor, (anew, other, also), ()),
    ensures
        final(audit).begin_point == Some(point),
        final(audit).begin_pressure_from_device == from_device,
        final(audit).begin_input_source == Some(source),
        *final(audit) == (StrokeAudit {
            begin_point: final(audit).begin_point,
            begin_pressure_from_device: final(audit).begin_pressure_from_device,
            begin_input_source: final(audit).begin_input_source,
            ..*old(audit)
        }),
        *final(anew) == (StrokeAudit {
            begin_point: final(anew).begin_point,
            begin_pressure_from_device: final(anew).begin_pressure_from_device,
            begin_input_source: final(anew).begin_input_source,
            reanchored_touch_begins: final(anew).reanchored_touch_begins,
            ..*old(anew)
        }),
        final(anew).begin_point == Some(other),
        final(anew).begin_pressure_from_device == also,
        final(anew).begin_input_source == Some(StrokeInputSource::Touch),
        old(anew).reanchored_touch_begins < u32::MAX ==> final(anew).reanchored_touch_begins
            == old(anew).reanchored_touch_begins + 1,
{
}

/// Frames are counted one by one, with the latest and the longest of them; samples are added
/// up.
pub proof fn frames_and_samples_are_counted(
    audit: &mut StrokeAudit,
    frame_dt: Single,
    events: &mut StrokeAudit,
    count: usize,
)
    requires
        call_ensures(StrokeAudit::note_frame, (audit, frame_dt), ()),
        old(audit).frames < u32::MAX,
        call_ensures(StrokeAudit::note_raw_events, (events, count), ()),
    ensures
        final(audit).frames == old(audit).frames + 1,
        final(audit).last_frame_dt == frame_dt,
        highest_kept(old(audit).max_frame_dt, frame_dt, final(audit).max_frame_dt),
        *final(audit) == (StrokeAudit {
            frames: final(audit).frames,
            last_frame_dt: final(audit).last_frame_dt,
            max_frame_dt: final(audit).max_frame_dt,
            ..*old(audit)
        }),
        old(events).raw_events + count <= u32::MAX ==> final(events).raw_events
            == old(events).raw_events + count,
        old(events).raw_events + count > u32::MAX ==> final(events).raw_events == u32::MAX,
        *final(events) == (StrokeAudit { raw_events: final(events).raw_events, ..*old(events) }),
{
}

/// Raw points are recorded in order, with the gap between each and the one before: it is
/// counted, added to the sum, and kept if it is the widest.
pub proof fn raw_points_are_recorded_with_their_gaps<
    F: Fn(StrokePoint, StrokePoint) -> Single,
    G: Fn(Double, Single) -> Double,
>(audit: &mut StrokeAudit, point: StrokePoint, distance: F, plus: G)
    requires
        call_ensures(StrokeAudit::note_raw_point::<F, G>, (audit, point, distance, plus), ()),
        old(audit).event_gap_count < u32::MAX,
    ensures
        final(audit).raw_pts@.len() == old(audit).raw_pts@.len() + 1,
        final(audit).raw_pts@.last() == point,
        forall|i: int|
            0 <= i < old(audit).raw_pts@.len() ==> final(audit).raw_pts@[i]
                == #[trigger] old(audit).raw_pts@[i],
        old(audit).raw_pts@.len() == 0 ==> final(audit).event_gap_count
            == old(audit).event_gap_count && final(audit).sum_event_gap
            == old(audit).sum_event_gap && final(audit).max_event_gap == old(audit).max_event_gap,
        old(audit).raw_pts@.len() > 0 ==> final(audit).event_gap_count
            == old(audit).event_gap_count + 1,
        old(audit).raw_pts@.len() > 0 ==> exists|gap: Single| #[trigger]
            call_ensures(distance, (point, old(audit).raw_pts@.last()), gap) && call_ensures(
                plus,
                (old(audit).sum_event_gap, gap),
                final(audit).sum_event_gap,
            ) && highest_kept(old(audit).max_event_gap, gap, final(audit).max_event_gap),
        *final(audit) == (StrokeAudit {
            raw_pts: final(audit).raw_pts,
            sum_event_gap: final(audit).sum_event_gap,
            event_gap_count: final(audit).event_gap_count,
            max_event_gap: final(audit).max_event_gap,
            ..*old(audit)
        }),
{
}

/// The mean gap is the sum of the gaps over their number, and zero without one.
pub proof fn the_mean_gap_is_sum_over_number<F: Fn(Double, u32) -> Double>(
    audit: StrokeAudit,
    divide: F,
    mean: Double,
)
    requires
        call_ensures(StrokeAudit::avg_event_gap::<F>, (&audit, divide), mean),
    ensures
        audit.event_gap_count == 0 ==> mean.bits == 0,
        audit.event_gap_count > 0 ==> call_ensures(
            divide,
            (audit.sum_event_gap, audit.event_gap_count),
            mean,
        ),
{
}

/// Batches and dispatches are recorded as they were.
pub proof fn appends_and_dispatches_are_recorded(
    audit: &mut StrokeAudit,
    batch: &[StrokePoint],
    dispatched: &mut StrokeAudit,
    uploaded: usize,
    dispatches: usize,
)
    requires
        call_ensures(StrokeAudit::note_append, (audit, batch), ()),
        call_ensures(StrokeAudit::note_dispatch, (dispatched, uploaded, dispatches), ()),
    ensures
        old(audit).append_batches < u32::MAX ==> final(audit).append_batches
            == old(audit).append_batches + 1,
        final(audit).last_append_len == batch@.len() as usize,
        final(audit).last_append_first is Some <==> batch@.len() > 0,
        batch@.len() > 0 ==> final(audit).last_append_first == Some(batch@[0]),
        final(audit).last_append_second is Some <==> batch@.len() > 1,
        batch@.len() > 1 ==> final(audit).last_append_second == Some(batch@[1]),
        *final(audit) == (StrokeAudit {
            append_batches: final(audit).append_batches,
            last_append_len: final(audit).last_append_len,
            last_append_first: final(audit).last_append_first,
            last_append_second: final(audit).last_append_second,
            ..*old(audit)
        }),
        *final(dispatched) == (StrokeAudit {
            last_core_uploaded_points: final(dispatched).last_core_uploaded_points,
            last_core_dispatches: final(dispatched).last_core_dispatches,
            ..*old(dispatched)
        }),
        final(dispatched).last_core_uploaded_points == uploaded,
        final(dispatched).last_core_dispatches == dispatches,
{
}

/// A sample is as old as the time since it was taken, but no younger than now, and of no known
/// age if a clock gave no time.
pub proof fn samples_are_as_old_as_they_are(
    taken: Double,
    frame: Double,
    elapsed_ms: Single,
    age: Option<Single>,
)
    requires
        call_ensures(crate::latency::input_latency_ms, (taken, frame, elapsed_ms), age),
    ensures
        age is Some <==> taken.finite() && frame.finite(),
        age is Some && (Single { bits: 0 }).at_most(elapsed_ms) ==> age->0.same_number(elapsed_ms),
        age is Some && !(Single { bits: 0 }).at_most(elapsed_ms) ==> age->0.bits == 0,
{
}

/// The ages of a batch lie between that of its newest and that of its oldest sample.
pub proof fn batches_are_as_old_as_their_samples(
    samples: &[TimedSample],
    frame: Double,
    ages: SingleRange,
    i: int,
    age: Option<Single>,
)
    requires
        call_ensures(crate::latency::input_batch_timestamp_age_range, (samples, frame), ages),
        0 <= i < samples@.len(),
        call_ensures(
            crate::latency::input_latency_ms,
            (samples@[i].time_seconds, frame, samples@[i].elapsed_ms),
            age,
        ),
        age is Some,
    ensures
        ages.min is Some && ages.max is Some,
        ages.min->0.at_most(age->0),
        age->0.at_most(ages.max->0),
{
    let values = crate::latency::batch_ages(samples@, frame);
    crate::range::range_is_tight(values);
    assert(values[i] == age);
}

/// A batch without a valid time stamp has no age, and the ends of a range of ages are ages of
/// the batch.
pub proof fn ages_of_a_batch_are_of_its_samples(
    samples: &[TimedSample],
    frame: Double,
    ages: SingleRange,
)
    requires
        call_ensures(crate::latency::input_batch_timestamp_age_range, (samples, frame), ages),
        ages.min is Some || ages.max is Some,
    ensures
        frame.finite(),
        exists|i: int| 0 <= i < samples@.len() && (#[trigger] samples@[i]).time_seconds.finite(),
{
    let values = crate::latency::batch_ages(samples@, frame);
    crate::range::range_is_tight(values);
    let i = choose|i: int| 0 <= i < values.len() && values[i] == ages.min;
    assert(samples@[i].time_seconds.finite());
}

/// The oldest age of all batches is kept, beside the ages of the latest one.
pub proof fn the_oldest_batch_is_kept(
    audit: &mut StrokeAudit,
    samples: &[TimedSample],
    frame: Double,
    ages: SingleRange,
)
    requires
        call_ensures(
            StrokeAudit::record_input_batch_timestamp_ages,
            (audit, samples, frame),
            (),
        ),
        call_ensures(crate::latency::input_batch_timestamp_age_range, (samples, frame), ages),
    ensures
        final(audit).last_batch_source_age_ms == ages,
        ages.max is None ==> final(audit).max_batch_oldest_source_age_ms
            == old(audit).max_batch_oldest_source_age_ms,
        ages.max is Some ==> highest_kept(
            old(audit).max_batch_oldest_source_age_ms,
            ages.max->0,
            final(audit).max_batch_oldest_source_age_ms,
        ),
        *final(audit) == (StrokeAudit {
            last_batch_source_age_ms: final(audit).last_batch_source_age_ms,
            max_batch_oldest_source_age_ms: final(audit).max_batch_oldest_source_age_ms,
            ..*old(audit)
        }),
{
}

/// A probe starts with the receipt of its sample, and has passed no later stage.
pub proof fn probes_start_with_the_receipt(
    id: u64,
    received: u64,
    age: Option<Single>,
    probe: InputLatencyProbe,
)
    requires
        call_ensures(InputLatencyProbe::new, (id, received, age), probe),
    ensures
        probe.sample_id == id,
        probe.app_receive == received,
        probe.source_timestamp_age_ms == age,
        probe.session_emit is None && probe.core_append_start is None,
        probe.core_append_done is None && probe.paint is None,
{
}

/// A report tells the time from the receipt, or from the start of an append, to each stage
/// that was passed in order, and nothing of a stage that was not passed.
pub proof fn reports_tell_the_time_between_stages(
    probe: InputLatencyProbe,
    report: InputLatencyReport,
)
    requires
        call_ensures(InputLatencyProbe::report, (probe,), report),
    ensures
        report.sample_id == probe.sample_id,
        report.source_timestamp_age_ms == probe.source_timestamp_age_ms,
        report.receive_to_session is Some <==> probe.session_emit is Some,
        probe.session_emit is Some && probe.app_receive <= probe.session_emit->0
            ==> probe.app_receive + report.receive_to_session->0 == probe.session_emit->0,
        report.receive_to_core_done is Some <==> probe.core_append_done is Some,
        probe.core_append_done is Some && probe.app_receive <= probe.core_append_done->0
            ==> probe.app_receive + report.receive_to_core_done->0 == probe.core_append_done->0,
        report.core_append is Some <==> probe.core_append_start is Some && probe.core_append_done
            is Some,
        report.core_append is Some && probe.core_append_start->0 <= probe.core_append_done->0
            ==> probe.core_append_start->0 + report.core_append->0 == probe.core_append_done->0,
        report.receive_to_paint is Some <==> probe.paint is Some,
        probe.paint is Some && probe.app_receive <= probe.paint->0 ==> probe.app_receive
            + report.receive_to_paint->0 == probe.paint->0,
        probe.paint is Some && probe.app_receive > probe.paint->0 ==> report.receive_to_paint->0
            == 0,
{
}

/// Each stage that the latest sample passes is marked in its probe, and nothing else of the
/// probe changes; without a probe nothing is marked.
pub proof fn stages_are_marked_in_the_probe(
    emit: &mut InputTracker,
    append: &mut InputTracker,
    paint: &mut InputTracker,
    now: u64,
    start: u64,
    done: u64,
)
    requires
        call_ensures(InputTracker::mark_latest_latency_session_emit, (emit, now), ()),
        call_ensures(InputTracker::mark_latest_latency_core_append, (append, start, done), ()),
        call_ensures(InputTracker::mark_latest_latency_paint, (paint, now), ()),
    ensures
        old(emit).latency_probe is None ==> *final(emit) == *old(emit),
        old(append).latency_probe is None ==> *final(append) == *old(append),
        old(paint).latency_probe is None ==> *final(paint) == *old(paint),
        old(emit).latency_probe is Some ==> final(emit).latency_probe == Some(
            InputLatencyProbe { session_emit: Some(now), ..old(emit).latency_probe->0 },
        ),
        old(append).latency_probe is Some ==> final(append).latency_probe == Some(
            InputLatencyProbe {
                core_append_start: Some(start),
                core_append_done: Some(done),
                ..old(append).latency_probe->0
            },
        ),
        old(paint).latency_probe is Some ==> final(paint).latency_probe == Some(
            InputLatencyProbe { paint: Some(now), ..old(paint).latency_probe->0 },
        ),
        final(paint).raw_lead_points == old(paint).raw_lead_points,
        final(append).raw_lead_points == old(append).raw_lead_points,
        final(emit).raw_lead_points == old(emit).raw_lead_points,
{
}

/// The latest report is that of the probe as it stands, and the longest times to the engine
/// and to the screen are kept.
pub proof fn the_latest_report_is_of_the_probe(
    tracker: &mut InputTracker,
    report: InputLatencyReport,
)
    requires
        call_ensures(InputTracker::update_latency_report, (tracker,), ()),
        old(tracker).latency_probe is Some,
        call_ensures(InputLatencyProbe::report, (old(tracker).latency_probe->0,), report),
    ensures
        final(tracker).audit.latest_latency == Some(report),
        report.receive_to_paint is Some ==> final(tracker).audit.max_receive_to_paint
            >= report.receive_to_paint->0,
        report.receive_to_core_done is Some ==> final(tracker).audit.max_receive_to_core_done
            >= report.receive_to_core_done->0,
        final(tracker).audit.max_receive_to_paint >= old(tracker).audit.max_receive_to_paint,
        final(tracker).audit.max_receive_to_core_done
            >= old(tracker).audit.max_receive_to_core_done,
        final(tracker).audit.max_receive_to_paint == old(tracker).audit.max_receive_to_paint
            || report.receive_to_paint == Some(final(tracker).audit.max_receive_to_paint),
        final(tracker).audit.max_receive_to_core_done == old(
            tracker,
        ).audit.max_receive_to_core_done || report.receive_to_core_done == Some(
            final(tracker).audit.max_receive_to_core_done,
        ),
        *final(tracker) == (InputTracker { audit: final(tracker).audit, ..*old(tracker) }),
{
}

/// A frame's samples are all recorded, in order, behind those before; they are counted, and the
/// last one is previewed.
pub proof fn frames_record_every_sample<
    F: Fn(StrokePoint, StrokePoint) -> Single + Copy,
    G: Fn(StrokePoint, StrokePoint) -> Single + Copy,
    H: Fn(Double, Single) -> Double + Copy,
>(
    tracker: &mut InputTracker,
    samples: &[ReceivedSample],
    frame: Double,
    distance_squared: F,
    distance: G,
    plus: H,
    i: int,
)
    requires
        call_ensures(
            InputTracker::take_batch::<F, G, H>,
            (tracker, samples, frame, distance_squared, distance, plus),
            (),
        ),
        0 <= i < samples@.len(),
    ensures
        final(tracker).audit.raw_pts@.len() == old(tracker).audit.raw_pts@.len() + samples@.len(),
        marks(
            final(tracker).audit.raw_pts@[old(tracker).audit.raw_pts@.len() + i],
            samples@[i].input,
        ),
        forall|j: int|
            0 <= j < old(tracker).audit.raw_pts@.len() ==> final(tracker).audit.raw_pts@[j]
                == #[trigger] old(tracker).audit.raw_pts@[j],
        final(tracker).latest_input_preview is Some,
        marks(final(tracker).latest_input_preview->0, samples@[samples@.len() - 1].input),
{
}

/// A sample is previewed where it was taken, timed under a number of its own from its receipt
/// on, and its age is recorded.
pub proof fn samples_are_previewed_and_timed<F: Fn(StrokePoint, StrokePoint) -> Single>(
    tracker: &mut InputTracker,
    input: StrokeInputPoint,
    frame: Double,
    elapsed_ms: Single,
    now: u64,
    distance_squared: F,
    age: Option<Single>,
    coincides: bool,
)
    requires
        old(tracker).raw_lead_points@.len() > 0 ==> forall|point: StrokePoint, gap: Single|
            marks(point, input) && #[trigger] call_ensures(
                distance_squared,
                (point, old(tracker).raw_lead_points@.last()),
                gap,
            ) ==> coincides == gap.at_most(Single { bits: 0x3400_0000 }),
        old(tracker).raw_lead_points@.len() <= 96,
        call_ensures(
            InputTracker::record_input_preview_sample::<F>,
            (tracker, input, frame, elapsed_ms, now, distance_squared),
            (),
        ),
        call_ensures(
            crate::latency::input_latency_ms,
            (input.point.time_seconds, frame, elapsed_ms),
            age,
        ),
    ensures
        final(tracker).latest_input_preview is Some,
        marks(final(tracker).latest_input_preview->0, input),
        final(tracker).latency_probe is Some,
        final(tracker).latency_probe->0.sample_id == old(tracker).next_latency_sample_id,
        final(tracker).latency_probe->0.app_receive == now,
        final(tracker).latency_probe->0.source_timestamp_age_ms == age,
        final(tracker).latency_probe->0.paint is None,
        old(tracker).next_latency_sample_id < u64::MAX ==> final(tracker).next_latency_sample_id
            == old(tracker).next_latency_sample_id + 1,
        age is Some ==> final(tracker).audit.last_input_latency_ms == age && highest_kept(
            old(tracker).audit.max_input_latency_ms,
            age->0,
            final(tracker).audit.max_input_latency_ms,
        ),
        age is None ==> final(tracker).audit.last_input_latency_ms == old(
            tracker,
        ).audit.last_input_latency_ms,
        final(tracker).audit.raw_pts == old(tracker).audit.raw_pts,
        old(tracker).raw_lead_points@.len() == 0 ==> final(tracker).raw_lead_points@.len() == 1
            && marks(final(tracker).raw_lead_points@[0], input),
        old(tracker).raw_lead_points@.len() > 0 && coincides ==> final(tracker).raw_lead_points@
            == old(tracker).raw_lead_points@,
        0 < old(tracker).raw_lead_points@.len() < 96 && !coincides
            ==> final(tracker).raw_lead_points@ == old(tracker).raw_lead_points@.push(
            final(tracker).latest_input_preview->0,
        ),
        old(tracker).raw_lead_points@.len() == 96 && !coincides
            ==> final(tracker).raw_lead_points@
            == old(tracker).raw_lead_points@.drop_first().push(
            final(tracker).latest_input_preview->0,
        ),
        *final(tracker) == (InputTracker {
            audit: StrokeAudit {
                last_input_latency_ms: final(tracker).audit.last_input_latency_ms,
                max_input_latency_ms: final(tracker).audit.max_input_latency_ms,
                latest_latency: final(tracker).audit.latest_latency,
                max_receive_to_core_done: final(tracker).audit.max_receive_to_core_done,
                max_receive_to_paint: final(tracker).audit.max_receive_to_paint,
                ..old(tracker).audit
            },
            latest_input_preview: final(tracker).latest_input_preview,
            raw_lead_points: final(tracker).raw_lead_points,
            latency_probe: final(tracker).latency_probe,
            next_latency_sample_id: final(tracker).next_latency_sample_id,
        }),
        final(tracker).audit.latest_latency is Some && final(tracker).audit.latest_latency->0
            == (InputLatencyReport {
            sample_id: old(tracker).next_latency_sample_id,
            source_timestamp_age_ms: age,
            receive_to_session: None,
            receive_to_core_done: None,
            core_append: None,
            receive_to_paint: None,
        }),
{
    let point = crate::input::stroke_point(input);
    let (before, after) = (old(tracker).raw_lead_points@, final(tracker).raw_lead_points@);
    assert(marks(point, input));
    if before.len() == 96 && !coincides {
        assert(after =~= before.drop_first().push(point));
    }
}

/// A pointer position that stands in for samples is previewed and timed as one, but is no raw
/// point.
pub proof fn fallbacks_are_previewed_and_not_recorded<
    F: Fn(StrokePoint, StrokePoint) -> Single,
>(tracker: &mut InputTracker, sample: ReceivedSample, frame: Double, distance_squared: F)
    requires
        call_ensures(
            InputTracker::take_fallback::<F>,
            (tracker, sample, frame, distance_squared),
            (),
        ),
    ensures
        final(tracker).latest_input_preview is Some,
        marks(final(tracker).latest_input_preview->0, sample.input),
        final(tracker).audit.raw_pts == old(tracker).audit.raw_pts,
        final(tracker).audit.raw_events == old(tracker).audit.raw_events,
        final(tracker).audit.event_gap_count == old(tracker).audit.event_gap_count,
        final(tracker).latency_probe is Some,
        final(tracker).latency_probe->0.app_receive == sample.received,
        final(tracker).latency_probe->0.sample_id == old(tracker).next_latency_sample_id,
{
}

/// Nothing is tracked at first; and once a stroke is over its preview, trail and probe are
/// gone, but not what was recorded.
pub proof fn tracking_starts_and_ends_with_nothing(
    first: InputTracker,
    tracker: &mut InputTracker,
)
    requires
        call_ensures(InputTracker::new, (), first),
        call_ensures(InputTracker::reset_active_stroke_tracking, (tracker,), ()),
    ensures
        first.latest_input_preview is None && first.latency_probe is None,
        first.raw_lead_points@.len() == 0 && first.next_latency_sample_id == 1,
        first.audit.frames == 0 && first.audit.raw_pts@.len() == 0,
        final(tracker).latest_input_preview is None && final(tracker).latency_probe is None,
        final(tracker).raw_lead_points@.len() == 0,
        final(tracker).audit == old(tracker).audit,
        final(tracker).next_latency_sample_id == old(tracker).next_latency_sample_id,
{
}

/// The trail ends with the latest point, unless that coincides with its end; it keeps the
/// points before it, in order, but no more than ninety-six in all.
pub proof fn trails_end_with_the_latest_point<F: Fn(StrokePoint, StrokePoint) -> Single>(
    points: &mut Vec<StrokePoint>,
    point: StrokePoint,
    distance_squared: F,
    coincides: bool,
)
    requires
        call_ensures(
            crate::lead::push_raw_lead_point::<F>,
            (points, point, distance_squared),
            (),
        ),
        old(points)@.len() > 0 ==> forall|gap: Single| #[trigger]
            call_ensures(distance_squared, (point, old(points)@.last()), gap) ==> coincides
                == gap.at_most(Single { bits: 0x3400_0000 }),
        old(points)@.len() <= 96,
    ensures
        old(points)@.len() == 0 ==> final(points)@ == seq![point],
        old(points)@.len() > 0 && coincides ==> final(points)@ == old(points)@,
        0 < old(points)@.len() < 96 && !coincides ==> final(points)@ == old(points)@.push(point),
        old(points)@.len() == 96 && !coincides ==> final(points)@ == old(points)@.drop_first().push(
            point,
        ),
{
    if old(points)@.len() == 96 && !coincides {
        assert(final(points)@ =~= old(points)@.drop_first().push(point));
    }
}

/// The drawn part of a trail is at most forty-eight segments long and ends where the trail
/// ends; without a tip it is the last of them, and short trails are drawn whole.
pub proof fn trails_are_drawn_to_their_end<F: Fn(StrokePoint, StrokePoint) -> Single>(
    points: &[StrokePoint],
    tip: Option<StrokePoint>,
    distance_squared: F,
    start: usize,
)
    requires
        call_ensures(
            crate::lead::raw_lead_tail_start::<F>,
            (points, tip, distance_squared),
            start,
        ),
    ensures
        points@.len() > 0 ==> start < points@.len(),
        points@.len() - start <= 49,
        points@.len() <= 2 ==> start == 0,
        tip is None && points@.len() <= 49 ==> start == 0,
        tip is None && points@.len() > 49 ==> start == points@.len() - 49,
{
}

/// With a tip, a trail is drawn from the point before its nearest one to the tip, but no longer
/// than forty-eight segments: of the points that may be drawn, none is nearer to the tip.
pub proof fn trails_are_drawn_from_the_tip<F: Fn(StrokePoint, StrokePoint) -> Single>(
    points: &[StrokePoint],
    tip: StrokePoint,
    distance_squared: F,
    start: usize,
    floor: int,
) -> (r: (Seq<Single>, int))
    requires
        call_ensures(
            crate::lead::raw_lead_tail_start::<F>,
            (points, Some(tip), distance_squared),
            start,
        ),
        2 < points@.len(),
        floor == if points@.len() > 49 {
            points@.len() - 49
        } else {
            0
        },
        forall|a: StrokePoint, b: StrokePoint, gap: Single| #[trigger]
            call_ensures(distance_squared, (a, b), gap) ==> !gap.nan(),
    ensures
        r.0.len() == points@.len() - floor,
        forall|i: int|
            0 <= i < r.0.len() ==> call_ensures(
                distance_squared,
                (points@[floor + i], tip),
                #[trigger] r.0[i],
            ),
        0 <= r.1 < r.0.len(),
        start == if r.1 == 0 {
            floor
        } else {
            floor + r.1 - 1
        },
        forall|i: int| 0 <= i < r.0.len() ==> r.0[r.1].at_most(#[trigger] r.0[i]),
        forall|i: int| 0 <= i < r.1 ==> r.0[r.1].below(#[trigger] r.0[i]),
{
    assert(floor == crate::lead::trail_floor(points@.len()));
    let distances = choose|distances: Seq<Single>|
        #[trigger] crate::lead::distances_to_tip(points@, floor, tip, distance_squared, distances)
            && start == crate::lead::tail_start(floor, distances);
    assert forall|i: int| 0 <= i < distances.len() implies !(#[trigger] distances[i]).nan() by {
        assert(call_ensures(distance_squared, (points@[floor + i], tip), distances[i]));
    }
    crate::lead::nearest_is_least(distances);
    (distances, crate::lead::nearest(distances))
}

/// A trail is drawn if it has a point and ends half a pixel or more away from the tip, as far
/// as there is one.
pub proof fn trails_are_drawn_where_they_lead<F: Fn(StrokePoint, StrokePoint) -> Single>(
    points: &[StrokePoint],
    tip: Option<StrokePoint>,
    distance_squared: F,
    drawn: bool,
    away: bool,
)
    requires
        call_ensures(crate::lead::draws_raw_lead::<F>, (points, tip, distance_squared), drawn),
        points@.len() > 0 && tip is Some ==> forall|gap: Single| #[trigger]
            call_ensures(distance_squared, (tip->0, points@.last()), gap) ==> away == (Single {
                bits: 0x3e80_0000,
            }).below(gap),
    ensures
        points@.len() == 0 ==> !drawn,
        points@.len() > 0 && tip is None ==> drawn,
        points@.len() > 0 && tip is Some ==> drawn == away,
{
}

/// The stamp texture is a star: a pixel is inked if it lies on one of the two straight arms or
/// near a diagonal, and blank otherwise, row by row.
pub proof fn stamps_are_stars<
    F: Fn(u32, u32) -> Single,
    G: Fn(Single, Single) -> Single,
>(
    width: u32,
    height: u32,
    offset: F,
    difference: G,
    mask: Vec<Single>,
    x: u32,
    y: u32,
) -> (r: (Single, Single, Single))
    requires
        call_ensures(
            crate::stamp::stamp_texture_alpha::<F, G>,
            (width, height, offset, difference),
            mask,
        ),
        x < width,
        y < height,
    ensures
        mask@.len() == width * height,
        call_ensures(offset, (x, width), r.0),
        call_ensures(offset, (y, height), r.1),
        call_ensures(difference, (r.0, r.1), r.2),
        mask@[y * width + x].bits == 0x3f80_0000 || mask@[y * width + x].bits == 0,
        mask@[y * width + x].bits == 0x3f80_0000 <==> r.0.below(Single { bits: 0x3e61_47ae })
            || r.1.below(Single { bits: 0x3e61_47ae }) || r.2.below(Single { bits: 0x3df5_c28f }),
{
    let alpha = mask@[y * width + x];
    assert(crate::stamp::star_pixel(x, y, width, height, offset, difference, alpha));
    choose|dx: Single, dy: Single, apart: Single|
        {
            &&& call_ensures(offset, (x, width), dx)
            &&& call_ensures(offset, (y, height), dy)
            &&& call_ensures(difference, (dx, dy), apart)
            &&& alpha == Single {
                bits: if #[trigger] crate::stamp::on_star(dx, dy, apart) {
                    crate::brush::ONE
                } else {
                    0
                },
            }
        }
}

/// Without a probe there is nothing to report.
pub proof fn nothing_is_reported_without_a_probe(tracker: &mut InputTracker)
    requires
        call_ensures(InputTracker::update_latency_report, (tracker,), ()),
        old(tracker).latency_probe is None,
    ensures
        *final(tracker) == *old(tracker),
{
}

/// The touches without a finite force.
pub open spec fn forceless() -> spec_fn(TouchEvent) -> bool {
    |event: TouchEvent| event.force is None || !event.force->0.finite()
}

/// Touches without a finite force are counted as missing.
pub proof fn missing_forces_are_counted(audit: &mut StrokeAudit, events: &[TouchEvent])
    requires
        call_ensures(StrokeAudit::note_touch_events, (audit, events), ()),
        events@.len() <= usize::MAX,
    ensures
        exists|at: Seq<int>|
            final(audit).last_raw_force_missing == at.len()
                && #[trigger] crate::laws::samples::places(events@, forceless(), at),
{
    let forces = crate::audit::finite_forces(events@);
    let absent = |value: Option<Single>| value is None;
    let unknown = forceless();
    let at = crate::laws::samples::lemma_filter_places(forces, absent);
    forces.lemma_filter_len(absent);
    assert forall|k: int| 0 <= k < at.len() implies unknown(events@[#[trigger] at[k]]) by {
        assert(absent(forces[at[k]]));
    }
    assert forall|i: int|
        0 <= i < events@.len() && unknown(#[trigger] events@[i]) implies at.contains(i) by {
        assert(absent(forces[i]));
    }
    assert(crate::laws::samples::places(events@, unknown, at));
}

/// A frame adds its samples to the count, records how old they are, and numbers each of them.
pub proof fn frames_count_their_samples<
    F: Fn(StrokePoint, StrokePoint) -> Single + Copy,
    G: Fn(StrokePoint, StrokePoint) -> Single + Copy,
    H: Fn(Double, Single) -> Double + Copy,
>(
    tracker: &mut InputTracker,
    samples: &[ReceivedSample],
    frame: Double,
    distance_squared: F,
    distance: G,
    plus: H,
)
    requires
        call_ensures(
            InputTracker::take_batch::<F, G, H>,
            (tracker, samples, frame, distance_squared, distance, plus),
            (),
        ),
        old(tracker).audit.raw_events + samples@.len() <= u32::MAX,
        old(tracker).next_latency_sample_id + samples@.len() <= u64::MAX,
    ensures
        final(tracker).audit.raw_events == old(tracker).audit.raw_events + samples@.len(),
        final(tracker).audit.frames == old(tracker).audit.frames,
        final(tracker).audit.append_batches == old(tracker).audit.append_batches,
        final(tracker).audit.begin_point == old(tracker).audit.begin_point,
        final(tracker).next_latency_sample_id == old(tracker).next_latency_sample_id
            + samples@.len(),
        samples@.len() > 0 ==> final(tracker).latency_probe is Some
            && final(tracker).latency_probe->0.app_receive == samples@[samples@.len()
            - 1].received && final(tracker).latency_probe->0.sample_id
            == final(tracker).next_latency_sample_id - 1,
        old(tracker).audit.raw_pts@.len() > 0 ==> final(tracker).audit.event_gap_count
            == old(tracker).audit.event_gap_count + samples@.len(),
        old(tracker).audit.raw_pts@.len() == 0 && samples@.len() > 0
            ==> final(tracker).audit.event_gap_count == old(tracker).audit.event_gap_count
            + samples@.len() - 1,
        final(tracker).audit.last_batch_source_age_ms == crate::range::range_of(
            crate::latency::batch_ages(crate::audit::time_stamps(samples@), frame),
        ),
{
    let states = choose|states: Seq<InputTracker>|
        {
            &&& #[trigger] crate::audit::taken_up_in_turn(
                states,
                samples@,
                frame,
                distance_squared,
                distance,
                plus,
            )
            &&& states[0] == old(tracker).with_frame(samples@, frame)
            &&& states[samples@.len() as int] == *final(tracker)
        };
    lemma_samples_are_numbered(
        states,
        samples@,
        frame,
        distance_squared,
        distance,
        plus,
        samples@.len() as int,
    );
}

proof fn lemma_samples_are_numbered<
    F: Fn(StrokePoint, StrokePoint) -> Single,
    G: Fn(StrokePoint, StrokePoint) -> Single,
    H: Fn(Double, Single) -> Double,
>(
    states: Seq<InputTracker>,
    samples: Seq<ReceivedSample>,
    frame: Double,
    distance_squared: F,
    distance: G,
    plus: H,
    n: int,
)
    requires
        crate::audit::taken_up_in_turn(states, samples, frame, distance_squared, distance, plus),
        0 <= n <= samples.len(),
        states[0].next_latency_sample_id + samples.len() <= u64::MAX,
    ensures
        states[n].audit.raw_events == states[0].audit.raw_events,
        states[n].audit.frames == states[0].audit.frames,
        states[n].audit.append_batches == states[0].audit.append_batches,
        states[n].audit.begin_point == states[0].audit.begin_point,
        states[n].audit.last_batch_source_age_ms == states[0].audit.last_batch_source_age_ms,
        states[n].next_latency_sample_id == states[0].next_latency_sample_id + n,
        n > 0 ==> states[n].latency_probe is Some && states[n].latency_probe->0.app_receive
            == samples[n - 1].received && states[n].latency_probe->0.sample_id
            == states[n].next_latency_sample_id - 1,
    decreases n,
{
    if n > 0 {
        lemma_samples_are_numbered(
            states,
            samples,
            frame,
            distance_squared,
            distance,
            plus,
            n - 1,
        );
        assert(crate::audit::taken_up(
            states[n - 1],
            samples[n - 1],
            frame,
            distance_squared,
            distance,
            plus,
            states[n - 1 + 1],
        ));
    }
}

/// A mark on the latest sample brings the report up to date at once, just as asking for that
/// with the marked sample does.
pub proof fn marks_are_reported_at_once(
    emit: &mut InputTracker,
    append: &mut InputTracker,
    paint: &mut InputTracker,
    now: u64,
    start: u64,
    done: u64,
    emitted: &mut InputTracker,
    appended: &mut InputTracker,
    painted: &mut InputTracker,
)
    requires
        call_ensures(InputTracker::mark_latest_latency_session_emit, (emit, now), ()),
        call_ensures(InputTracker::mark_latest_latency_core_append, (append, start, done), ()),
        call_ensures(InputTracker::mark_latest_latency_paint, (paint, now), ()),
        call_ensures(InputTracker::update_latency_report, (emitted,), ()),
        call_ensures(InputTracker::update_latency_report, (appended,), ()),
        call_ensures(InputTracker::update_latency_report, (painted,), ()),
        *old(emitted) == (InputTracker {
            latency_probe: final(emit).latency_probe,
            ..*old(emit)
        }),
        *old(appended) == (InputTracker {
            latency_probe: final(append).latency_probe,
            ..*old(append)
        }),
        *old(painted) == (InputTracker {
            latency_probe: final(paint).latency_probe,
            ..*old(paint)
        }),
    ensures
        *final(emitted) == *final(emit),
        *final(appended) == *final(append),
        *final(painted) == *final(paint),
{
}

} // verus!
