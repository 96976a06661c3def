//! How pen, touch and pointer events become the samples of a stroke.

use crate::geometry::{ScreenPos, ScreenRect, StrokePoint};
use crate::input::{
    FrameInput, InputPlan, InputSampleContext, NativeInputPoint, NativeRoute, StrokeInputPoint,
    StrokeInputSource, StylusPhase, TouchEvent, TouchPhase,
};
use crate::scalar::{Double, Single};
use vstd::prelude::*;

verus! {

/// `indices` are, in order and without a gap, the places of `items` where `wanted` holds.
pub open spec fn places<T>(items: Seq<T>, wanted: spec_fn(T) -> bool, indices: Seq<int>) -> bool {
    &&& forall|k: int| 0 <= k < indices.len() ==> 0 <= #[trigger] indices[k] < items.len()
    &&& forall|k: int|
        0 <= k < indices.len() ==> wanted(items[#[trigger] indices[k]])
    &&& forall|k: int, l: int|
        0 <= k < l < indices.len() ==> #[trigger] indices[k] < #[trigger] indices[l]
    &&& forall|i: int|
        0 <= i < items.len() && wanted(#[trigger] items[i]) ==> indices.contains(i)
}

/// What a filter keeps, it keeps in order and without a gap.
pub proof fn lemma_filter_places<T>(items: Seq<T>, wanted: spec_fn(T) -> bool) -> (indices: Seq<int>)
    ensures
        places(items, wanted, indices),
        indices.len() == items.filter(wanted).len(),
        forall|k: int|
            0 <= k < indices.len() ==> items.filter(wanted)[k] == items[#[trigger] indices[k]],
    decreases items.len(),
{
    reveal(Seq::filter);
    if items.len() == 0 {
        Seq::empty()
    } else {
        let before = items.drop_last();
        let last = items.len() - 1;
        let earlier = lemma_filter_places(before, wanted);
        let indices = if wanted(items.last()) {
            earlier.push(last)
        } else {
            earlier
        };
        assert forall|i: int|
            0 <= i < items.len() && wanted(#[trigger] items[i]) implies indices.contains(i) by {
            if i < last {
                assert(before[i] == items[i]);
                let k = choose|k: int| 0 <= k < earlier.len() && earlier[k] == i;
                assert(indices[k] == i);
            } else {
                assert(indices[indices.len() - 1] == i);
            }
        }
        assert forall|k: int| 0 <= k < indices.len() implies wanted(items[#[trigger] indices[k]])
            && items.filter(wanted)[k] == items[indices[k]] && 0 <= indices[k] < items.len() by {
            if k < earlier.len() {
                assert(earlier[k] == indices[k]);
                assert(before[earlier[k]] == items[indices[k]]);
            }
        }
        assert forall|k: int, l: int| 0 <= k < l < indices.len() implies #[trigger] indices[k]
            < #[trigger] indices[l] by {
            assert(indices[k] == earlier[k]);
            if l < earlier.len() {
                assert(indices[l] == earlier[l]);
            }
        }
        indices
    }
}

/// Each phase of a touch has its part: a start begins a stroke, a move begins or extends one,
/// and nothing else does either.
pub proof fn touches_begin_and_extend_strokes(phase: TouchPhase, begins: bool, extends: bool)
    requires
        call_ensures(crate::input::touch_phase_can_begin_stroke, (phase,), begins),
        call_ensures(crate::input::touch_phase_appends_to_active_stroke, (phase,), extends),
    ensures
        extends <==> phase == TouchPhase::Move,
        begins <==> phase == TouchPhase::Start || phase == TouchPhase::Move,
{
}

/// Each phase of a pen has one part: hovering has none, putting it down begins a stroke,
/// moving it extends one, and lifting or losing it stops one.
pub proof fn pens_begin_extend_and_stop_strokes(
    phase: StylusPhase,
    touches: bool,
    begins: bool,
    extends: bool,
    stops: bool,
)
    requires
        call_ensures(crate::input::native_phase_touches_surface, (phase,), touches),
        call_ensures(crate::input::native_phase_can_begin_stroke, (phase,), begins),
        call_ensures(crate::input::native_phase_appends_to_active_stroke, (phase,), extends),
        call_ensures(crate::input::native_phase_stops_active_stroke, (phase,), stops),
    ensures
        touches <==> begins || extends || stops,
        !(begins && extends) && !(begins && stops) && !(extends && stops),
        begins <==> phase == StylusPhase::Down,
        extends <==> phase == StylusPhase::Move,
        !touches <==> phase == StylusPhase::Hover,
{
}

/// A touch is sampled as the pen that does the same: it extends a stroke as a move, begins one
/// when put down, and stops one when lifted or lost, and no two phases are sampled alike.
pub proof fn touches_are_sampled_as_pens(
    phase: TouchPhase,
    other: TouchPhase,
    sampled: StylusPhase,
    others: StylusPhase,
    begins: bool,
    extends: bool,
    stops: bool,
)
    requires
        call_ensures(crate::input::stylus_phase_of_touch, (phase,), sampled),
        call_ensures(crate::input::stylus_phase_of_touch, (other,), others),
        call_ensures(crate::input::native_phase_can_begin_stroke, (sampled,), begins),
        call_ensures(crate::input::native_phase_appends_to_active_stroke, (sampled,), extends),
        call_ensures(crate::input::native_phase_stops_active_stroke, (sampled,), stops),
    ensures
        begins <==> phase == TouchPhase::Start,
        extends <==> phase == TouchPhase::Move,
        stops <==> phase == TouchPhase::End || phase == TouchPhase::Cancel,
        phase == TouchPhase::Cancel <==> sampled == StylusPhase::Cancel,
        phase != other ==> sampled != others,
{
}

/// The point of a sample is where the sample was taken, as hard as it was pressed.
pub proof fn points_are_where_the_samples_were(input: StrokeInputPoint, point: StrokePoint)
    requires
        call_ensures(crate::input::stroke_point_from_input, (input,), point),
    ensures
        point.x == input.point.x,
        point.y == input.point.y,
        point.pressure == input.point.pressure,
{
}

/// A batch of samples becomes as many points, each in the place of its sample.
pub proof fn batches_keep_every_sample(
    inputs: Vec<StrokeInputPoint>,
    points: Vec<StrokePoint>,
    i: int,
)
    requires
        call_ensures(crate::input::stroke_points_from_input, (&inputs,), points),
        0 <= i < inputs@.len(),
    ensures
        points@.len() == inputs@.len(),
        points@[i].x == inputs@[i].point.x,
        points@[i].y == inputs@[i].point.y,
        points@[i].pressure == inputs@[i].point.pressure,
{
}

/// A stroke begins at the first touch that starts in the frame; if none starts, at the first
/// that moves; and if none moves either, at the pointer, without a force.
pub proof fn strokes_begin_at_the_first_touch(
    events: &[TouchEvent],
    time: Double,
    pointer: ScreenPos,
    begin: InputSampleContext,
    i: int,
)
    requires
        call_ensures(crate::input::begin_input_point, (events, time, pointer), begin),
        0 <= i < events@.len(),
        events@[i].phase == TouchPhase::Start || events@[i].phase == TouchPhase::Move && forall|
            j: int,
        |
            0 <= j < events@.len() ==> (#[trigger] events@[j]).phase != TouchPhase::Start,
        forall|j: int| 0 <= j < i ==> (#[trigger] events@[j]).phase != events@[i].phase,
    ensures
        begin.pos == events@[i].pos,
        begin.force == events@[i].force,
        begin.source == StrokeInputSource::Touch,
        begin.phase == StylusPhase::Down,
        begin.time_seconds == time,
        begin.batch_size == 1,
{
    let phase = events@[i].phase;
    assert(crate::input::has_phase(events@, phase));
    let event = choose|event: TouchEvent|
        #[trigger] crate::input::first_in_phase(events@, phase, event) && begin
            == crate::input::touch_context(event, StylusPhase::Down, time, 1);
    let k = choose|k: int|
        0 <= k < events@.len() && #[trigger] events@[k] == event && event.phase == phase && (forall|
            j: int,
        |
            0 <= j < k ==> (#[trigger] events@[j]).phase != phase);
    assert(k == i);
}

/// Without a touch that starts or moves, a stroke begins at the pointer, without a force.
pub proof fn strokes_begin_at_the_pointer_otherwise(
    events: &[TouchEvent],
    time: Double,
    pointer: ScreenPos,
    begin: InputSampleContext,
)
    requires
        call_ensures(crate::input::begin_input_point, (events, time, pointer), begin),
        forall|j: int|
            0 <= j < events@.len() ==> (#[trigger] events@[j]).phase != TouchPhase::Start
                && events@[j].phase != TouchPhase::Move,
    ensures
        begin.pos == pointer,
        begin.force is None,
        begin.source == StrokeInputSource::PointerFallback,
        begin.phase == StylusPhase::Down,
        begin.time_seconds == time,
        begin.batch_size == 1,
{
}

/// The touch that a stroke begins with is one of the frame, a start if there is one and else a
/// move, and none of its kind comes before it; there is none just when no touch starts or
/// moves.
pub proof fn beginnings_are_found(events: &[TouchEvent], found: Option<TouchEvent>, i: int)
    requires
        call_ensures(crate::input::touch_begin_event, (events,), found),
        0 <= i < events@.len(),
    ensures
        events@[i].phase == TouchPhase::Start || events@[i].phase == TouchPhase::Move ==> found
            is Some,
        found matches Some(event) ==> events@.contains(event) && (event.phase == TouchPhase::Start
            || event.phase == TouchPhase::Move),
        found is Some && events@[i].phase == TouchPhase::Start ==> found->0.phase
            == TouchPhase::Start,
{
    assert(events@[i].phase == TouchPhase::Start ==> crate::input::has_phase(
        events@,
        TouchPhase::Start,
    ));
    assert(events@[i].phase == TouchPhase::Move ==> crate::input::has_phase(
        events@,
        TouchPhase::Move,
    ));
}

/// The pointer's current position is sampled where it is, alone and without a force.
pub proof fn pointers_are_sampled_where_they_are(
    pos: ScreenPos,
    phase: StylusPhase,
    time: Double,
    sample: InputSampleContext,
)
    requires
        call_ensures(crate::input::current_input_point, (pos, phase, time), sample),
    ensures
        sample.pos == pos,
        sample.phase == phase,
        sample.time_seconds == time,
        sample.force is None,
        sample.batch_size == 1,
        sample.source == StrokeInputSource::PointerFallback,
{
}

/// Without touch events, a frame is sampled at every position of the pointer, in order: the
/// path that the pointer took is not lost.
pub proof fn pointer_paths_are_sampled_whole(
    events: &[TouchEvent],
    positions: &[ScreenPos],
    time: Double,
    plan: InputPlan,
    i: int,
)
    requires
        call_ensures(crate::input::input_stroke_points, (events, positions, time), plan),
        events@.len() == 0,
        0 <= i < positions@.len(),
    ensures
        plan.source == StrokeInputSource::PointerFallback,
        plan.samples@.len() == positions@.len(),
        plan.samples@[i].pos == positions@[i],
        plan.samples@[i].force is None,
        plan.samples@[i].phase == StylusPhase::Move,
        plan.samples@[i].time_seconds == time,
        plan.samples@[i].source == StrokeInputSource::PointerFallback,
        plan.samples@[i].batch_size == positions@.len() as usize,
{
}

/// With touch events, a frame is sampled at every touch that moves, in order, and nowhere
/// else: each sample is where its touch was, as hard as it pressed.
pub proof fn touch_paths_are_sampled_whole(
    events: &[TouchEvent],
    positions: &[ScreenPos],
    time: Double,
    plan: InputPlan,
) -> (moves: Seq<int>)
    requires
        call_ensures(crate::input::input_stroke_points, (events, positions, time), plan),
        events@.len() > 0,
    ensures
        plan.source == StrokeInputSource::Touch,
        places(events@, |event: TouchEvent| event.phase == TouchPhase::Move, moves),
        plan.samples@.len() == moves.len(),
        forall|k: int|
            0 <= k < moves.len() ==> {
                let sample = #[trigger] plan.samples@[k];
                let event = events@[moves[k]];
                &&& sample.pos == event.pos
                &&& sample.force == event.force
                &&& sample.phase == StylusPhase::Move
                &&& sample.time_seconds == time
                &&& sample.source == StrokeInputSource::Touch
                &&& sample.batch_size == moves.len() as usize
            },
{
    let wanted = |event: TouchEvent| event.phase == TouchPhase::Move;
    let moves = lemma_filter_places(events@, wanted);
    assert forall|k: int| 0 <= k < moves.len() implies {
        let sample = #[trigger] plan.samples@[k];
        let event = events@[moves[k]];
        &&& sample.pos == event.pos
        &&& sample.force == event.force
        &&& sample.phase == StylusPhase::Move
        &&& sample.time_seconds == time
        &&& sample.source == StrokeInputSource::Touch
        &&& sample.batch_size == moves.len() as usize
    } by {
        assert(events@.filter(wanted)[k] == events@[moves[k]]);
        assert(wanted(events@[moves[k]]));
    }
    moves
}

/// As many touches are counted in a phase as there are.
pub proof fn touches_are_counted(events: &[TouchEvent], phase: TouchPhase, count: usize) -> (at:
    Seq<int>)
    requires
        call_ensures(crate::input::count_phase, (events, phase), count),
    ensures
        places(events@, |event: TouchEvent| event.phase == phase, at),
        count == at.len(),
{
    lemma_filter_places(events@, |event: TouchEvent| event.phase == phase)
}

/// A position is on the canvas just when neither coordinate is left of, right of, above or
/// below it.
pub proof fn rectangles_hold_what_is_between_their_edges(
    rect: ScreenRect,
    pos: ScreenPos,
    holds: bool,
)
    requires
        call_ensures(ScreenRect::contains, (rect, pos), holds),
    ensures
        holds ==> !pos.x.below(rect.min.x) && !rect.max.x.below(pos.x) && !pos.y.below(rect.min.y)
            && !rect.max.y.below(pos.y),
        !pos.x.nan() && !pos.y.nan() && !rect.min.x.nan() && !rect.min.y.nan() && !rect.max.x.nan()
            && !rect.max.y.nan() && !pos.x.below(rect.min.x) && !rect.max.x.below(pos.x)
            && !pos.y.below(rect.min.y) && !rect.max.y.below(pos.y) ==> holds,
        pos.x.nan() || pos.y.nan() ==> !holds,
{
}

/// A pen begins a stroke where it is first put down on the canvas: there is such a sample just
/// when the pen was put down there, and none before it was.
pub proof fn pens_begin_where_they_are_put_down(
    points: &[NativeInputPoint],
    canvas: ScreenRect,
    route: NativeRoute,
    i: int,
    on_canvas: bool,
)
    requires
        call_ensures(crate::input::route_native_input, (points, canvas), route),
        0 <= i < points@.len(),
        call_ensures(ScreenRect::contains, (canvas, points@[i].window_pos), on_canvas),
    ensures
        points@[i].phase == StylusPhase::Down && on_canvas ==> route.begin_index is Some
            && route.begin_index->0 <= i,
        route.begin_index is Some && route.begin_index->0 == i ==> points@[i].phase
            == StylusPhase::Down && on_canvas,
        route.begin_index matches Some(index) ==> index < points@.len(),
{
}

/// A pen stops the stroke just when it was lifted or lost.
pub proof fn pens_stop_when_lifted_or_lost(
    points: &[NativeInputPoint],
    canvas: ScreenRect,
    route: NativeRoute,
)
    requires
        call_ensures(crate::input::route_native_input, (points, canvas), route),
    ensures
        route.stopped <==> exists|i: int|
            0 <= i < points@.len() && ((#[trigger] points@[i]).phase == StylusPhase::Up
                || points@[i].phase == StylusPhase::Cancel),
{
    if route.stopped {
        let i = choose|i: int|
            0 <= i < points@.len() && crate::input::native_stops(#[trigger] points@[i]);
        assert(points@[i].phase == StylusPhase::Up || points@[i].phase == StylusPhase::Cancel);
    }
    if exists|i: int|
        0 <= i < points@.len() && ((#[trigger] points@[i]).phase == StylusPhase::Up
            || points@[i].phase == StylusPhase::Cancel) {
        let i = choose|i: int|
            0 <= i < points@.len() && ((#[trigger] points@[i]).phase == StylusPhase::Up
                || points@[i].phase == StylusPhase::Cancel);
        assert(crate::input::native_stops(points@[i]));
    }
}

/// A pen extends a stroke with every sample of its way, in order, and with no other.
pub proof fn pens_extend_with_every_move(
    points: &[NativeInputPoint],
    canvas: ScreenRect,
    route: NativeRoute,
) -> (moves: Seq<int>)
    requires
        call_ensures(crate::input::route_native_input, (points, canvas), route),
    ensures
        places(points@, |input: NativeInputPoint| input.phase == StylusPhase::Move, moves),
        route.updates@.len() == moves.len(),
        forall|k: int|
            0 <= k < moves.len() ==> #[trigger] route.updates@[k] == points@[moves[k]].point,
{
    let wanted = |input: NativeInputPoint| input.phase == StylusPhase::Move;
    let moves = lemma_filter_places(points@, wanted);
    assert forall|k: int| 0 <= k < moves.len() implies #[trigger] route.updates@[k]
        == points@[moves[k]].point by {
        assert(points@.filter(wanted)[k] == points@[moves[k]]);
    }
    moves
}

/// The pen comes before the window: its samples are taken if it brought any, and what was
/// planned for the window's own events otherwise.
pub proof fn pens_come_before_the_window(
    updates: Vec<StrokeInputPoint>,
    plan: InputPlan,
    chosen: FrameInput,
)
    requires
        call_ensures(crate::input::choose_frame_input, (updates, plan), chosen),
    ensures
        updates@.len() > 0 ==> (chosen matches FrameInput::Taken { source, points } && source
            == StrokeInputSource::WindowsPointer && points@ == updates@),
        updates@.len() == 0 ==> chosen == FrameInput::Planned(plan),
{
}

/// A drag starts or stops with the pointer or with the pen, and with nothing else.
pub proof fn drags_start_and_stop_with_either(
    points: &[NativeInputPoint],
    canvas: ScreenRect,
    route: NativeRoute,
    pointer: bool,
    starts: bool,
    stops: bool,
)
    requires
        call_ensures(crate::input::route_native_input, (points, canvas), route),
        call_ensures(NativeRoute::drag_starts, (&route, pointer), starts),
        call_ensures(NativeRoute::drag_stops, (&route, pointer), stops),
    ensures
        pointer ==> starts && stops,
        starts && !pointer ==> exists|i: int|
            0 <= i < points@.len() && (#[trigger] points@[i]).phase == StylusPhase::Down,
        route.begin_index is Some ==> starts,
        stops <==> pointer || route.stopped,
{
    if let Some(index) = route.begin_index {
        assert(points@[index as int].phase == StylusPhase::Down);
    }
}

/// No neighbors in a native batch are farther apart than its widest gap, which is one of their
/// distances, or zero.
pub proof fn gaps_are_no_wider_than_the_widest<F: Fn(StrokePoint, StrokePoint) -> Single>(
    points: &[NativeInputPoint],
    distance: F,
    widest: Single,
    i: int,
) -> (gap: Single)
    requires
        call_ensures(
            crate::input::native_input_batch_max_gap::<F>,
            (points, distance),
            widest,
        ),
        0 <= i < points@.len() - 1,
    ensures
        call_ensures(
            distance,
            (
                StrokePoint {
                    x: points@[i].point.point.x,
                    y: points@[i].point.point.y,
                    pressure: points@[i].point.point.pressure,
                },
                StrokePoint {
                    x: points@[i + 1].point.point.x,
                    y: points@[i + 1].point.point.y,
                    pressure: points@[i + 1].point.point.pressure,
                },
            ),
            gap,
        ),
        !widest.below(gap),
        !widest.nan(),
{
    let gaps = choose|gaps: Seq<Single>|
        #[trigger] crate::input::gaps_between(points@, distance, gaps) && widest
            == crate::range::largest(gaps);
    crate::range::largest_is_an_upper_bound(gaps);
    gaps[i]
}

/// The widest gap of a native batch is the distance of some neighbors, unless it is zero.
pub proof fn the_widest_gap_is_a_gap<F: Fn(StrokePoint, StrokePoint) -> Single>(
    points: &[NativeInputPoint],
    distance: F,
    widest: Single,
) -> (i: int)
    requires
        call_ensures(
            crate::input::native_input_batch_max_gap::<F>,
            (points, distance),
            widest,
        ),
        widest.bits != 0,
    ensures
        0 <= i < points@.len() - 1,
        call_ensures(
            distance,
            (
                StrokePoint {
                    x: points@[i].point.point.x,
                    y: points@[i].point.point.y,
                    pressure: points@[i].point.point.pressure,
                },
                StrokePoint {
                    x: points@[i + 1].point.point.x,
                    y: points@[i + 1].point.point.y,
                    pressure: points@[i + 1].point.point.pressure,
                },
            ),
            widest,
        ),
{
    let gaps = choose|gaps: Seq<Single>|
        #[trigger] crate::input::gaps_between(points@, distance, gaps) && widest
            == crate::range::largest(gaps);
    crate::range::largest_is_an_upper_bound(gaps);
    choose|i: int| 0 <= i < gaps.len() && gaps[i] == widest
}

} // verus!
