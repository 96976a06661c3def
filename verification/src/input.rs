//! Stylus, touch and pointer events, and how they are routed into strokes.

use crate::geometry::{ScreenPos, ScreenRect, StrokePoint};
use crate::scalar::{Double, Single};
use vstd::prelude::*;

verus! {

/// What a touch event says about its finger or pen.
#[derive(Clone, Copy, Debug, PartialEq, Eq, Structural)]
pub enum TouchPhase {
    Start,
    Move,
    End,
    Cancel,
}

/// What a stylus sample says about its pen.
#[derive(Clone, Copy, Debug, PartialEq, Eq, Structural)]
pub enum StylusPhase {
    Hover,
    Down,
    Move,
    Up,
    Cancel,
}

/// Where a sample came from.
#[derive(Clone, Copy, Debug, PartialEq, Eq, Structural)]
pub enum StrokeInputSource {
    Touch,
    WindowsPointer,
    PointerFallback,
}

/// A touch event of the current frame.
#[derive(Clone, Copy, Debug, PartialEq, Eq, Structural)]
pub struct TouchEvent {
    pub pos: ScreenPos,
    pub phase: TouchPhase,
    pub force: Option<Single>,
}

/// A sample before it is adapted to the stroke's pressure scale.
#[derive(Clone, Copy, Debug, PartialEq, Eq, Structural)]
pub struct StylusSample {
    pub device_id: u64,
    pub phase: StylusPhase,
    pub time_seconds: Double,
    pub x: Single,
    pub y: Single,
    pub pressure: Option<Single>,
    pub pressure_raw: Option<Single>,
    pub primary_button: bool,
    pub eraser: bool,
    pub batch_size: usize,
}

/// A sample after it was adapted.
#[derive(Clone, Copy, Debug, PartialEq, Eq, Structural)]
pub struct AdapterSample {
    pub x: Single,
    pub y: Single,
    pub pressure: Single,
    pub tilt_x: Single,
    pub tilt_y: Single,
    pub twist: Single,
    pub time_seconds: Double,
}

/// An adapted sample with its origin.
#[derive(Clone, Copy, Debug, PartialEq, Eq, Structural)]
pub struct StrokeInputPoint {
    pub point: AdapterSample,
    pub source: StrokeInputSource,
    pub pressure_from_device: bool,
}

/// An adapted sample of the native pointer, with what routes it.
#[derive(Clone, Copy, Debug, PartialEq, Eq, Structural)]
pub struct NativeInputPoint {
    pub point: StrokeInputPoint,
    pub phase: StylusPhase,
    pub window_pos: ScreenPos,
}

/// How an event has to be sampled.
#[derive(Clone, Copy, Debug, PartialEq, Eq, Structural)]
pub struct InputSampleContext {
    pub pos: ScreenPos,
    pub phase: StylusPhase,
    pub force: Option<Single>,
    pub time_seconds: Double,
    pub batch_size: usize,
    pub source: StrokeInputSource,
}

pub fn touch_phase_appends_to_active_stroke(phase: TouchPhase) -> (r: bool)
    ensures
        r == (phase == TouchPhase::Move),
{
    matches!(phase, TouchPhase::Move)
}

pub fn touch_phase_can_begin_stroke(phase: TouchPhase) -> (r: bool)
    ensures
        r == (phase == TouchPhase::Start || phase == TouchPhase::Move),
{
    matches!(phase, TouchPhase::Start | TouchPhase::Move)
}

pub fn native_phase_can_begin_stroke(phase: StylusPhase) -> (r: bool)
    ensures
        r == (phase == StylusPhase::Down),
{
    matches!(phase, StylusPhase::Down)
}

pub fn native_phase_appends_to_active_stroke(phase: StylusPhase) -> (r: bool)
    ensures
        r == (phase == StylusPhase::Move),
{
    matches!(phase, StylusPhase::Move)
}

pub fn native_phase_stops_active_stroke(phase: StylusPhase) -> (r: bool)
    ensures
        r == (phase == StylusPhase::Up || phase == StylusPhase::Cancel),
{
    matches!(phase, StylusPhase::Up | StylusPhase::Cancel)
}

/// Whether a native sample takes part in drawing at all.
pub fn native_phase_touches_surface(phase: StylusPhase) -> (r: bool)
    ensures
        r == (phase != StylusPhase::Hover),
{
    !matches!(phase, StylusPhase::Hover)
}

pub open spec fn input_source_text(source: Option<StrokeInputSource>) -> Seq<char> {
    match source {
        Some(StrokeInputSource::Touch) => "touch"@,
        Some(StrokeInputSource::WindowsPointer) => "windows pointer"@,
        Some(StrokeInputSource::PointerFallback) => "pointer fallback"@,
        None => "-"@,
    }
}

pub fn input_source_label(source: Option<StrokeInputSource>) -> (r: &'static str)
    ensures
        r@ == input_source_text(source),
{
    match source {
        Some(StrokeInputSource::Touch) => "touch",
        Some(StrokeInputSource::WindowsPointer) => "windows pointer",
        Some(StrokeInputSource::PointerFallback) => "pointer fallback",
        None => "-",
    }
}

/// The stroke point that an adapted sample stands for.
pub open spec fn stroke_point(input: StrokeInputPoint) -> StrokePoint {
    StrokePoint { x: input.point.x, y: input.point.y, pressure: input.point.pressure }
}

pub fn stroke_point_from_input(input: StrokeInputPoint) -> (r: StrokePoint)
    ensures
        r == stroke_point(input),
{
    StrokePoint { x: input.point.x, y: input.point.y, pressure: input.point.pressure }
}

pub fn stroke_points_from_input(points: &Vec<StrokeInputPoint>) -> (r: Vec<StrokePoint>)
    ensures
        r@ == points@.map_values(|input: StrokeInputPoint| stroke_point(input)),
{
    let mut converted: Vec<StrokePoint> = Vec::new();
    let mut i: usize = 0;
    while i < points.len()
        invariant
            i <= points@.len(),
            converted@ == points@.take(i as int).map_values(
                |input: StrokeInputPoint| stroke_point(input),
            ),
        decreases points@.len() - i,
    {
        converted.push(stroke_point_from_input(points[i]));
        assert(points@.take(i + 1) =~= points@.take(i as int).push(points@[i as int]));
        i += 1;
    }
    assert(points@.take(i as int) =~= points@);
    converted
}

/// The stylus phase that a touch phase corresponds to.
pub open spec fn stylus_phase(phase: TouchPhase) -> StylusPhase {
    match phase {
        TouchPhase::Start => StylusPhase::Down,
        TouchPhase::Move => StylusPhase::Move,
        TouchPhase::End => StylusPhase::Up,
        TouchPhase::Cancel => StylusPhase::Cancel,
    }
}

pub fn stylus_phase_of_touch(phase: TouchPhase) -> (r: StylusPhase)
    ensures
        r == stylus_phase(phase),
{
    match phase {
        TouchPhase::Start => StylusPhase::Down,
        TouchPhase::Move => StylusPhase::Move,
        TouchPhase::End => StylusPhase::Up,
        TouchPhase::Cancel => StylusPhase::Cancel,
    }
}

/// `event` is the first of `events` whose phase is `phase`.
pub open spec fn first_in_phase(
    events: Seq<TouchEvent>,
    phase: TouchPhase,
    event: TouchEvent,
) -> bool {
    exists|i: int|
        0 <= i < events.len() && #[trigger] events[i] == event && event.phase == phase && (forall|
            j: int,
        |
            0 <= j < i ==> (#[trigger] events[j]).phase != phase)
}

pub open spec fn has_phase(events: Seq<TouchEvent>, phase: TouchPhase) -> bool {
    exists|i: int| 0 <= i < events.len() && (#[trigger] events[i]).phase == phase
}

fn find_phase(events: &[TouchEvent], phase: TouchPhase) -> (r: Option<TouchEvent>)
    ensures
        r is Some <==> has_phase(events@, phase),
        r is Some ==> first_in_phase(events@, phase, r->0),
{
    let mut i: usize = 0;
    while i < events.len()
        invariant
            i <= events@.len(),
            forall|j: int| 0 <= j < i ==> (#[trigger] events@[j]).phase != phase,
        decreases events@.len() - i,
    {
        if events[i].phase == phase {
            assert(events@[i as int].phase == phase);
            return Some(events[i]);
        }
        i += 1;
    }
    None
}

/// The touch event that a stroke begins with: the first start, or where no start was
/// reported, the first move.
pub fn touch_begin_event(events: &[TouchEvent]) -> (r: Option<TouchEvent>)
    ensures
        has_phase(events@, TouchPhase::Start) ==> r is Some && first_in_phase(
            events@,
            TouchPhase::Start,
            r->0,
        ),
        !has_phase(events@, TouchPhase::Start) && has_phase(events@, TouchPhase::Move) ==> r is Some
            && first_in_phase(events@, TouchPhase::Move, r->0),
        !has_phase(events@, TouchPhase::Start) && !has_phase(events@, TouchPhase::Move) ==> r
            is None,
{
    match find_phase(events, TouchPhase::Start) {
        Some(event) => Some(event),
        None => find_phase(events, TouchPhase::Move),
    }
}

/// How the first sample of a stroke has to be taken: from the touch event that begins it,
/// or from the pointer at `fallback_pos`.
pub fn begin_input_point(
    touch_events: &[TouchEvent],
    time_seconds: Double,
    fallback_pos: ScreenPos,
) -> (r: InputSampleContext)
    ensures
        has_phase(touch_events@, TouchPhase::Start) ==> exists|event: TouchEvent|
            #[trigger] first_in_phase(touch_events@, TouchPhase::Start, event) && r
                == touch_context(event, StylusPhase::Down, time_seconds, 1),
        !has_phase(touch_events@, TouchPhase::Start) && has_phase(touch_events@, TouchPhase::Move)
            ==> exists|event: TouchEvent|
            #[trigger] first_in_phase(touch_events@, TouchPhase::Move, event) && r == touch_context(
                event,
                StylusPhase::Down,
                time_seconds,
                1,
            ),
        !has_phase(touch_events@, TouchPhase::Start) && !has_phase(touch_events@, TouchPhase::Move)
            ==> r == pointer_context(fallback_pos, StylusPhase::Down, time_seconds, 1),
{
    match touch_begin_event(touch_events) {
        Some(event) => InputSampleContext {
            pos: event.pos,
            phase: StylusPhase::Down,
            force: event.force,
            time_seconds,
            batch_size: 1,
            source: StrokeInputSource::Touch,
        },
        None => current_input_point(fallback_pos, StylusPhase::Down, time_seconds),
    }
}

/// The context of a touch event that is sampled in `phase`.
pub open spec fn touch_context(
    event: TouchEvent,
    phase: StylusPhase,
    time_seconds: Double,
    batch_size: usize,
) -> InputSampleContext {
    InputSampleContext {
        pos: event.pos,
        phase,
        force: event.force,
        time_seconds,
        batch_size,
        source: StrokeInputSource::Touch,
    }
}

/// The context of a pointer position, which carries no force.
pub open spec fn pointer_context(
    pos: ScreenPos,
    phase: StylusPhase,
    time_seconds: Double,
    batch_size: usize,
) -> InputSampleContext {
    InputSampleContext {
        pos,
        phase,
        force: None,
        time_seconds,
        batch_size,
        source: StrokeInputSource::PointerFallback,
    }
}

/// How the pointer's current position has to be sampled.
pub fn current_input_point(
    pos: ScreenPos,
    phase: StylusPhase,
    time_seconds: Double,
) -> (r: InputSampleContext)
    ensures
        r == pointer_context(pos, phase, time_seconds, 1),
{
    InputSampleContext {
        pos,
        phase,
        force: None,
        time_seconds,
        batch_size: 1,
        source: StrokeInputSource::PointerFallback,
    }
}

/// The events of `events` in `phase`, in order.
pub open spec fn events_in_phase(events: Seq<TouchEvent>, phase: TouchPhase) -> Seq<TouchEvent> {
    events.filter(|event: TouchEvent| event.phase == phase)
}

/// Counts the events in `phase`.
pub fn count_phase(events: &[TouchEvent], phase: TouchPhase) -> (r: usize)
    ensures
        r == events_in_phase(events@, phase).len(),
{
    let mut count: usize = 0;
    let mut i: usize = 0;
    let ghost wanted = |event: TouchEvent| event.phase == phase;
    while i < events.len()
        invariant
            i <= events@.len(),
            count <= i,
            wanted == (|event: TouchEvent| event.phase == phase),
            count == events@.take(i as int).filter(wanted).len(),
        decreases events@.len() - i,
    {
        proof {
            reveal(Seq::filter);
            assert(events@.take(i + 1).drop_last() =~= events@.take(i as int));
        }
        if events[i].phase == phase {
            count += 1;
        }
        i += 1;
    }
    assert(events@.take(i as int) =~= events@);
    count
}

/// The samples of one frame of a drag, from one source.
pub struct InputPlan {
    pub source: StrokeInputSource,
    pub samples: Vec<InputSampleContext>,
}

/// The samples that the moves among `events` stand for.
pub open spec fn touch_samples(events: Seq<TouchEvent>, time_seconds: Double) -> Seq<
    InputSampleContext,
> {
    let moves = events_in_phase(events, TouchPhase::Move);
    moves.map_values(
        |event: TouchEvent|
            touch_context(event, stylus_phase(event.phase), time_seconds, moves.len() as usize),
    )
}

/// The samples that pointer positions stand for.
pub open spec fn pointer_samples(positions: Seq<ScreenPos>, time_seconds: Double) -> Seq<
    InputSampleContext,
> {
    positions.map_values(
        |pos: ScreenPos|
            pointer_context(pos, StylusPhase::Move, time_seconds, positions.len() as usize),
    )
}

/// The samples of one frame of a drag. Touch events win over pointer positions, and of
/// them only moves are sampled.
pub fn input_stroke_points(
    touch_events: &[TouchEvent],
    pointer_positions: &[ScreenPos],
    time_seconds: Double,
) -> (r: InputPlan)
    ensures
        touch_events@.len() > 0 ==> r.source == StrokeInputSource::Touch && r.samples@
            == touch_samples(touch_events@, time_seconds),
        touch_events@.len() == 0 ==> r.source == StrokeInputSource::PointerFallback && r.samples@
            == pointer_samples(pointer_positions@, time_seconds),
{
    let mut samples: Vec<InputSampleContext> = Vec::new();
    if touch_events.len() > 0 {
        let batch_size: usize = count_phase(touch_events, TouchPhase::Move);
        let ghost wanted = |event: TouchEvent| event.phase == TouchPhase::Move;
        let ghost context = |event: TouchEvent|
            touch_context(event, stylus_phase(event.phase), time_seconds, batch_size);
        let mut i: usize = 0;
        while i < touch_events.len()
            invariant
                i <= touch_events@.len(),
                wanted == (|event: TouchEvent| event.phase == TouchPhase::Move),
                context == (|event: TouchEvent|
                    touch_context(event, stylus_phase(event.phase), time_seconds, batch_size)),
                samples@ == touch_events@.take(i as int).filter(wanted).map_values(context),
            decreases touch_events@.len() - i,
        {
            let ghost before = touch_events@.take(i as int);
            proof {
                reveal(Seq::filter);
                assert(touch_events@.take(i + 1).drop_last() =~= before);
            }
            let event = touch_events[i];
            if touch_phase_appends_to_active_stroke(event.phase) {
                samples.push(
                    InputSampleContext {
                        pos: event.pos,
                        phase: stylus_phase_of_touch(event.phase),
                        force: event.force,
                        time_seconds,
                        batch_size,
                        source: StrokeInputSource::Touch,
                    },
                );
                assert(before.filter(wanted).push(event).map_values(context)
                    =~= before.filter(wanted).map_values(context).push(context(event)));
            }
            i += 1;
        }
        assert(touch_events@.take(i as int) =~= touch_events@);
        return InputPlan { source: StrokeInputSource::Touch, samples };
    }
    let batch_size: usize = pointer_positions.len();
    let mut i: usize = 0;
    while i < pointer_positions.len()
        invariant
            i <= pointer_positions@.len(),
            batch_size == pointer_positions@.len(),
            samples@.len() == i,
            forall|j: int|
                0 <= j < i ==> #[trigger] samples@[j] == pointer_context(
                    pointer_positions@[j],
                    StylusPhase::Move,
                    time_seconds,
                    batch_size,
                ),
        decreases pointer_positions@.len() - i,
    {
        samples.push(
            InputSampleContext {
                pos: pointer_positions[i],
                phase: StylusPhase::Move,
                force: None,
                time_seconds,
                batch_size,
                source: StrokeInputSource::PointerFallback,
            },
        );
        i += 1;
    }
    assert(samples@ =~= pointer_samples(pointer_positions@, time_seconds));
    InputPlan { source: StrokeInputSource::PointerFallback, samples }
}

/// Every sample of a touch batch is a move, knows the size of its batch, and comes from a
/// move event: starts, ends and cancellations are never appended.
pub proof fn touch_batches_hold_moves_only(events: Seq<TouchEvent>, time_seconds: Double)
    ensures
        touch_samples(events, time_seconds).len() <= events.len(),
        forall|i: int|
            0 <= i < touch_samples(events, time_seconds).len() ==> {
                let sample = #[trigger] touch_samples(events, time_seconds)[i];
                &&& sample.phase == StylusPhase::Move
                &&& sample.source == StrokeInputSource::Touch
                &&& sample.batch_size == touch_samples(events, time_seconds).len() as usize
                &&& exists|j: int|
                    0 <= j < events.len() && (#[trigger] events[j]).phase == TouchPhase::Move
                        && events[j].pos == sample.pos && events[j].force == sample.force
            },
{
    let wanted = |event: TouchEvent| event.phase == TouchPhase::Move;
    let moves = events.filter(wanted);
    events.lemma_filter_len(wanted);
    assert forall|i: int| 0 <= i < touch_samples(events, time_seconds).len() implies ({
        let sample = #[trigger] touch_samples(events, time_seconds)[i];
        &&& sample.phase == StylusPhase::Move
        &&& sample.source == StrokeInputSource::Touch
        &&& sample.batch_size == touch_samples(events, time_seconds).len() as usize
        &&& exists|j: int|
            0 <= j < events.len() && (#[trigger] events[j]).phase == TouchPhase::Move
                && events[j].pos == sample.pos && events[j].force == sample.force
    }) by {
        events.lemma_filter_pred(wanted, i);
        assert(moves.contains(moves[i]));
        events.lemma_filter_contains_rev(wanted, moves[i]);
        let j = choose|j: int| 0 <= j < events.len() && events[j] == moves[i];
        assert(events[j].phase == TouchPhase::Move);
    }
}

/// What a batch of native samples means for the stroke under way.
pub struct NativeRoute {
    /// The sample that begins a stroke.
    pub begin_index: Option<usize>,
    /// Whether the pen was lifted or lost.
    pub stopped: bool,
    /// The samples that extend a stroke.
    pub updates: Vec<StrokeInputPoint>,
}

impl NativeRoute {
    /// Whether a drag starts in a frame: with the pointer, or with a sample that begins a
    /// stroke.
    pub fn drag_starts(&self, pointer_started: bool) -> (r: bool)
        ensures
            r == (pointer_started || self.begin_index is Some),
    {
        pointer_started || self.begin_index.is_some()
    }

    /// Whether a drag stops in a frame: with the pointer, or with the pen.
    pub fn drag_stops(&self, pointer_stopped: bool) -> (r: bool)
        ensures
            r == (pointer_stopped || self.stopped),
    {
        pointer_stopped || self.stopped
    }
}

pub open spec fn native_begins(input: NativeInputPoint, canvas: ScreenRect) -> bool {
    input.phase == StylusPhase::Down && canvas.holds(input.window_pos)
}

pub open spec fn native_stops(input: NativeInputPoint) -> bool {
    input.phase == StylusPhase::Up || input.phase == StylusPhase::Cancel
}

/// The samples of `points` that extend a stroke, in order.
pub open spec fn native_updates(points: Seq<NativeInputPoint>) -> Seq<StrokeInputPoint> {
    points.filter(|input: NativeInputPoint| input.phase == StylusPhase::Move).map_values(
        |input: NativeInputPoint| input.point,
    )
}

/// Splits a batch of native samples into what begins, extends and ends a stroke on
/// `canvas`. A stroke begins with the first pen-down inside the canvas, which never
/// extends it as well.
pub fn route_native_input(points: &[NativeInputPoint], canvas: ScreenRect) -> (r: NativeRoute)
    ensures
        match r.begin_index {
            Some(index) => index < points@.len() && native_begins(points@[index as int], canvas) && (
            forall|i: int| 0 <= i < index ==> !native_begins(#[trigger] points@[i], canvas)),
            None => forall|i: int|
                0 <= i < points@.len() ==> !native_begins(#[trigger] points@[i], canvas),
        },
        r.stopped <==> exists|i: int| 0 <= i < points@.len() && native_stops(#[trigger] points@[i]),
        r.updates@ == native_updates(points@),
{
    let mut begin_index: Option<usize> = None;
    let mut stopped = false;
    let mut updates: Vec<StrokeInputPoint> = Vec::new();
    let mut i: usize = 0;
    let ghost moves = |input: NativeInputPoint| input.phase == StylusPhase::Move;
    let ghost sample = |input: NativeInputPoint| input.point;
    while i < points.len()
        invariant
            i <= points@.len(),
            moves == (|input: NativeInputPoint| input.phase == StylusPhase::Move),
            sample == (|input: NativeInputPoint| input.point),
            match begin_index {
                Some(index) => index < i && native_begins(points@[index as int], canvas) && (forall|
                    j: int,
                |
                    0 <= j < index ==> !native_begins(#[trigger] points@[j], canvas)),
                None => forall|j: int|
                    0 <= j < i ==> !native_begins(#[trigger] points@[j], canvas),
            },
            stopped <==> exists|j: int| 0 <= j < i && native_stops(#[trigger] points@[j]),
            updates@ == points@.take(i as int).filter(moves).map_values(sample),
        decreases points@.len() - i,
    {
        let input = points[i];
        let ghost before = points@.take(i as int);
        proof {
            reveal(Seq::filter);
            assert(points@.take(i + 1).drop_last() =~= before);
            assert(native_stops(points@[i as int]) == native_stops(input));
        }
        if begin_index.is_none() && native_phase_can_begin_stroke(input.phase) && canvas.contains(
            input.window_pos,
        ) {
            begin_index = Some(i);
        }
        if native_phase_stops_active_stroke(input.phase) {
            stopped = true;
        }
        if native_phase_appends_to_active_stroke(input.phase) {
            updates.push(input.point);
            assert(before.filter(moves).push(input).map_values(sample) =~= before.filter(
                moves,
            ).map_values(sample).push(sample(input)));
        }
        i += 1;
    }
    assert(points@.take(i as int) =~= points@);
    NativeRoute { begin_index, stopped, updates }
}

/// Where the samples of a frame of a stroke come from.
pub enum FrameInput {
    /// These samples, which were taken already.
    Taken { source: StrokeInputSource, points: Vec<StrokeInputPoint> },
    /// Samples that have to be taken as planned.
    Planned(InputPlan),
}

/// The samples of a frame of a stroke: those of the native pointer, or, if it brought none,
/// those that the window's own events stand for.
pub fn choose_frame_input(native_updates: Vec<StrokeInputPoint>, fallback: InputPlan) -> (r:
    FrameInput)
    ensures
        r == if native_updates@.len() == 0 {
            FrameInput::Planned(fallback)
        } else {
            FrameInput::Taken {
                source: StrokeInputSource::WindowsPointer,
                points: native_updates,
            }
        },
{
    if native_updates.len() == 0 {
        FrameInput::Planned(fallback)
    } else {
        FrameInput::Taken { source: StrokeInputSource::WindowsPointer, points: native_updates }
    }
}

/// `gaps` are the distances between neighbors of `points`.
pub open spec fn gaps_between<F: Fn(StrokePoint, StrokePoint) -> Single>(
    points: Seq<NativeInputPoint>,
    distance: F,
    gaps: Seq<Single>,
) -> bool {
    &&& gaps.len() == if points.len() == 0 {
        0
    } else {
        points.len() - 1
    }
    &&& forall|i: int|
        0 <= i < gaps.len() ==> call_ensures(
            distance,
            (stroke_point(points[i].point), stroke_point(points[i + 1].point)),
            #[trigger] gaps[i],
        )
}

/// The widest gap between neighboring samples on the canvas, as `distance` measures it.
pub fn native_input_batch_max_gap<F: Fn(StrokePoint, StrokePoint) -> Single>(
    points: &[NativeInputPoint],
    distance: F,
) -> (r: Single)
    requires
        forall|a: StrokePoint, b: StrokePoint| call_requires(distance, (a, b)),
    ensures
        exists|gaps: Seq<Single>|
            #[trigger] gaps_between(points@, distance, gaps) && r == crate::range::largest(gaps),
{
    let mut widest = Single::zero();
    let ghost mut gaps: Seq<Single> = Seq::empty();
    let mut i: usize = 1;
    if points.len() == 0 {
        assert(gaps_between(points@, distance, gaps));
        return widest;
    }
    while i < points.len()
        invariant
            1 <= i <= points@.len(),
            forall|a: StrokePoint, b: StrokePoint| call_requires(distance, (a, b)),
            gaps.len() == i - 1,
            forall|j: int|
                0 <= j < i - 1 ==> call_ensures(
                    distance,
                    (stroke_point(points@[j].point), stroke_point(points@[j + 1].point)),
                    #[trigger] gaps[j],
                ),
            widest == crate::range::largest(gaps),
        decreases points@.len() - i,
    {
        let gap = distance(
            stroke_point_from_input(points[i - 1].point),
            stroke_point_from_input(points[i].point),
        );
        widest = widest.max(gap);
        proof {
            assert(gaps.push(gap).drop_last() =~= gaps);
            gaps = gaps.push(gap);
        }
        i += 1;
    }
    assert(gaps_between(points@, distance, gaps));
    widest
}

} // verus!
