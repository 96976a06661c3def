//! The trail of raw input that is drawn ahead of the stabilized stroke.

use crate::geometry::StrokePoint;
use crate::scalar::Single;
use vstd::prelude::*;

verus! {

/// How many raw points are kept.
pub const RAW_LEAD_POINT_LIMIT: usize = 96;

/// How many segments of the trail are drawn at most.
pub const RAW_LEAD_SEGMENT_LIMIT: usize = 48;

/// The squared distance up to which two points count as one: the gap between one and the
/// next larger binary32 value.
pub const COINCIDENCE: u32 = 0x3400_0000;

/// Where the drawn part of a trail of `length` points may start at the earliest.
pub open spec fn trail_floor(length: nat) -> int {
    if length > RAW_LEAD_SEGMENT_LIMIT + 1 {
        length - (RAW_LEAD_SEGMENT_LIMIT + 1)
    } else {
        0
    }
}

/// The index of the smallest distance; of equally small ones, the first. A NaN neither
/// replaces another distance nor is replaced.
pub open spec fn nearest(distances: Seq<Single>) -> int
    decreases distances.len(),
{
    if distances.len() <= 1 {
        0
    } else {
        let best = nearest(distances.drop_last());
        if distances.last().below(distances[best]) {
            distances.len() - 1
        } else {
            best
        }
    }
}

/// `distances` are the distances of the points of `points` from `start` on to `tip`.
pub open spec fn distances_to_tip<F: Fn(StrokePoint, StrokePoint) -> Single>(
    points: Seq<StrokePoint>,
    start: int,
    tip: StrokePoint,
    distance_squared: F,
    distances: Seq<Single>,
) -> bool {
    &&& distances.len() == points.len() - start
    &&& forall|i: int|
        0 <= i < distances.len() ==> call_ensures(
            distance_squared,
            (points[start + i], tip),
            #[trigger] distances[i],
        )
}

/// Where the drawn part of a trail starts, given how far its recent points are from the
/// stabilized tip: one point before the nearest one, but not before the floor.
pub open spec fn tail_start(floor: int, distances: Seq<Single>) -> int {
    if nearest(distances) == 0 {
        floor
    } else {
        floor + nearest(distances) - 1
    }
}

/// Where the drawn part of the trail starts. `core_tip` is where the stabilized stroke
/// ends.
pub fn raw_lead_tail_start<F: Fn(StrokePoint, StrokePoint) -> Single>(
    points: &[StrokePoint],
    core_tip: Option<StrokePoint>,
    distance_squared: F,
) -> (r: usize)
    requires
        forall|a: StrokePoint, b: StrokePoint| call_requires(distance_squared, (a, b)),
    ensures
        points@.len() <= 2 ==> r == 0,
        points@.len() > 2 && core_tip is None ==> r == trail_floor(points@.len()),
        points@.len() > 2 && core_tip is Some ==> exists|distances: Seq<Single>|
            #[trigger] distances_to_tip(
                points@,
                trail_floor(points@.len()),
                core_tip->0,
                distance_squared,
                distances,
            ) && r == tail_start(trail_floor(points@.len()), distances),
        points@.len() > 0 ==> r < points@.len(),
        points@.len() - r <= RAW_LEAD_SEGMENT_LIMIT + 1,
{
    if points.len() <= 2 {
        return 0;
    }
    let floor: usize = points.len().saturating_sub(RAW_LEAD_SEGMENT_LIMIT + 1);
    let tip = match core_tip {
        Some(tip) => tip,
        None => return floor,
    };
    let mut best: usize = floor;
    let mut best_distance = distance_squared(points[floor], tip);
    let ghost mut distances: Seq<Single> = seq![best_distance];
    let mut i: usize = floor + 1;
    while i < points.len()
        invariant
            floor < i <= points@.len(),
            floor == trail_floor(points@.len()),
            forall|a: StrokePoint, b: StrokePoint| call_requires(distance_squared, (a, b)),
            distances.len() == i - floor,
            forall|j: int|
                0 <= j < distances.len() ==> call_ensures(
                    distance_squared,
                    (points@[floor + j], tip),
                    #[trigger] distances[j],
                ),
            floor <= best < i,
            best == floor + nearest(distances),
            best_distance == distances[best - floor],
        decreases points@.len() - i,
    {
        let candidate = distance_squared(points[i], tip);
        proof {
            assert(distances.push(candidate).drop_last() =~= distances);
            distances = distances.push(candidate);
        }
        if candidate.lt(best_distance) {
            best = i;
            best_distance = candidate;
        }
        i += 1;
    }
    assert(distances_to_tip(points@, floor as int, tip, distance_squared, distances));
    if best > floor {
        best - 1
    } else {
        floor
    }
}

/// Among distances without a NaN, the nearest point is at least as near as every other,
/// and nearer than every earlier one.
pub proof fn nearest_is_least(distances: Seq<Single>)
    requires
        distances.len() > 0,
        forall|i: int| 0 <= i < distances.len() ==> !(#[trigger] distances[i]).nan(),
    ensures
        0 <= nearest(distances) < distances.len(),
        forall|i: int|
            0 <= i < distances.len() ==> distances[nearest(distances)].rank() <= (
            #[trigger] distances[i]).rank(),
        forall|i: int|
            0 <= i < nearest(distances) ==> distances[nearest(distances)].rank() < (
            #[trigger] distances[i]).rank(),
    decreases distances.len(),
{
    if distances.len() > 1 {
        let before = distances.drop_last();
        assert forall|i: int| 0 <= i < before.len() implies !(#[trigger] before[i]).nan() by {
            assert(before[i] == distances[i]);
        }
        nearest_is_least(before);
        assert(forall|i: int| 0 <= i < before.len() ==> distances[i] == #[trigger] before[i]);
        assert forall|i: int| 0 <= i < distances.len() implies distances[nearest(
            distances,
        )].rank() <= (#[trigger] distances[i]).rank() by {
            if i < before.len() {
                assert(before[i] == distances[i]);
            }
        }
        assert forall|i: int| 0 <= i < nearest(distances) implies distances[nearest(
            distances,
        )].rank() < (#[trigger] distances[i]).rank() by {
            if i < before.len() {
                assert(before[i] == distances[i]);
            }
        }
    }
}

/// A quarter, the squared distance beyond which the trail is worth drawing.
pub const VISIBLE_LEAD: u32 = 0x3e80_0000;

/// Whether the trail is drawn: it is not empty, and it ends away from the stabilized tip,
/// as far as there is one.
pub fn draws_raw_lead<F: Fn(StrokePoint, StrokePoint) -> Single>(
    points: &[StrokePoint],
    core_tip: Option<StrokePoint>,
    distance_squared: F,
) -> (r: bool)
    requires
        forall|a: StrokePoint, b: StrokePoint| call_requires(distance_squared, (a, b)),
    ensures
        points@.len() == 0 ==> !r,
        points@.len() > 0 && core_tip is None ==> r,
        points@.len() > 0 && core_tip is Some ==> exists|gap: Single|
            #[trigger] call_ensures(distance_squared, (core_tip->0, points@.last()), gap) && r == (
            Single { bits: VISIBLE_LEAD }).below(gap),
{
    if points.len() == 0 {
        return false;
    }
    match core_tip {
        None => true,
        Some(tip) => {
            let gap = distance_squared(tip, points[points.len() - 1]);
            (Single { bits: VISIBLE_LEAD }).lt(gap)
        },
    }
}

/// The last points of a trail, as many as are kept.
pub open spec fn recent(points: Seq<StrokePoint>) -> Seq<StrokePoint> {
    if points.len() > RAW_LEAD_POINT_LIMIT {
        points.skip(points.len() - RAW_LEAD_POINT_LIMIT)
    } else {
        points
    }
}

/// `after` is the trail `before` once `point` was offered to it: unchanged if `point`
/// coincides with its end, else with `point` at its end.
pub open spec fn extended<F: Fn(StrokePoint, StrokePoint) -> Single>(
    before: Seq<StrokePoint>,
    point: StrokePoint,
    distance_squared: F,
    after: Seq<StrokePoint>,
) -> bool {
    if before.len() == 0 {
        after == seq![point]
    } else {
        exists|gap: Single|
            {
                &&& #[trigger] call_ensures(distance_squared, (point, before.last()), gap)
                &&& after == if gap.at_most(Single { bits: COINCIDENCE }) {
                    before
                } else {
                    recent(before.push(point))
                }
            }
    }
}

/// Adds `point` to the end of the trail, unless it coincides with the last point, and
/// drops the oldest points beyond the limit.
pub fn push_raw_lead_point<F: Fn(StrokePoint, StrokePoint) -> Single>(
    points: &mut Vec<StrokePoint>,
    point: StrokePoint,
    distance_squared: F,
)
    requires
        forall|a: StrokePoint, b: StrokePoint| call_requires(distance_squared, (a, b)),
    ensures
        extended(old(points)@, point, distance_squared, final(points)@),
        old(points)@.len() <= RAW_LEAD_POINT_LIMIT ==> final(points)@.len() <= RAW_LEAD_POINT_LIMIT,
{
    let length: usize = points.len();
    if length > 0 {
        let gap = distance_squared(point, points[length - 1]);
        if gap.le(Single { bits: COINCIDENCE }) {
            return;
        }
    }
    points.push(point);
    let overflow: usize = points.len().saturating_sub(RAW_LEAD_POINT_LIMIT);
    if overflow > 0 {
        let kept = points.split_off(overflow);
        *points = kept;
    }
    assert(points@ =~= recent(old(points)@.push(point)));
    assert(length == 0 ==> points@ =~= seq![point]);
}

} // verus!
