//! Selecting by rectangle and by lasso, and how a selection meets the one before.

use crate::command::CanvasCommand;
use crate::geometry::StrokePoint;
use crate::input::StrokeInputPoint;
use crate::scalar::Single;
use crate::selection::{
    SelectionCombineMode, SelectionDrag, SelectionPoint, SelectionRect, SelectionState, ToolMode,
};
use crate::shell::{CanvasApp, DragEnd};
use vstd::prelude::*;

verus! {

/// How the selection of a command meets the one before: it replaces it, or is combined with
/// it in a mode.
pub open spec fn combines(command: CanvasCommand) -> Option<SelectionCombineMode> {
    match command {
        CanvasCommand::SetRectSelection(_) => Some(SelectionCombineMode::Replace),
        CanvasCommand::SetPolygonSelection(_) => Some(SelectionCombineMode::Replace),
        CanvasCommand::CombineRectSelection { mode, .. } => Some(mode),
        CanvasCommand::CombinePolygonSelection { mode, .. } => Some(mode),
        _ => None,
    }
}

/// The rectangle that a command selects.
pub open spec fn selected_rect(command: CanvasCommand) -> Option<SelectionRect> {
    match command {
        CanvasCommand::SetRectSelection(rect) => Some(rect),
        CanvasCommand::CombineRectSelection { rect, .. } => Some(rect),
        _ => None,
    }
}

/// The corners that a command selects between.
pub open spec fn selected_corners(command: CanvasCommand) -> Option<Seq<SelectionPoint>> {
    match command {
        CanvasCommand::SetPolygonSelection(polygon) => Some(polygon.points@),
        CanvasCommand::CombinePolygonSelection { polygon, .. } => Some(polygon.points@),
        _ => None,
    }
}

/// A rectangle that was dragged out is selected in the mode that the panel shows: it replaces
/// the selection before in the mode for that and in no other, and in every other mode it is
/// combined in that very mode. There is a command just when there is a pixel in the rectangle.
pub proof fn rectangles_are_selected_in_their_mode(
    selection: SelectionState,
    start: SelectionPoint,
    end: SelectionPoint,
    rect: Option<SelectionRect>,
    command: Option<CanvasCommand>,
)
    requires
        call_ensures(SelectionState::apply_rect_selection, (&selection, start, end), command),
        call_ensures(crate::selection::selection_rect_from_points, (start, end), rect),
    ensures
        command is Some <==> rect is Some,
        command is Some ==> selected_rect(command->0) == rect,
        command is Some ==> combines(command->0) == Some(selection.selection_mode),
        command is Some ==> (command->0 is SetRectSelection <==> selection.selection_mode
            == SelectionCombineMode::Replace),
{
}

/// A lasso with three corners is selected in the mode that the panel shows, with all of its
/// corners in order; one with fewer is not selected.
pub proof fn lassos_are_selected_in_their_mode(
    selection: SelectionState,
    command: Option<CanvasCommand>,
)
    requires
        call_ensures(SelectionState::apply_lasso_selection, (&selection,), command),
    ensures
        command is Some <==> selection.lasso_points@.len() >= 3,
        command is Some ==> selected_corners(command->0) == Some(selection.lasso_points@),
        command is Some ==> combines(command->0) == Some(selection.selection_mode),
        command is Some ==> (command->0 is SetPolygonSelection <==> selection.selection_mode
            == SelectionCombineMode::Replace),
{
}

/// A rectangle and a lasso meet the selection before in the same way.
pub proof fn tools_combine_alike(
    selection: SelectionState,
    start: SelectionPoint,
    end: SelectionPoint,
    rect: Option<CanvasCommand>,
    lasso: Option<CanvasCommand>,
)
    requires
        call_ensures(SelectionState::apply_rect_selection, (&selection, start, end), rect),
        call_ensures(SelectionState::apply_lasso_selection, (&selection,), lasso),
        rect is Some,
        lasso is Some,
    ensures
        combines(rect->0) == combines(lasso->0),
        combines(rect->0) is Some,
{
}

/// The end of a drag selects what its tool dragged out, and what no other tool did: the
/// rectangle between the corners of the drag, or the lasso, and with the brush nothing.
pub proof fn drags_select_what_their_tool_dragged_out(
    selection: SelectionState,
    tool: ToolMode,
    end: Option<CanvasCommand>,
    start: SelectionPoint,
    current: SelectionPoint,
    rect: Option<CanvasCommand>,
)
    requires
        call_ensures(SelectionState::end_command, (&selection, tool), end),
        selection.selection_drag == Some(SelectionDrag::Rect { start, current }) ==> call_ensures(
            SelectionState::apply_rect_selection,
            (&selection, start, current),
            rect,
        ),
    ensures
        tool == ToolMode::Brush ==> end is None,
        tool == ToolMode::RectSelection && selection.selection_drag == Some(
            SelectionDrag::Rect { start, current },
        ) ==> end == rect,
        tool == ToolMode::RectSelection && !(selection.selection_drag is Some
            && selection.selection_drag->0 is Rect) ==> end is None,
        tool == ToolMode::RectSelection && end is Some ==> selected_rect(end->0) is Some,
        tool == ToolMode::LassoSelection ==> (end is Some <==> selection.lasso_points@.len() >= 3),
        tool == ToolMode::LassoSelection && end is Some ==> selected_corners(end->0) == Some(
            selection.lasso_points@,
        ),
        end is Some ==> combines(end->0) == Some(selection.selection_mode),
{
}

/// What the engine executes at the end of a drag with a selection tool is what the drag
/// selected.
pub proof fn the_engine_selects_what_was_dragged_out(
    app: &mut CanvasApp,
    end: DragEnd,
    command: Option<CanvasCommand>,
)
    requires
        call_ensures(CanvasApp::end_drag, (app,), end),
        call_ensures(
            SelectionState::end_command,
            (&old(app).selection, old(app).tool_mode),
            command,
        ),
        old(app).tool_mode != ToolMode::Brush,
    ensures
        end is Selection <==> command is Some,
        end is Nothing <==> command is None,
        end is Selection ==> combines(end->Selection_0) == Some(old(app).selection.selection_mode),
        end is Selection ==> selected_rect(end->Selection_0) == selected_rect(command->0),
        end is Selection ==> selected_corners(end->Selection_0) == selected_corners(command->0),
{
}

/// A rectangle that is dragged goes from where the drag began to where it is now, however
/// often it moved in between.
pub proof fn rectangles_go_from_start_to_now(
    begun: &mut SelectionState,
    dragged: &mut SelectionState,
    again: &mut SelectionState,
    start: SelectionPoint,
    between: SelectionPoint,
    now: SelectionPoint,
)
    requires
        call_ensures(SelectionState::begin_rect, (begun, start), ()),
        call_ensures(SelectionState::drag_rect, (dragged, between), ()),
        call_ensures(SelectionState::drag_rect, (again, now), ()),
        *old(dragged) == *final(begun),
        *old(again) == *final(dragged),
    ensures
        final(begun).selection_drag == Some(SelectionDrag::Rect { start, current: start }),
        final(dragged).selection_drag == Some(SelectionDrag::Rect { start, current: between }),
        final(again).selection_drag == Some(SelectionDrag::Rect { start, current: now }),
        final(again).selection_mode == old(begun).selection_mode,
        final(again).lasso_points == old(begun).lasso_points,
{
}

/// Where no rectangle is dragged, moving the pointer drags none out.
pub proof fn nothing_is_dragged_out_of_nothing(selection: &mut SelectionState, now: SelectionPoint)
    requires
        call_ensures(SelectionState::drag_rect, (selection, now), ()),
        !(old(selection).selection_drag is Some && old(selection).selection_drag->0 is Rect),
    ensures
        *final(selection) == *old(selection),
{
}

/// A new lasso has the corner where it was begun, and none of an earlier one.
pub proof fn lassos_begin_with_one_corner(selection: &mut SelectionState, start: SelectionPoint)
    requires
        call_ensures(SelectionState::begin_lasso, (selection, start), ()),
    ensures
        final(selection).selection_drag == Some(SelectionDrag::Lasso),
        final(selection).lasso_points@.len() == 1,
        final(selection).lasso_points@[0] == start,
        final(selection).selection_mode == old(selection).selection_mode,
{
}

/// A corner that is offered to a lasso is added at its end just when it is a pixel and a half
/// or more from the last one; whatever the lasso had, it keeps.
pub proof fn lassos_grow_by_corners_apart<F: Fn(SelectionPoint, SelectionPoint) -> Single>(
    selection: &mut SelectionState,
    point: SelectionPoint,
    distance: F,
    apart: bool,
)
    requires
        call_ensures(SelectionState::extend_lasso::<F>, (selection, point, distance), ()),
        old(selection).lasso_points@.len() > 0 ==> forall|gap: Single| #[trigger]
            call_ensures(distance, (old(selection).lasso_points@.last(), point), gap) ==> apart == (
            Single { bits: 0x3fc0_0000 }).at_most(gap),
    ensures
        final(selection).selection_mode == old(selection).selection_mode,
        final(selection).selection_drag == old(selection).selection_drag,
        old(selection).lasso_points@.len() == 0 ==> final(selection).lasso_points@ == seq![point],
        old(selection).lasso_points@.len() > 0 && apart ==> final(selection).lasso_points@
            == old(selection).lasso_points@.push(point),
        old(selection).lasso_points@.len() > 0 && !apart ==> final(selection).lasso_points@
            == old(selection).lasso_points@,
{
}

/// A frame's samples only add to the lasso: it keeps its corners, and every corner that it
/// gains is where a sample was.
pub proof fn lassos_keep_their_corners<
    F: Fn(SelectionPoint, SelectionPoint) -> Single + Copy,
>(
    selection: &mut SelectionState,
    points: &[StrokeInputPoint],
    distance: F,
)
    requires
        call_ensures(SelectionState::extend_lasso_by::<F>, (selection, points, distance), ()),
    ensures
        final(selection).selection_mode == old(selection).selection_mode,
        final(selection).selection_drag == old(selection).selection_drag,
        old(selection).lasso_points@.is_prefix_of(final(selection).lasso_points@),
        final(selection).lasso_points@.len() <= old(selection).lasso_points@.len() + points@.len(),
        old(selection).lasso_points@.len() == 0 && points@.len() > 0
            ==> final(selection).lasso_points@.len() > 0 && final(selection).lasso_points@[0].x
            == points@[0].point.x && final(selection).lasso_points@[0].y == points@[0].point.y,
        forall|k: int|
            old(selection).lasso_points@.len() <= k < final(selection).lasso_points@.len()
                ==> exists|i: int|
                0 <= i < points@.len() && (#[trigger] points@[i]).point.x == (
                #[trigger] final(selection).lasso_points@[k]).x && points@[i].point.y
                    == final(selection).lasso_points@[k].y,
{
    let states = choose|states: Seq<Seq<SelectionPoint>>|
        {
            &&& #[trigger] crate::selection::lassoed_in_turn(states, points@, distance)
            &&& states[0] == old(selection).lasso_points@
            &&& states[points@.len() as int] == final(selection).lasso_points@
        };
    lemma_lassos_grow(states, points@, distance, points@.len() as int);
    if old(selection).lasso_points@.len() == 0 && points@.len() > 0 {
        assert(crate::selection::lassoed(
            states[0],
            crate::selection::corner(points@[0]),
            distance,
            states[1],
        ));
        lemma_first_corners_stay(states, points@, distance, points@.len() as int);
    }
}

/// A frame's samples are offered to the lasso one after the other: what comes of all of them
/// is what comes of offering it all but the last, and then the last.
pub proof fn lassos_take_samples_one_by_one<
    F: Fn(SelectionPoint, SelectionPoint) -> Single + Copy,
>(
    whole: &mut SelectionState,
    earlier: &mut SelectionState,
    last: &mut SelectionState,
    points: &[StrokeInputPoint],
    but_last: &[StrokeInputPoint],
    corner: SelectionPoint,
    distance: F,
)
    requires
        call_ensures(SelectionState::extend_lasso_by::<F>, (whole, points, distance), ()),
        call_ensures(SelectionState::extend_lasso_by::<F>, (earlier, but_last, distance), ()),
        call_ensures(SelectionState::extend_lasso::<F>, (last, corner, distance), ()),
        points@.len() > 0,
        but_last@ == points@.drop_last(),
        corner.x == points@.last().point.x,
        corner.y == points@.last().point.y,
        *old(earlier) == *old(whole),
        *old(last) == *final(earlier),
        forall|a: SelectionPoint, b: SelectionPoint, u: Single, v: Single| #[trigger]
            call_ensures(distance, (a, b), u) && #[trigger] call_ensures(distance, (a, b), v) ==> u
                == v,
    ensures
        final(last).lasso_points@ == final(whole).lasso_points@,
        final(last).selection_drag == final(whole).selection_drag,
        final(last).selection_mode == final(whole).selection_mode,
{
    let x = choose|x: Seq<Seq<SelectionPoint>>|
        {
            &&& #[trigger] crate::selection::lassoed_in_turn(x, points@, distance)
            &&& x[0] == old(whole).lasso_points@
            &&& x[points@.len() as int] == final(whole).lasso_points@
        };
    let y = choose|y: Seq<Seq<SelectionPoint>>|
        {
            &&& #[trigger] crate::selection::lassoed_in_turn(y, but_last@, distance)
            &&& y[0] == old(earlier).lasso_points@
            &&& y[but_last@.len() as int] == final(earlier).lasso_points@
        };
    let n = but_last@.len() as int;
    lemma_lassos_grow_alike(x, y, points@, but_last@, distance, n);
    assert(crate::selection::lassoed(
        x[n],
        crate::selection::corner(points@[n]),
        distance,
        x[n + 1],
    ));
    assert(crate::selection::corner(points@[n]) == corner);
}

/// Without samples a lasso stays as it is.
pub proof fn lassos_stay_without_samples<
    F: Fn(SelectionPoint, SelectionPoint) -> Single + Copy,
>(selection: &mut SelectionState, points: &[StrokeInputPoint], distance: F)
    requires
        call_ensures(SelectionState::extend_lasso_by::<F>, (selection, points, distance), ()),
        points@.len() == 0,
    ensures
        final(selection).lasso_points@ == old(selection).lasso_points@,
{
}

proof fn lemma_lassos_grow_alike<F: Fn(SelectionPoint, SelectionPoint) -> Single>(
    x: Seq<Seq<SelectionPoint>>,
    y: Seq<Seq<SelectionPoint>>,
    longer: Seq<StrokeInputPoint>,
    shorter: Seq<StrokeInputPoint>,
    distance: F,
    n: int,
)
    requires
        crate::selection::lassoed_in_turn(x, longer, distance),
        crate::selection::lassoed_in_turn(y, shorter, distance),
        x[0] == y[0],
        0 <= n <= shorter.len() <= longer.len(),
        forall|i: int| 0 <= i < shorter.len() ==> shorter[i] == longer[i],
        forall|a: SelectionPoint, b: SelectionPoint, u: Single, v: Single| #[trigger]
            call_ensures(distance, (a, b), u) && #[trigger] call_ensures(distance, (a, b), v) ==> u
                == v,
    ensures
        x[n] == y[n],
    decreases n,
{
    if n > 0 {
        lemma_lassos_grow_alike(x, y, longer, shorter, distance, n - 1);
        let corner = crate::selection::corner(longer[n - 1]);
        assert(shorter[n - 1] == longer[n - 1]);
        assert(crate::selection::lassoed(x[n - 1], corner, distance, x[n]));
        assert(crate::selection::lassoed(y[n - 1], corner, distance, y[n]));
    }
}

proof fn lemma_lassos_grow<F: Fn(SelectionPoint, SelectionPoint) -> Single>(
    states: Seq<Seq<SelectionPoint>>,
    points: Seq<StrokeInputPoint>,
    distance: F,
    n: int,
)
    requires
        crate::selection::lassoed_in_turn(states, points, distance),
        0 <= n <= points.len(),
    ensures
        states[0].is_prefix_of(states[n]),
        states[n].len() <= states[0].len() + n,
        forall|k: int|
            states[0].len() <= k < states[n].len() ==> exists|i: int|
                0 <= i < n && (#[trigger] points[i]).point.x == (#[trigger] states[n][k]).x
                    && points[i].point.y == states[n][k].y,
    decreases n,
{
    if n == 0 {
        assert(states[0].is_prefix_of(states[0]));
    } else {
        lemma_lassos_grow(states, points, distance, n - 1);
        let (before, after) = (states[n - 1], states[n]);
        assert(crate::selection::lassoed(
            before,
            crate::selection::corner(points[n - 1]),
            distance,
            states[n - 1 + 1],
        ));
        assert(before.is_prefix_of(after));
        assert(states[0].is_prefix_of(after)) by {
            assert(states[0] =~= after.subrange(0, states[0].len() as int));
        }
        assert forall|k: int| states[0].len() <= k < after.len() implies exists|i: int|
            0 <= i < n && (#[trigger] points[i]).point.x == (#[trigger] after[k]).x
                && points[i].point.y == after[k].y by {
            if k < before.len() {
                assert(before[k] == after[k]);
                let i = choose|i: int|
                    0 <= i < n - 1 && (#[trigger] points[i]).point.x == (before[k]).x
                        && points[i].point.y == before[k].y;
                assert(points[i].point.x == after[k].x);
            } else {
                assert(points[n - 1].point.x == after[k].x);
            }
        }
    }
}

proof fn lemma_first_corners_stay<F: Fn(SelectionPoint, SelectionPoint) -> Single>(
    states: Seq<Seq<SelectionPoint>>,
    points: Seq<StrokeInputPoint>,
    distance: F,
    n: int,
)
    requires
        crate::selection::lassoed_in_turn(states, points, distance),
        states[1].len() > 0,
        1 <= n <= points.len(),
    ensures
        states[n].len() > 0,
        states[n][0] == states[1][0],
    decreases n,
{
    if n > 1 {
        lemma_first_corners_stay(states, points, distance, n - 1);
        assert(crate::selection::lassoed(
            states[n - 1],
            crate::selection::corner(points[n - 1]),
            distance,
            states[n - 1 + 1],
        ));
    }
}

/// A corner of a selection is where the point of the canvas is.
pub proof fn corners_are_where_the_points_are(point: StrokePoint, corner: SelectionPoint)
    requires
        call_ensures(crate::selection::selection_point_from_canvas, (point,), corner),
    ensures
        corner.x == point.x,
        corner.y == point.y,
{
}

/// The rectangle between two corners on the canvas covers both, reaches less than a pixel
/// beyond them, and may be dragged out from either; there is none just when it would be empty.
pub proof fn rectangles_cover_what_was_dragged_over(
    a: SelectionPoint,
    b: SelectionPoint,
    rect: Option<SelectionRect>,
    turned: Option<SelectionRect>,
)
    requires
        call_ensures(crate::selection::selection_rect_from_points, (a, b), rect),
        call_ensures(crate::selection::selection_rect_from_points, (b, a), turned),
        a.x.finite() && a.y.finite() && b.x.finite() && b.y.finite(),
        0 <= a.x.value() <= crate::selection::pixel_value(u32::MAX as int),
        0 <= a.y.value() <= crate::selection::pixel_value(u32::MAX as int),
        0 <= b.x.value() <= crate::selection::pixel_value(u32::MAX as int),
        0 <= b.y.value() <= crate::selection::pixel_value(u32::MAX as int),
    ensures
        turned == rect,
        a.x.value() != b.x.value() && a.y.value() != b.y.value() ==> rect is Some,
        rect is Some ==> {
            let one = vstd::arithmetic::power2::pow2(149) as int;
            let rect = rect->0;
            let (left, right) = if a.x.value() < b.x.value() {
                (a.x.value(), b.x.value())
            } else {
                (b.x.value(), a.x.value())
            };
            let (top, bottom) = if a.y.value() < b.y.value() {
                (a.y.value(), b.y.value())
            } else {
                (b.y.value(), a.y.value())
            };
            &&& rect.width > 0 && rect.height > 0
            &&& rect.x * one <= left < (rect.x + 1) * one
            &&& rect.y * one <= top < (rect.y + 1) * one
            &&& (rect.x + rect.width - 1) * one < right <= (rect.x + rect.width) * one
            &&& (rect.y + rect.height - 1) * one < bottom <= (rect.y + rect.height) * one
        },
{
    crate::selection::corners_may_be_swapped(a, b);
    crate::selection::lemma_edges_cover(a.x, b.x);
    crate::selection::lemma_edges_cover(a.y, b.y);
    crate::scalar::rank_orders_values(a.x, b.x);
    crate::scalar::rank_orders_values(a.y, b.y);
    let one = vstd::arithmetic::power2::pow2(149) as int;
    let (left, right) = (
        crate::selection::low_edge(a.x, b.x),
        crate::selection::high_edge(a.x, b.x),
    );
    let (top, bottom) = (
        crate::selection::low_edge(a.y, b.y),
        crate::selection::high_edge(a.y, b.y),
    );
    if a.x.value() != b.x.value() {
        assert(left < right) by (nonlinear_arith)
            requires
                left * one < right * one,
                one > 0,
        ;
    }
    if a.y.value() != b.y.value() {
        assert(top < bottom) by (nonlinear_arith)
            requires
                top * one < bottom * one,
                one > 0,
        ;
    }
}

/// A corner beyond the left or the upper edge of the canvas is taken to be at that edge,
/// wherever the other corner is.
pub proof fn corners_off_the_canvas_are_taken_at_its_edge(
    a: SelectionPoint,
    b: SelectionPoint,
    rect: Option<SelectionRect>,
    at_left: Option<SelectionRect>,
    at_top: Option<SelectionRect>,
)
    requires
        call_ensures(crate::selection::selection_rect_from_points, (a, b), rect),
        call_ensures(
            crate::selection::selection_rect_from_points,
            (SelectionPoint { x: Single { bits: 0 }, y: a.y }, b),
            at_left,
        ),
        call_ensures(
            crate::selection::selection_rect_from_points,
            (SelectionPoint { x: a.x, y: Single { bits: 0 } }, b),
            at_top,
        ),
    ensures
        a.x.below(Single { bits: 0 }) ==> rect == at_left,
        a.y.below(Single { bits: 0 }) ==> rect == at_top,
{
    if a.x.below(Single { bits: 0 }) {
        lemma_edges_start_at_zero(a.x, b.x);
    }
    if a.y.below(Single { bits: 0 }) {
        lemma_edges_start_at_zero(a.y, b.y);
    }
}

proof fn lemma_edges_start_at_zero(a: Single, b: Single)
    requires
        a.below(Single { bits: 0 }),
    ensures
        crate::selection::low_edge(a, b) == crate::selection::low_edge(Single { bits: 0 }, b),
        crate::selection::high_edge(a, b) == crate::selection::high_edge(Single { bits: 0 }, b),
{
    let zero = Single { bits: 0 };
    lemma_nothing_lies_below_zero(a);
    lemma_nothing_lies_below_zero(zero);
    if !b.nan() && b.rank() <= 0 {
        lemma_nothing_lies_below_zero(b);
    }
}

proof fn lemma_nothing_lies_below_zero(x: Single)
    requires
        !x.nan(),
        x.rank() <= 0,
    ensures
        crate::scalar::floor_clamped(x) == 0,
        crate::scalar::ceil_clamped(x) == 0,
{
    let one = vstd::arithmetic::power2::pow2(149) as int;
    vstd::arithmetic::power2::lemma_pow2_pos(149);
    if x.finite() {
        crate::scalar::rank_orders_values(x, Single { bits: 0 });
        let value = x.value();
        assert(Single { bits: 0 }.value() == 0);
        assert(value / one <= 0 && (-value) / one >= 0) by (nonlinear_arith)
            requires
                value <= 0,
                one > 0,
        ;
    }
}

/// The selection tools start out replacing, with nothing dragged out.
pub proof fn selections_start_out_replacing(first: SelectionState)
    requires
        call_ensures(SelectionState::new, (), first),
    ensures
        first.selection_mode == SelectionCombineMode::Replace,
        first.selection_drag is None,
        first.lasso_points@.len() == 0,
{
}

} // verus!
