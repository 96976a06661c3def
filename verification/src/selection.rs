//! Selections: dragging out rectangles and lassos, and the commands they lead to.

use crate::command::{CanvasCommand, SelectionPolygon};
use crate::geometry::StrokePoint;
use crate::input::{stroke_point_from_input, StrokeInputPoint};
use crate::scalar::Single;
use vstd::prelude::*;

verus! {

/// What a drag on the canvas does.
#[derive(Clone, Copy, Debug, PartialEq, Eq, Structural)]
pub enum ToolMode {
    Brush,
    RectSelection,
    LassoSelection,
}

/// How a new selection meets the one before.
#[derive(Clone, Copy, Debug, PartialEq, Eq, Structural)]
pub enum SelectionCombineMode {
    Replace,
    Add,
    Subtract,
    Intersect,
}

pub open spec fn selection_mode_text(mode: SelectionCombineMode) -> Seq<char> {
    match mode {
        SelectionCombineMode::Replace => "替换"@,
        SelectionCombineMode::Add => "添加"@,
        SelectionCombineMode::Subtract => "减去"@,
        SelectionCombineMode::Intersect => "相交"@,
    }
}

pub fn selection_mode_label(mode: SelectionCombineMode) -> (r: &'static str)
    ensures
        r@ == selection_mode_text(mode),
{
    match mode {
        SelectionCombineMode::Replace => "替换",
        SelectionCombineMode::Add => "添加",
        SelectionCombineMode::Subtract => "减去",
        SelectionCombineMode::Intersect => "相交",
    }
}

/// A corner of a selection in canvas coordinates.
#[derive(Clone, Copy, Debug, PartialEq, Eq, Structural)]
pub struct SelectionPoint {
    pub x: Single,
    pub y: Single,
}

/// A rectangle of whole pixels.
#[derive(Clone, Copy, Debug, PartialEq, Eq, Structural)]
pub struct SelectionRect {
    pub x: u32,
    pub y: u32,
    pub width: u32,
    pub height: u32,
}

/// The selection that is being dragged out.
#[derive(Clone, Copy, Debug, PartialEq, Eq, Structural)]
pub enum SelectionDrag {
    Rect { start: SelectionPoint, current: SelectionPoint },
    Lasso,
}

pub fn selection_point_from_canvas(point: StrokePoint) -> (r: SelectionPoint)
    ensures
        r == (SelectionPoint { x: point.x, y: point.y }),
{
    SelectionPoint { x: point.x, y: point.y }
}

/// The first pixel that an edge from `a` to `b` touches.
pub open spec fn low_edge(a: Single, b: Single) -> int {
    crate::scalar::floor_clamped(a.smaller(b))
}

/// The end of the last pixel that an edge from `a` to `b` touches.
pub open spec fn high_edge(a: Single, b: Single) -> int {
    crate::scalar::ceil_clamped(a.larger(b))
}

/// The whole pixels between two corners: rounded outwards, limited to the range of pixel
/// coordinates, and absent if no pixel lies between them.
pub open spec fn pixel_rect(a: SelectionPoint, b: SelectionPoint) -> Option<SelectionRect> {
    let (left, right) = (low_edge(a.x, b.x), high_edge(a.x, b.x));
    let (top, bottom) = (low_edge(a.y, b.y), high_edge(a.y, b.y));
    if right > left && bottom > top {
        Some(
            SelectionRect {
                x: left as u32,
                y: top as u32,
                width: (right - left) as u32,
                height: (bottom - top) as u32,
            },
        )
    } else {
        None
    }
}

pub fn selection_rect_from_points(a: SelectionPoint, b: SelectionPoint) -> (r: Option<
    SelectionRect,
>)
    ensures
        r == pixel_rect(a, b),
{
    let min_x: u32 = a.x.min(b.x).floor_u32();
    let min_y: u32 = a.y.min(b.y).floor_u32();
    let max_x: u32 = a.x.max(b.x).ceil_u32();
    let max_y: u32 = a.y.max(b.y).ceil_u32();
    if max_x > min_x && max_y > min_y {
        Some(
            SelectionRect { x: min_x, y: min_y, width: max_x - min_x, height: max_y - min_y },
        )
    } else {
        None
    }
}

/// Equal numbers round alike.
proof fn lemma_equal_numbers_round_alike(a: Single, b: Single)
    requires
        a.nan() == b.nan(),
        !a.nan() ==> a.rank() == b.rank(),
    ensures
        crate::scalar::floor_clamped(a) == crate::scalar::floor_clamped(b),
        crate::scalar::ceil_clamped(a) == crate::scalar::ceil_clamped(b),
{
    if a.finite() {
        crate::scalar::rank_orders_values(a, b);
    }
}

/// A rectangle may be dragged out from either of its corners.
pub proof fn corners_may_be_swapped(a: SelectionPoint, b: SelectionPoint)
    ensures
        pixel_rect(a, b) == pixel_rect(b, a),
{
    lemma_equal_numbers_round_alike(a.x.smaller(b.x), b.x.smaller(a.x));
    lemma_equal_numbers_round_alike(a.x.larger(b.x), b.x.larger(a.x));
    lemma_equal_numbers_round_alike(a.y.smaller(b.y), b.y.smaller(a.y));
    lemma_equal_numbers_round_alike(a.y.larger(b.y), b.y.larger(a.y));
}

/// A pixel coordinate as a number of the units in which a binary32 value is counted.
pub open spec fn pixel_value(n: int) -> int {
    n * vstd::arithmetic::power2::pow2(149)
}

/// Between two edges within the range of pixel coordinates, rounding outwards leaves
/// neither of them out and adds less than a pixel on either side.
pub proof fn lemma_edges_cover(a: Single, b: Single)
    requires
        a.finite(),
        b.finite(),
        0 <= a.value() <= pixel_value(u32::MAX as int),
        0 <= b.value() <= pixel_value(u32::MAX as int),
    ensures
        pixel_value(low_edge(a, b)) <= a.value() <= pixel_value(high_edge(a, b)),
        pixel_value(low_edge(a, b)) <= b.value() <= pixel_value(high_edge(a, b)),
        a.smaller(b).value() < pixel_value(low_edge(a, b) + 1),
        pixel_value(high_edge(a, b) - 1) < a.larger(b).value(),
{
    let one = vstd::arithmetic::power2::pow2(149) as int;
    vstd::arithmetic::power2::lemma_pow2_pos(149);
    crate::scalar::rank_orders_values(a, b);
    let low = a.smaller(b).value();
    let high = a.larger(b).value();
    vstd::arithmetic::div_mod::lemma_fundamental_div_mod(low, one);
    vstd::arithmetic::div_mod::lemma_fundamental_div_mod(-high, one);
    let (down, up) = (low / one, -((-high) / one));
    assert(0 <= down <= u32::MAX) by (nonlinear_arith)
        requires
            0 <= low <= u32::MAX * one,
            low == one * down + low % one,
            0 <= low % one < one,
    ;
    assert(0 <= up <= u32::MAX) by (nonlinear_arith)
        requires
            0 <= high <= u32::MAX * one,
            -high == one * (-up) + (-high) % one,
            0 <= (-high) % one < one,
    ;
    assert(down * one <= low < (down + 1) * one) by (nonlinear_arith)
        requires
            low == one * down + low % one,
            0 <= low % one < one,
    ;
    assert((up - 1) * one < high <= up * one) by (nonlinear_arith)
        requires
            -high == one * (-up) + (-high) % one,
            0 <= (-high) % one < one,
    ;
}

/// A selection rectangle covers both corners it was dragged between, and reaches less
/// than a pixel beyond them.
pub proof fn rect_covers_its_corners(a: SelectionPoint, b: SelectionPoint)
    requires
        a.x.finite() && a.y.finite() && b.x.finite() && b.y.finite(),
        0 <= a.x.value() <= pixel_value(u32::MAX as int),
        0 <= a.y.value() <= pixel_value(u32::MAX as int),
        0 <= b.x.value() <= pixel_value(u32::MAX as int),
        0 <= b.y.value() <= pixel_value(u32::MAX as int),
        pixel_rect(a, b) is Some,
    ensures
        ({
            let rect = pixel_rect(a, b)->0;
            &&& pixel_value(rect.x as int) <= a.x.value() <= pixel_value(rect.x + rect.width)
            &&& pixel_value(rect.x as int) <= b.x.value() <= pixel_value(rect.x + rect.width)
            &&& pixel_value(rect.y as int) <= a.y.value() <= pixel_value(rect.y + rect.height)
            &&& pixel_value(rect.y as int) <= b.y.value() <= pixel_value(rect.y + rect.height)
            &&& a.x.smaller(b.x).value() < pixel_value(rect.x + 1)
            &&& a.y.smaller(b.y).value() < pixel_value(rect.y + 1)
            &&& pixel_value(rect.x + rect.width - 1) < a.x.larger(b.x).value()
            &&& pixel_value(rect.y + rect.height - 1) < a.y.larger(b.y).value()
        }),
{
    lemma_edges_cover(a.x, b.x);
    lemma_edges_cover(a.y, b.y);
}

/// The least distance between corners of a lasso: one and a half pixels.
pub const LASSO_SPACING: u32 = 0x3fc0_0000;

/// The selection tools' own state.
pub struct SelectionState {
    pub selection_mode: SelectionCombineMode,
    pub selection_drag: Option<SelectionDrag>,
    pub lasso_points: Vec<SelectionPoint>,
}

/// `command` selects the rectangle `rect` in the given mode.
pub open spec fn rect_command(rect: SelectionRect, mode: SelectionCombineMode) -> CanvasCommand {
    if mode == SelectionCombineMode::Replace {
        CanvasCommand::SetRectSelection(rect)
    } else {
        CanvasCommand::CombineRectSelection { rect, mode }
    }
}

/// `command` selects the polygon with the given corners in the given mode.
pub open spec fn selects_polygon(
    command: CanvasCommand,
    corners: Seq<SelectionPoint>,
    mode: SelectionCombineMode,
) -> bool {
    match command {
        CanvasCommand::SetPolygonSelection(polygon) => mode == SelectionCombineMode::Replace
            && polygon.points@ == corners,
        CanvasCommand::CombinePolygonSelection { polygon, mode: combine } => mode
            != SelectionCombineMode::Replace && combine == mode && polygon.points@ == corners,
        _ => false,
    }
}

/// `after` is the lasso `before` once `point` was offered to it: `point` is added if it is
/// the first corner or far enough from the last one.
pub open spec fn lassoed<F: Fn(SelectionPoint, SelectionPoint) -> Single>(
    before: Seq<SelectionPoint>,
    point: SelectionPoint,
    distance: F,
    after: Seq<SelectionPoint>,
) -> bool {
    if before.len() == 0 {
        after == seq![point]
    } else {
        exists|gap: Single|
            {
                &&& #[trigger] call_ensures(distance, (before.last(), point), gap)
                &&& after == if (Single { bits: LASSO_SPACING }).at_most(gap) {
                    before.push(point)
                } else {
                    before
                }
            }
    }
}

/// `states` are the corners of a lasso from before the first of `points` was offered to it
/// to after the last.
pub open spec fn lassoed_in_turn<F: Fn(SelectionPoint, SelectionPoint) -> Single>(
    states: Seq<Seq<SelectionPoint>>,
    points: Seq<StrokeInputPoint>,
    distance: F,
) -> bool {
    &&& states.len() == points.len() + 1
    &&& forall|i: int|
        0 <= i < points.len() ==> lassoed(
            states[i],
            corner(#[trigger] points[i]),
            distance,
            states[i + 1],
        )
}

/// The corner that a sample offers to a lasso.
pub open spec fn corner(input: StrokeInputPoint) -> SelectionPoint {
    SelectionPoint { x: input.point.x, y: input.point.y }
}

impl SelectionState {
    pub fn new() -> (r: SelectionState)
        ensures
            r.selection_mode == SelectionCombineMode::Replace,
            r.selection_drag is None,
            r.lasso_points@.len() == 0,
    {
        SelectionState {
            selection_mode: SelectionCombineMode::Replace,
            selection_drag: None,
            lasso_points: Vec::new(),
        }
    }

    /// Starts to drag out a rectangle.
    pub fn begin_rect(&mut self, point: SelectionPoint)
        ensures
            *final(self) == (SelectionState {
                selection_drag: Some(SelectionDrag::Rect { start: point, current: point }),
                ..*old(self)
            }),
    {
        self.selection_drag = Some(SelectionDrag::Rect { start: point, current: point });
    }

    /// Starts a new lasso.
    pub fn begin_lasso(&mut self, point: SelectionPoint)
        ensures
            final(self).selection_mode == old(self).selection_mode,
            final(self).selection_drag == Some(SelectionDrag::Lasso),
            final(self).lasso_points@ == seq![point],
    {
        self.lasso_points.clear();
        self.lasso_points.push(point);
        self.selection_drag = Some(SelectionDrag::Lasso);
        assert(self.lasso_points@ =~= seq![point]);
    }

    /// Moves the free corner of the rectangle that is dragged out, if there is one.
    pub fn drag_rect(&mut self, point: SelectionPoint)
        ensures
            *final(self) == (SelectionState {
                selection_drag: match old(self).selection_drag {
                    Some(SelectionDrag::Rect { start, .. }) => Some(
                        SelectionDrag::Rect { start, current: point },
                    ),
                    other => other,
                },
                ..*old(self)
            }),
    {
        if let Some(SelectionDrag::Rect { start, .. }) = self.selection_drag {
            self.selection_drag = Some(SelectionDrag::Rect { start, current: point });
        }
    }

    /// Offers a corner to the lasso.
    pub fn extend_lasso<F: Fn(SelectionPoint, SelectionPoint) -> Single>(
        &mut self,
        point: SelectionPoint,
        distance: F,
    )
        requires
            forall|a: SelectionPoint, b: SelectionPoint| call_requires(distance, (a, b)),
        ensures
            final(self).selection_mode == old(self).selection_mode,
            final(self).selection_drag == old(self).selection_drag,
            lassoed(old(self).lasso_points@, point, distance, final(self).lasso_points@),
    {
        let length: usize = self.lasso_points.len();
        if length > 0 {
            let gap = distance(self.lasso_points[length - 1], point);
            if (Single { bits: LASSO_SPACING }).le(gap) {
                self.lasso_points.push(point);
            }
        } else {
            self.lasso_points.push(point);
            assert(self.lasso_points@ =~= seq![point]);
        }
    }

    /// Offers the samples of a frame to the lasso, one after the other.
    pub fn extend_lasso_by<F: Fn(SelectionPoint, SelectionPoint) -> Single + Copy>(
        &mut self,
        points: &[StrokeInputPoint],
        distance: F,
    )
        requires
            forall|a: SelectionPoint, b: SelectionPoint| call_requires(distance, (a, b)),
        ensures
            final(self).selection_mode == old(self).selection_mode,
            final(self).selection_drag == old(self).selection_drag,
            exists|states: Seq<Seq<SelectionPoint>>|
                {
                    &&& #[trigger] lassoed_in_turn(states, points@, distance)
                    &&& states[0] == old(self).lasso_points@
                    &&& states[points@.len() as int] == final(self).lasso_points@
                },
    {
        let ghost mut states: Seq<Seq<SelectionPoint>> = seq![self.lasso_points@];
        let mut i: usize = 0;
        while i < points.len()
            invariant
                i <= points@.len(),
                forall|a: SelectionPoint, b: SelectionPoint| call_requires(distance, (a, b)),
                self.selection_mode == old(self).selection_mode,
                self.selection_drag == old(self).selection_drag,
                states.len() == i + 1,
                states[0] == old(self).lasso_points@,
                states[i as int] == self.lasso_points@,
                forall|j: int|
                    0 <= j < i ==> lassoed(
                        states[j],
                        corner(#[trigger] points@[j]),
                        distance,
                        states[j + 1],
                    ),
            decreases points@.len() - i,
        {
            let point = selection_point_from_canvas(stroke_point_from_input(points[i]));
            self.extend_lasso(point, distance);
            proof {
                states = states.push(self.lasso_points@);
            }
            i += 1;
        }
        assert(lassoed_in_turn(states, points@, distance));
    }

    /// The command that selects the rectangle between two corners, if it holds a pixel.
    pub fn apply_rect_selection(&self, start: SelectionPoint, end: SelectionPoint) -> (r: Option<
        CanvasCommand,
    >)
        ensures
            r == match pixel_rect(start, end) {
                Some(rect) => Some(rect_command(rect, self.selection_mode)),
                None => None,
            },
    {
        match selection_rect_from_points(start, end) {
            None => None,
            Some(rect) => {
                if self.selection_mode == SelectionCombineMode::Replace {
                    Some(CanvasCommand::SetRectSelection(rect))
                } else {
                    Some(CanvasCommand::CombineRectSelection { rect, mode: self.selection_mode })
                }
            },
        }
    }

    /// The command that selects what the lasso surrounds, if it has three corners.
    pub fn apply_lasso_selection(&self) -> (r: Option<CanvasCommand>)
        ensures
            r is Some <==> self.lasso_points@.len() >= 3,
            r matches Some(command) ==> selects_polygon(
                command,
                self.lasso_points@,
                self.selection_mode,
            ),
    {
        if self.lasso_points.len() < 3 {
            return None;
        }
        let points = self.lasso_points.clone();
        assert(points@ =~= self.lasso_points@);
        let polygon = SelectionPolygon { points };
        if self.selection_mode == SelectionCombineMode::Replace {
            Some(CanvasCommand::SetPolygonSelection(polygon))
        } else {
            Some(
                CanvasCommand::CombinePolygonSelection { polygon, mode: self.selection_mode },
            )
        }
    }

    /// The command that the end of a drag leads to in the given tool.
    pub fn end_command(&self, tool: ToolMode) -> (r: Option<CanvasCommand>)
        ensures
            match tool {
                ToolMode::Brush => r is None,
                ToolMode::RectSelection => r == match self.selection_drag {
                    Some(SelectionDrag::Rect { start, current }) => match pixel_rect(
                        start,
                        current,
                    ) {
                        Some(rect) => Some(rect_command(rect, self.selection_mode)),
                        None => None,
                    },
                    _ => None,
                },
                ToolMode::LassoSelection => {
                    &&& r is Some <==> self.lasso_points@.len() >= 3
                    &&& r matches Some(command) ==> selects_polygon(
                        command,
                        self.lasso_points@,
                        self.selection_mode,
                    )
                },
            },
    {
        match tool {
            ToolMode::Brush => None,
            ToolMode::RectSelection => match self.selection_drag {
                Some(SelectionDrag::Rect { start, current }) => self.apply_rect_selection(
                    start,
                    current,
                ),
                _ => None,
            },
            ToolMode::LassoSelection => self.apply_lasso_selection(),
        }
    }
}

} // verus!
