//! Which part of the canvas is seen, and how the pointer moves over it.

use crate::brush::ONE;
use crate::geometry::{ScreenPos, ScreenRect};
use crate::scalar::Single;
use vstd::prelude::*;

verus! {

/// Thirty-two, the closest that the canvas can be looked at.
pub const CLOSEST_ZOOM: u32 = 0x4200_0000;

/// Sixteen, the closer of the fixed zoom steps.
pub const CLOSE_ZOOM: u32 = 0x4180_0000;

/// Four, the wider of the fixed zoom steps.
pub const WIDE_ZOOM: u32 = 0x4080_0000;

/// `value` moved into the range from `low` to `high`; a NaN stays as it is.
pub open spec fn clamped(value: Single, low: Single, high: Single) -> Single {
    if value.below(low) {
        low
    } else if high.below(value) {
        high
    } else {
        value
    }
}

fn clamp(value: Single, low: Single, high: Single) -> (r: Single)
    requires
        low.at_most(high),
    ensures
        r == clamped(value, low, high),
{
    if value.lt(low) {
        low
    } else if high.lt(value) {
        high
    } else {
        value
    }
}

/// How far the view is zoomed in, and which canvas point is in its upper left corner.
#[derive(Clone, Copy, Debug, PartialEq, Eq, Structural)]
pub struct ViewportState {
    pub zoom: Single,
    pub pan_x: Single,
    pub pan_y: Single,
}

/// A view of the whole canvas.
pub open spec fn whole_canvas() -> ViewportState {
    ViewportState {
        zoom: Single { bits: ONE },
        pan_x: Single { bits: 0 },
        pan_y: Single { bits: 0 },
    }
}

/// Whether the view may reach as far as `max`: a number that is not negative.
pub open spec fn reachable(max: Single) -> bool {
    (Single { bits: 0 }).at_most(max)
}

impl ViewportState {
    pub fn new() -> (r: ViewportState)
        ensures
            r == whole_canvas(),
    {
        ViewportState { zoom: Single { bits: ONE }, pan_x: Single::zero(), pan_y: Single::zero() }
    }

    /// Shows the whole canvas.
    pub fn fit(&mut self)
        ensures
            *final(self) == whole_canvas(),
    {
        *self = ViewportState::new();
    }

    /// The view moved to a canvas point, but not beyond `max_x` and `max_y`.
    pub open spec fn panned(
        self,
        x: Single,
        y: Single,
        max_x: Single,
        max_y: Single,
    ) -> ViewportState {
        ViewportState {
            pan_x: clamped(x, Single { bits: 0 }, max_x),
            pan_y: clamped(y, Single { bits: 0 }, max_y),
            ..self
        }
    }

    /// Moves the view to a canvas point, but not beyond `max_x` and `max_y`.
    pub fn pan_to(&mut self, x: Single, y: Single, max_x: Single, max_y: Single)
        requires
            reachable(max_x),
            reachable(max_y),
        ensures
            *final(self) == old(self).panned(x, y, max_x, max_y),
    {
        self.pan_x = clamp(x, Single::zero(), max_x);
        self.pan_y = clamp(y, Single::zero(), max_y);
    }

    /// Moves the view back to where it may be after the zoom or the canvas changed.
    pub fn settle(&mut self, max_x: Single, max_y: Single)
        requires
            reachable(max_x),
            reachable(max_y),
        ensures
            *final(self) == old(self).panned(old(self).pan_x, old(self).pan_y, max_x, max_y),
    {
        let (x, y) = (self.pan_x, self.pan_y);
        self.pan_to(x, y, max_x, max_y);
    }

    /// The view zoomed to `zoom`, but not out beyond the whole canvas and not in beyond the
    /// closest zoom.
    pub open spec fn zoomed(self, zoom: Single) -> ViewportState {
        ViewportState {
            zoom: clamped(zoom, Single { bits: ONE }, Single { bits: CLOSEST_ZOOM }),
            ..self
        }
    }

    /// Zooms to `zoom`, as far as that is possible.
    pub fn zoom_to(&mut self, zoom: Single)
        ensures
            *final(self) == old(self).zoomed(zoom),
    {
        self.zoom = clamp(zoom, Single { bits: ONE }, Single { bits: CLOSEST_ZOOM });
    }

    fn pan_within<L: Fn(u32, Single) -> Single>(
        &mut self,
        corner: CanvasCorner,
        width: u32,
        height: u32,
        limit: L,
    )
        requires
            forall|n: u32, zoom: Single| call_requires(limit, (n, zoom)),
            limits_pan(limit),
        ensures
            moved_within(*old(self), corner, width, height, limit, *final(self)),
    {
        let max_x = limit(width, self.zoom);
        let max_y = limit(height, self.zoom);
        self.pan_to(corner.x, corner.y, max_x, max_y);
    }

    /// Takes up a frame's zooming and panning on a canvas of the given size. First the view is
    /// moved back to where it may be. If the wheel asks for the zoom `wheel`, the view is zoomed
    /// and moved to where `refocus` puts it, given the view before and after. If it is dragged,
    /// it is moved to where `slide` puts it. `limit` gives how far a view may be moved along an
    /// edge of the canvas at a zoom.
    pub fn navigate<
        L: Fn(u32, Single) -> Single + Copy,
        W: Fn(ViewportState, ViewportState) -> CanvasCorner,
        D: Fn(ViewportState) -> CanvasCorner,
    >(
        &mut self,
        width: u32,
        height: u32,
        limit: L,
        wheel: Option<Single>,
        refocus: W,
        dragged: bool,
        slide: D,
    )
        requires
            forall|n: u32, zoom: Single| call_requires(limit, (n, zoom)),
            limits_pan(limit),
            forall|a: ViewportState, b: ViewportState| call_requires(refocus, (a, b)),
            forall|a: ViewportState| call_requires(slide, (a,)),
        ensures
            navigated(
                *old(self),
                width,
                height,
                limit,
                wheel,
                refocus,
                dragged,
                slide,
                *final(self),
            ),
            proper(*old(self)) && (wheel matches Some(zoom) ==> !zoom.nan()) && steady(limit)
                && leads_to_numbers(width, height, limit, refocus, slide) ==> proper(*final(self))
                && on_canvas(*final(self), width, height, limit),
    {
        let max_x = limit(width, self.zoom);
        let max_y = limit(height, self.zoom);
        self.settle(max_x, max_y);
        let settled = *self;
        assert(moved_within(*old(self), old(self).corner(), width, height, limit, settled));
        if let Some(zoom) = wheel {
            self.zoom_to(zoom);
            let corner = refocus(settled, *self);
            self.pan_within(corner, width, height, limit);
        }
        let turned = *self;
        assert(turned_to(settled, wheel, refocus, width, height, limit, turned));
        if dragged {
            let corner = slide(turned);
            self.pan_within(corner, width, height, limit);
        }
        assert(slid(turned, dragged, slide, width, height, limit, *self));
        proof {
            if proper(*old(self)) && (wheel matches Some(zoom) ==> !zoom.nan()) && steady(limit)
                && leads_to_numbers(width, height, limit, refocus, slide) {
                navigation_stays_on_the_canvas(
                    *old(self),
                    width,
                    height,
                    limit,
                    wheel,
                    refocus,
                    dragged,
                    slide,
                    *self,
                );
            }
        }
    }

    /// The canvas point in the upper left corner.
    pub open spec fn corner(self) -> CanvasCorner {
        CanvasCorner { x: self.pan_x, y: self.pan_y }
    }
}

/// A point of the canvas in the upper left corner of a view.
#[derive(Clone, Copy, Debug, PartialEq, Eq, Structural)]
pub struct CanvasCorner {
    pub x: Single,
    pub y: Single,
}

/// `limit` never asks for less than nothing.
pub open spec fn limits_pan<L: Fn(u32, Single) -> Single>(limit: L) -> bool {
    forall|n: u32, zoom: Single, max: Single| #[trigger]
        call_ensures(limit, (n, zoom), max) ==> reachable(max)
}

/// `after` is the view `before` moved to `corner`, but not beyond what `limit` allows at its
/// zoom.
pub open spec fn moved_within<L: Fn(u32, Single) -> Single>(
    before: ViewportState,
    corner: CanvasCorner,
    width: u32,
    height: u32,
    limit: L,
    after: ViewportState,
) -> bool {
    exists|max_x: Single, max_y: Single|
        {
            &&& #[trigger] call_ensures(limit, (width, before.zoom), max_x)
            &&& #[trigger] call_ensures(limit, (height, before.zoom), max_y)
            &&& after == before.panned(corner.x, corner.y, max_x, max_y)
        }
}

/// `after` is the view `before` once the wheel asked for `wheel`.
pub open spec fn turned_to<
    L: Fn(u32, Single) -> Single,
    W: Fn(ViewportState, ViewportState) -> CanvasCorner,
>(
    before: ViewportState,
    wheel: Option<Single>,
    refocus: W,
    width: u32,
    height: u32,
    limit: L,
    after: ViewportState,
) -> bool {
    match wheel {
        None => after == before,
        Some(zoom) => exists|corner: CanvasCorner|
            {
                &&& #[trigger] call_ensures(refocus, (before, before.zoomed(zoom)), corner)
                &&& moved_within(before.zoomed(zoom), corner, width, height, limit, after)
            },
    }
}

/// `after` is the view `before` once it was dragged, if it was.
pub open spec fn slid<
    L: Fn(u32, Single) -> Single,
    D: Fn(ViewportState) -> CanvasCorner,
>(
    before: ViewportState,
    dragged: bool,
    slide: D,
    width: u32,
    height: u32,
    limit: L,
    after: ViewportState,
) -> bool {
    if dragged {
        exists|corner: CanvasCorner|
            {
                &&& #[trigger] call_ensures(slide, (before,), corner)
                &&& moved_within(before, corner, width, height, limit, after)
            }
    } else {
        after == before
    }
}

/// The zoom of a view is between one and the closest zoom, and its corner is no NaN.
pub open spec fn proper(view: ViewportState) -> bool {
    &&& (Single { bits: ONE }).at_most(view.zoom)
    &&& view.zoom.at_most(Single { bits: CLOSEST_ZOOM })
    &&& !view.pan_x.nan()
    &&& !view.pan_y.nan()
}

/// The view shows nothing beyond the canvas: it is moved no farther than `limit` allows at its
/// zoom.
pub open spec fn on_canvas<L: Fn(u32, Single) -> Single>(
    view: ViewportState,
    width: u32,
    height: u32,
    limit: L,
) -> bool {
    &&& (Single { bits: 0 }).at_most(view.pan_x)
    &&& (Single { bits: 0 }).at_most(view.pan_y)
    &&& forall|max: Single| #[trigger]
        call_ensures(limit, (width, view.zoom), max) ==> view.pan_x.at_most(max)
    &&& forall|max: Single| #[trigger]
        call_ensures(limit, (height, view.zoom), max) ==> view.pan_y.at_most(max)
}

/// `after` is the view `before` once a frame's wheel and drag were taken up: it is moved back
/// to where it may be, then zoomed, then dragged.
pub open spec fn navigated<
    L: Fn(u32, Single) -> Single,
    W: Fn(ViewportState, ViewportState) -> CanvasCorner,
    D: Fn(ViewportState) -> CanvasCorner,
>(
    before: ViewportState,
    width: u32,
    height: u32,
    limit: L,
    wheel: Option<Single>,
    refocus: W,
    dragged: bool,
    slide: D,
    after: ViewportState,
) -> bool {
    exists|settled: ViewportState, turned: ViewportState|
        {
            &&& #[trigger] moved_within(before, before.corner(), width, height, limit, settled)
            &&& #[trigger] turned_to(settled, wheel, refocus, width, height, limit, turned)
            &&& slid(turned, dragged, slide, width, height, limit, after)
        }
}

/// `limit` gives one value for each edge and zoom.
pub open spec fn steady<L: Fn(u32, Single) -> Single>(limit: L) -> bool {
    forall|n: u32, zoom: Single, u: Single, v: Single| #[trigger]
        call_ensures(limit, (n, zoom), u) && #[trigger] call_ensures(limit, (n, zoom), v) ==> u
            == v
}

/// From a proper view on the canvas, neither `refocus` nor `slide` leads to a NaN.
pub open spec fn leads_to_numbers<
    L: Fn(u32, Single) -> Single,
    W: Fn(ViewportState, ViewportState) -> CanvasCorner,
    D: Fn(ViewportState) -> CanvasCorner,
>(width: u32, height: u32, limit: L, refocus: W, slide: D) -> bool {
    &&& forall|a: ViewportState, b: ViewportState, corner: CanvasCorner| #[trigger]
        call_ensures(refocus, (a, b), corner) && proper(a) && on_canvas(a, width, height, limit)
            && proper(b) ==> !corner.x.nan() && !corner.y.nan()
    &&& forall|a: ViewportState, corner: CanvasCorner| #[trigger]
        call_ensures(slide, (a,), corner) && proper(a) && on_canvas(a, width, height, limit)
            ==> !corner.x.nan() && !corner.y.nan()
}

/// Whatever wheel and drag a frame holds, the zoom stays in its range and the view on the
/// canvas. `limit` gives one value for each edge and zoom, and nothing that is computed on the
/// way is a NaN.
pub proof fn navigation_stays_on_the_canvas<
    L: Fn(u32, Single) -> Single,
    W: Fn(ViewportState, ViewportState) -> CanvasCorner,
    D: Fn(ViewportState) -> CanvasCorner,
>(
    before: ViewportState,
    width: u32,
    height: u32,
    limit: L,
    wheel: Option<Single>,
    refocus: W,
    dragged: bool,
    slide: D,
    after: ViewportState,
)
    requires
        proper(before),
        wheel matches Some(zoom) ==> !zoom.nan(),
        limits_pan(limit),
        steady(limit),
        leads_to_numbers(width, height, limit, refocus, slide),
        navigated(before, width, height, limit, wheel, refocus, dragged, slide, after),
    ensures
        proper(after),
        on_canvas(after, width, height, limit),
{
    let (settled, turned) = choose|settled: ViewportState, turned: ViewportState|
        {
            &&& #[trigger] moved_within(before, before.corner(), width, height, limit, settled)
            &&& #[trigger] turned_to(settled, wheel, refocus, width, height, limit, turned)
            &&& slid(turned, dragged, slide, width, height, limit, after)
        };
    lemma_moves_stay_on_the_canvas(before, before.corner(), width, height, limit, settled);
    if let Some(zoom) = wheel {
        let zoomed = settled.zoomed(zoom);
        let corner = choose|corner: CanvasCorner|
            {
                &&& #[trigger] call_ensures(refocus, (settled, zoomed), corner)
                &&& moved_within(zoomed, corner, width, height, limit, turned)
            };
        lemma_moves_stay_on_the_canvas(zoomed, corner, width, height, limit, turned);
    }
    if dragged {
        let corner = choose|corner: CanvasCorner|
            {
                &&& #[trigger] call_ensures(slide, (turned,), corner)
                &&& moved_within(turned, corner, width, height, limit, after)
            };
        lemma_moves_stay_on_the_canvas(turned, corner, width, height, limit, after);
    }
}

/// Steady kernels lead a view to one place.
pub proof fn navigation_is_steady<
    L: Fn(u32, Single) -> Single,
    W: Fn(ViewportState, ViewportState) -> CanvasCorner,
    D: Fn(ViewportState) -> CanvasCorner,
>(
    before: ViewportState,
    width: u32,
    height: u32,
    limit: L,
    wheel: Option<Single>,
    refocus: W,
    dragged: bool,
    slide: D,
    x: ViewportState,
    y: ViewportState,
)
    requires
        steady(limit),
        forall|a: ViewportState, b: ViewportState, u: CanvasCorner, v: CanvasCorner| #[trigger]
            call_ensures(refocus, (a, b), u) && #[trigger] call_ensures(refocus, (a, b), v) ==> u
                == v,
        forall|a: ViewportState, u: CanvasCorner, v: CanvasCorner| #[trigger]
            call_ensures(slide, (a,), u) && #[trigger] call_ensures(slide, (a,), v) ==> u == v,
        navigated(before, width, height, limit, wheel, refocus, dragged, slide, x),
        navigated(before, width, height, limit, wheel, refocus, dragged, slide, y),
    ensures
        x == y,
{
}

proof fn lemma_moves_stay_on_the_canvas<L: Fn(u32, Single) -> Single>(
    before: ViewportState,
    corner: CanvasCorner,
    width: u32,
    height: u32,
    limit: L,
    after: ViewportState,
)
    requires
        proper(before),
        !corner.x.nan(),
        !corner.y.nan(),
        limits_pan(limit),
        steady(limit),
        moved_within(before, corner, width, height, limit, after),
    ensures
        proper(after),
        on_canvas(after, width, height, limit),
{
}

/// Where the wheel zooms in or out: at the pointer, if the wheel was turned over the canvas.
/// A pointer that is nowhere counts as being in the corner of the window.
pub open spec fn zoom_focus(scroll: Single, canvas: ScreenRect, hover: Option<ScreenPos>) -> Option<
    ScreenPos,
> {
    let corner = ScreenPos { x: Single { bits: 0 }, y: Single { bits: 0 } };
    let focus = match hover {
        Some(pos) => pos,
        None => canvas.min,
    };
    let pointed = match hover {
        Some(pos) => pos,
        None => corner,
    };
    if !scroll.same_number(Single { bits: 0 }) && canvas.holds(pointed) && canvas.holds(focus) {
        Some(focus)
    } else {
        None
    }
}

pub fn wheel_focus(scroll: Single, canvas: ScreenRect, hover: Option<ScreenPos>) -> (r: Option<
    ScreenPos,
>)
    ensures
        r == zoom_focus(scroll, canvas, hover),
{
    if scroll.equals(Single::zero()) {
        return None;
    }
    let corner = ScreenPos { x: Single::zero(), y: Single::zero() };
    let pointed = match hover {
        Some(pos) => pos,
        None => corner,
    };
    if !canvas.contains(pointed) {
        return None;
    }
    let focus = match hover {
        Some(pos) => pos,
        None => canvas.min,
    };
    if canvas.contains(focus) {
        Some(focus)
    } else {
        None
    }
}

/// Wherever the view is moved to, it never leaves the canvas on any side.
pub proof fn views_stay_on_the_canvas(
    view: ViewportState,
    x: Single,
    y: Single,
    max_x: Single,
    max_y: Single,
)
    requires
        reachable(max_x),
        reachable(max_y),
        !x.nan(),
        !y.nan(),
    ensures
        ({
            let moved = view.panned(x, y, max_x, max_y);
            &&& (Single { bits: 0 }).at_most(moved.pan_x)
            &&& moved.pan_x.at_most(max_x)
            &&& (Single { bits: 0 }).at_most(moved.pan_y)
            &&& moved.pan_y.at_most(max_y)
            &&& moved.panned(moved.pan_x, moved.pan_y, max_x, max_y) == moved
        }),
{
}

/// Whatever is asked for, the zoom stays between one and the closest zoom.
pub proof fn zooms_stay_in_range(view: ViewportState, zoom: Single)
    requires
        !zoom.nan(),
    ensures
        (Single { bits: ONE }).at_most(view.zoomed(zoom).zoom),
        view.zoomed(zoom).zoom.at_most(Single { bits: CLOSEST_ZOOM }),
{
}

/// The wheel zooms only at a point of the canvas.
pub proof fn wheels_zoom_on_the_canvas(
    scroll: Single,
    canvas: ScreenRect,
    hover: Option<ScreenPos>,
)
    ensures
        zoom_focus(scroll, canvas, hover) matches Some(focus) ==> canvas.holds(focus),
        hover matches Some(pos) && canvas.holds(pos) && !scroll.same_number(Single { bits: 0 })
            ==> zoom_focus(scroll, canvas, hover) == hover,
{
}

/// A speed across the screen.
#[derive(Clone, Copy, Debug, PartialEq, Eq, Structural)]
pub struct Velocity {
    pub x: Single,
    pub y: Single,
}

/// Where the pointer was last, and how fast it goes.
#[derive(Clone, Copy, Debug, PartialEq, Eq, Structural)]
pub struct PointerMotion {
    pub last_cursor: Option<ScreenPos>,
    pub velocity: Velocity,
}

/// A pointer at rest.
pub open spec fn at_rest(cursor: Option<ScreenPos>) -> PointerMotion {
    PointerMotion {
        last_cursor: cursor,
        velocity: Velocity { x: Single { bits: 0 }, y: Single { bits: 0 } },
    }
}

impl PointerMotion {
    pub fn resting(cursor: Option<ScreenPos>) -> (r: PointerMotion)
        ensures
            r == at_rest(cursor),
    {
        PointerMotion {
            last_cursor: cursor,
            velocity: Velocity { x: Single::zero(), y: Single::zero() },
        }
    }

    /// Follows the pointer to `cursor`. `blend` mixes the speed so far with that of the
    /// latest step, from its first argument to its second.
    pub fn follow<F: Fn(ScreenPos, ScreenPos, Velocity) -> Velocity>(
        &mut self,
        cursor: ScreenPos,
        blend: F,
    )
        requires
            forall|from: ScreenPos, to: ScreenPos, speed: Velocity|
                call_requires(blend, (from, to, speed)),
        ensures
            final(self).last_cursor == Some(cursor),
            match old(self).last_cursor {
                Some(from) => call_ensures(
                    blend,
                    (from, cursor, old(self).velocity),
                    final(self).velocity,
                ),
                None => final(self).velocity == old(self).velocity,
            },
    {
        if let Some(from) = self.last_cursor {
            self.velocity = blend(from, cursor, self.velocity);
        }
        self.last_cursor = Some(cursor);
    }
}

} // verus!
