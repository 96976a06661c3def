//! Looking at the canvas: zooming, panning, and following the pointer.

use crate::geometry::{ScreenPos, ScreenRect};
use crate::scalar::Single;
use crate::viewport::{CanvasCorner, PointerMotion, Velocity, ViewportState};
use vstd::prelude::*;

verus! {

/// `got` is `asked`, moved no farther than needed to lie between `low` and `high`.
pub open spec fn brought_between(asked: Single, low: Single, high: Single, got: Single) -> bool {
    &&& low.at_most(got) && got.at_most(high)
    &&& low.at_most(asked) && asked.at_most(high) ==> got == asked
    &&& asked.below(low) ==> got == low
    &&& high.below(asked) ==> got == high
}

/// A view starts, and fits, at the whole canvas.
pub proof fn views_fit_the_whole_canvas(first: ViewportState, view: &mut ViewportState)
    requires
        call_ensures(ViewportState::new, (), first),
        call_ensures(ViewportState::fit, (view,), ()),
    ensures
        first.zoom.bits == 0x3f80_0000,
        first.pan_x.bits == 0,
        first.pan_y.bits == 0,
        *final(view) == first,
{
}

/// A view is zoomed to what was asked for, between one and thirty-two, and stays where it is.
pub proof fn views_zoom_to_what_was_asked_for(view: &mut ViewportState, zoom: Single)
    requires
        call_ensures(ViewportState::zoom_to, (view, zoom), ()),
        !zoom.nan(),
    ensures
        brought_between(
            zoom,
            Single { bits: 0x3f80_0000 },
            Single { bits: 0x4200_0000 },
            final(view).zoom,
        ),
        final(view).pan_x == old(view).pan_x,
        final(view).pan_y == old(view).pan_y,
{
}

/// A view is moved to where it was asked to, as far as the canvas reaches, each way by itself,
/// and stays as close as it was.
pub proof fn views_move_to_where_they_are_asked_to(
    view: &mut ViewportState,
    x: Single,
    y: Single,
    max_x: Single,
    max_y: Single,
)
    requires
        call_ensures(ViewportState::pan_to, (view, x, y, max_x, max_y), ()),
        (Single { bits: 0 }).at_most(max_x),
        (Single { bits: 0 }).at_most(max_y),
        !x.nan() && !y.nan(),
    ensures
        brought_between(x, Single { bits: 0 }, max_x, final(view).pan_x),
        brought_between(y, Single { bits: 0 }, max_y, final(view).pan_y),
        final(view).zoom == old(view).zoom,
{
}

/// A view that may be where it is stays there, and any other is moved no farther than needed.
pub proof fn views_settle_where_they_may_be(
    view: &mut ViewportState,
    max_x: Single,
    max_y: Single,
    moved: &mut ViewportState,
)
    requires
        call_ensures(ViewportState::settle, (view, max_x, max_y), ()),
        call_ensures(
            ViewportState::pan_to,
            (moved, old(view).pan_x, old(view).pan_y, max_x, max_y),
            (),
        ),
        *old(moved) == *old(view),
        (Single { bits: 0 }).at_most(max_x),
        (Single { bits: 0 }).at_most(max_y),
        !old(view).pan_x.nan() && !old(view).pan_y.nan(),
    ensures
        *final(view) == *final(moved),
        brought_between(old(view).pan_x, Single { bits: 0 }, max_x, final(view).pan_x),
        brought_between(old(view).pan_y, Single { bits: 0 }, max_y, final(view).pan_y),
{
}

/// A frame without a turn of the wheel keeps the zoom, and one that neither turns the wheel nor
/// drags only brings the view back to where it may be.
pub proof fn frames_without_wheel_keep_the_zoom<
    L: Fn(u32, Single) -> Single + Copy,
    W: Fn(ViewportState, ViewportState) -> CanvasCorner,
    D: Fn(ViewportState) -> CanvasCorner,
>(
    view: &mut ViewportState,
    width: u32,
    height: u32,
    limit: L,
    refocus: W,
    dragged: bool,
    slide: D,
)
    requires
        call_ensures(
            ViewportState::navigate::<L, W, D>,
            (view, width, height, limit, None::<Single>, refocus, dragged, slide),
            (),
        ),
    ensures
        final(view).zoom == old(view).zoom,
        !dragged ==> exists|max_x: Single, max_y: Single| #[trigger]
            call_ensures(limit, (width, old(view).zoom), max_x) && #[trigger] call_ensures(
                limit,
                (height, old(view).zoom),
                max_y,
            ) && (!old(view).pan_x.nan() && (Single { bits: 0 }).at_most(max_x)
                ==> brought_between(
                old(view).pan_x,
                Single { bits: 0 },
                max_x,
                final(view).pan_x,
            )) && (!old(view).pan_y.nan() && (Single { bits: 0 }).at_most(max_y)
                ==> brought_between(
                old(view).pan_y,
                Single { bits: 0 },
                max_y,
                final(view).pan_y,
            )),
{
    let (settled, turned) = choose|settled: ViewportState, turned: ViewportState|
        {
            &&& #[trigger] crate::viewport::moved_within(
                *old(view),
                old(view).corner(),
                width,
                height,
                limit,
                settled,
            )
            &&& #[trigger] crate::viewport::turned_to(
                settled,
                None::<Single>,
                refocus,
                width,
                height,
                limit,
                turned,
            )
            &&& crate::viewport::slid(turned, dragged, slide, width, height, limit, *final(view))
        };
    assert(turned == settled);
}

/// A frame with a turn of the wheel zooms to what the wheel asks for, between one and
/// thirty-two, whatever else it does.
pub proof fn frames_with_wheel_zoom<
    L: Fn(u32, Single) -> Single + Copy,
    W: Fn(ViewportState, ViewportState) -> CanvasCorner,
    D: Fn(ViewportState) -> CanvasCorner,
>(
    view: &mut ViewportState,
    width: u32,
    height: u32,
    limit: L,
    zoom: Single,
    refocus: W,
    dragged: bool,
    slide: D,
)
    requires
        call_ensures(
            ViewportState::navigate::<L, W, D>,
            (view, width, height, limit, Some(zoom), refocus, dragged, slide),
            (),
        ),
        !zoom.nan(),
    ensures
        brought_between(
            zoom,
            Single { bits: 0x3f80_0000 },
            Single { bits: 0x4200_0000 },
            final(view).zoom,
        ),
{
}

/// A frame that drags the view and turns no wheel moves it from where it may be to where the
/// drag puts it, as far as the canvas reaches.
pub proof fn frames_with_a_drag_slide<
    L: Fn(u32, Single) -> Single + Copy,
    W: Fn(ViewportState, ViewportState) -> CanvasCorner,
    D: Fn(ViewportState) -> CanvasCorner,
>(
    view: &mut ViewportState,
    width: u32,
    height: u32,
    limit: L,
    wheel: Option<Single>,
    refocus: W,
    slide: D,
    x: Single,
    y: Single,
)
    requires
        call_ensures(
            ViewportState::navigate::<L, W, D>,
            (view, width, height, limit, wheel, refocus, true, slide),
            (),
        ),
        crate::viewport::limits_pan(limit),
        forall|from: ViewportState, corner: CanvasCorner| #[trigger]
            call_ensures(slide, (from,), corner) ==> corner.x == x && corner.y == y,
        !x.nan() && !y.nan(),
    ensures
        exists|max_x: Single, max_y: Single| #[trigger]
            call_ensures(limit, (width, final(view).zoom), max_x) && #[trigger] call_ensures(
                limit,
                (height, final(view).zoom),
                max_y,
            ) && brought_between(x, Single { bits: 0 }, max_x, final(view).pan_x)
                && brought_between(y, Single { bits: 0 }, max_y, final(view).pan_y),
{
    let (settled, turned) = choose|settled: ViewportState, turned: ViewportState|
        {
            &&& #[trigger] crate::viewport::moved_within(
                *old(view),
                old(view).corner(),
                width,
                height,
                limit,
                settled,
            )
            &&& #[trigger] crate::viewport::turned_to(
                settled,
                wheel,
                refocus,
                width,
                height,
                limit,
                turned,
            )
            &&& crate::viewport::slid(turned, true, slide, width, height, limit, *final(view))
        };
    let corner = choose|corner: CanvasCorner|
        {
            &&& #[trigger] call_ensures(slide, (turned,), corner)
            &&& crate::viewport::moved_within(turned, corner, width, height, limit, *final(view))
        };
    let (max_x, max_y) = choose|max_x: Single, max_y: Single|
        {
            &&& #[trigger] call_ensures(limit, (width, turned.zoom), max_x)
            &&& #[trigger] call_ensures(limit, (height, turned.zoom), max_y)
            &&& *final(view) == turned.panned(corner.x, corner.y, max_x, max_y)
        };
    assert(final(view).zoom == turned.zoom);
}

/// The view `after` is `before`, as close, and moved no farther than needed to show nothing
/// beyond the canvas.
pub open spec fn settled_from<L: Fn(u32, Single) -> Single>(
    before: ViewportState,
    width: u32,
    height: u32,
    limit: L,
    after: ViewportState,
) -> bool {
    exists|max_x: Single, max_y: Single|
        {
            &&& #[trigger] call_ensures(limit, (width, before.zoom), max_x)
            &&& #[trigger] call_ensures(limit, (height, before.zoom), max_y)
            &&& after.zoom == before.zoom
            &&& !before.pan_x.nan() ==> brought_between(
                before.pan_x,
                Single { bits: 0 },
                max_x,
                after.pan_x,
            )
            &&& !before.pan_y.nan() ==> brought_between(
                before.pan_y,
                Single { bits: 0 },
                max_y,
                after.pan_y,
            )
        }
}

/// The view `after` is where `refocus` puts it, as far as the canvas reaches, given `before`,
/// brought back to the canvas, and the same view as close as `after`.
pub open spec fn refocused<
    L: Fn(u32, Single) -> Single,
    W: Fn(ViewportState, ViewportState) -> CanvasCorner,
>(
    before: ViewportState,
    width: u32,
    height: u32,
    limit: L,
    refocus: W,
    after: ViewportState,
) -> bool {
    exists|a: ViewportState, b: ViewportState, corner: CanvasCorner, max_x: Single, max_y: Single|
        {
            &&& #[trigger] call_ensures(refocus, (a, b), corner)
            &&& settled_from(before, width, height, limit, a)
            &&& b.zoom == after.zoom
            &&& b.pan_x == a.pan_x && b.pan_y == a.pan_y
            &&& #[trigger] call_ensures(limit, (width, after.zoom), max_x)
            &&& #[trigger] call_ensures(limit, (height, after.zoom), max_y)
            &&& !corner.x.nan() ==> brought_between(
                corner.x,
                Single { bits: 0 },
                max_x,
                after.pan_x,
            )
            &&& !corner.y.nan() ==> brought_between(
                corner.y,
                Single { bits: 0 },
                max_y,
                after.pan_y,
            )
        }
}

/// A frame with a turn of the wheel and no drag moves the view to where `refocus` puts it, as
/// far as the canvas reaches. `refocus` is given the view as close as it was, and the same
/// view as close as it gets.
pub proof fn frames_with_wheel_refocus<
    L: Fn(u32, Single) -> Single + Copy,
    W: Fn(ViewportState, ViewportState) -> CanvasCorner,
    D: Fn(ViewportState) -> CanvasCorner,
>(
    view: &mut ViewportState,
    width: u32,
    height: u32,
    limit: L,
    zoom: Single,
    refocus: W,
    slide: D,
)
    requires
        call_ensures(
            ViewportState::navigate::<L, W, D>,
            (view, width, height, limit, Some(zoom), refocus, false, slide),
            (),
        ),
        crate::viewport::limits_pan(limit),
    ensures
        refocused(*old(view), width, height, limit, refocus, *final(view)),
{
    let (settled, turned) = choose|settled: ViewportState, turned: ViewportState|
        {
            &&& #[trigger] crate::viewport::moved_within(
                *old(view),
                old(view).corner(),
                width,
                height,
                limit,
                settled,
            )
            &&& #[trigger] crate::viewport::turned_to(
                settled,
                Some(zoom),
                refocus,
                width,
                height,
                limit,
                turned,
            )
            &&& crate::viewport::slid(turned, false, slide, width, height, limit, *final(view))
        };
    let closer = settled.zoomed(zoom);
    let corner = choose|corner: CanvasCorner|
        {
            &&& #[trigger] call_ensures(refocus, (settled, closer), corner)
            &&& crate::viewport::moved_within(closer, corner, width, height, limit, turned)
        };
    let (max_x, max_y) = choose|max_x: Single, max_y: Single|
        {
            &&& #[trigger] call_ensures(limit, (width, closer.zoom), max_x)
            &&& #[trigger] call_ensures(limit, (height, closer.zoom), max_y)
            &&& turned == closer.panned(corner.x, corner.y, max_x, max_y)
        };
    assert(call_ensures(refocus, (settled, closer), corner));
    assert(settled_from(*old(view), width, height, limit, settled));
}

/// The wheel zooms at the pointer, if it turned and the pointer is on the canvas, and nowhere
/// else; without a pointer it zooms at the canvas's corner at most.
pub proof fn wheels_zoom_at_the_pointer(
    scroll: Single,
    canvas: ScreenRect,
    hover: Option<ScreenPos>,
    focus: Option<ScreenPos>,
    inside: bool,
    turned: bool,
)
    requires
        call_ensures(crate::viewport::wheel_focus, (scroll, canvas, hover), focus),
        hover is Some ==> call_ensures(ScreenRect::contains, (canvas, hover->0), inside),
        turned == !scroll.same_number(Single { bits: 0 }),
    ensures
        hover is Some && turned && inside ==> focus == hover,
        hover is Some && !inside ==> focus is None,
        !turned ==> focus is None,
        hover is None && focus is Some ==> focus->0 == canvas.min,
{
}

/// A pointer at rest is where it is, and does not move.
pub proof fn resting_pointers_do_not_move(cursor: Option<ScreenPos>, motion: PointerMotion)
    requires
        call_ensures(PointerMotion::resting, (cursor,), motion),
    ensures
        motion.last_cursor == cursor,
        motion.velocity.x.bits == 0,
        motion.velocity.y.bits == 0,
{
}

/// The pointer is followed to where it is; its speed is blended from where it was, and kept if
/// that is not known.
pub proof fn pointers_are_followed<F: Fn(ScreenPos, ScreenPos, Velocity) -> Velocity>(
    motion: &mut PointerMotion,
    cursor: ScreenPos,
    blend: F,
)
    requires
        call_ensures(PointerMotion::follow::<F>, (motion, cursor, blend), ()),
    ensures
        final(motion).last_cursor == Some(cursor),
        old(motion).last_cursor is None ==> final(motion).velocity == old(motion).velocity,
        old(motion).last_cursor is Some ==> call_ensures(
            blend,
            (old(motion).last_cursor->0, cursor, old(motion).velocity),
            final(motion).velocity,
        ),
{
}

/// A frame that drags the view and turns no wheel drags it from where it was, brought back to
/// the canvas.
pub proof fn drags_go_on_from_the_canvas<
    L: Fn(u32, Single) -> Single + Copy,
    W: Fn(ViewportState, ViewportState) -> CanvasCorner,
    D: Fn(ViewportState) -> CanvasCorner,
>(view: &mut ViewportState, width: u32, height: u32, limit: L, refocus: W, slide: D)
    requires
        call_ensures(
            ViewportState::navigate::<L, W, D>,
            (view, width, height, limit, None::<Single>, refocus, true, slide),
            (),
        ),
        crate::viewport::limits_pan(limit),
    ensures
        exists|from: ViewportState, corner: CanvasCorner, max_x: Single, max_y: Single|
            {
                &&& #[trigger] call_ensures(slide, (from,), corner)
                &&& settled_from(*old(view), width, height, limit, from)
                &&& #[trigger] call_ensures(limit, (width, final(view).zoom), max_x)
                &&& #[trigger] call_ensures(limit, (height, final(view).zoom), max_y)
                &&& !corner.x.nan() ==> brought_between(
                    corner.x,
                    Single { bits: 0 },
                    max_x,
                    final(view).pan_x,
                )
                &&& !corner.y.nan() ==> brought_between(
                    corner.y,
                    Single { bits: 0 },
                    max_y,
                    final(view).pan_y,
                )
            },
{
    let (settled, turned) = choose|settled: ViewportState, turned: ViewportState|
        {
            &&& #[trigger] crate::viewport::moved_within(
                *old(view),
                old(view).corner(),
                width,
                height,
                limit,
                settled,
            )
            &&& #[trigger] crate::viewport::turned_to(
                settled,
                None::<Single>,
                refocus,
                width,
                height,
                limit,
                turned,
            )
            &&& crate::viewport::slid(turned, true, slide, width, height, limit, *final(view))
        };
    assert(turned == settled);
    let corner = choose|corner: CanvasCorner|
        {
            &&& #[trigger] call_ensures(slide, (turned,), corner)
            &&& crate::viewport::moved_within(turned, corner, width, height, limit, *final(view))
        };
    let (max_x, max_y) = choose|max_x: Single, max_y: Single|
        {
            &&& #[trigger] call_ensures(limit, (width, turned.zoom), max_x)
            &&& #[trigger] call_ensures(limit, (height, turned.zoom), max_y)
            &&& *final(view) == turned.panned(corner.x, corner.y, max_x, max_y)
        };
    assert(settled_from(*old(view), width, height, limit, settled));
    assert(call_ensures(slide, (turned,), corner));
}

} // verus!
