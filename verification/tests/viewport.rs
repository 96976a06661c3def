use canva_test::geometry::{ScreenPos, ScreenRect};
use canva_test::scalar::Single;
use canva_test::viewport::{
    wheel_focus, CanvasCorner, PointerMotion, Velocity, ViewportState, CLOSEST_ZOOM, CLOSE_ZOOM,
    WIDE_ZOOM,
};

fn single(value: f32) -> Single {
    Single { bits: value.to_bits() }
}

fn number(value: Single) -> f32 {
    f32::from_bits(value.bits)
}

fn pos(x: f32, y: f32) -> ScreenPos {
    ScreenPos { x: single(x), y: single(y) }
}

#[test]
fn zoom_steps_are_the_numbers_on_their_buttons() {
    assert_eq!(f32::from_bits(WIDE_ZOOM), 4.0);
    assert_eq!(f32::from_bits(CLOSE_ZOOM), 16.0);
    assert_eq!(f32::from_bits(CLOSEST_ZOOM), 32.0);
}

#[test]
fn zooms_stay_between_one_and_thirty_two() {
    let mut view = ViewportState::new();
    assert_eq!(number(view.zoom), 1.0);
    for (asked, reached) in
        [(0.25, 1.0), (1.0, 1.0), (7.5, 7.5), (32.0, 32.0), (64.0, 32.0), (-3.0, 1.0)]
    {
        view.zoom_to(single(asked));
        assert_eq!(number(view.zoom), reached);
    }
    view.zoom_to(single(f32::NAN));
    assert!(number(view.zoom).is_nan());
    view.fit();
    assert_eq!(view, ViewportState::new());
}

#[test]
fn views_stay_on_the_canvas_wherever_they_are_moved() {
    let mut view = ViewportState::new();
    view.pan_to(single(30.0), single(-5.0), single(100.0), single(100.0));
    assert_eq!((number(view.pan_x), number(view.pan_y)), (30.0, 0.0));
    view.pan_to(single(300.0), single(40.0), single(100.0), single(100.0));
    assert_eq!((number(view.pan_x), number(view.pan_y)), (100.0, 40.0));
    view.settle(single(50.0), single(100.0));
    assert_eq!((number(view.pan_x), number(view.pan_y)), (50.0, 40.0));
    view.settle(single(0.0), single(0.0));
    assert_eq!((number(view.pan_x), number(view.pan_y)), (0.0, 0.0));
    for x in [-2.0f32, 0.0, 3.5, 9.0] {
        view.pan_to(single(x), single(x), single(7.0), single(2.0));
        assert_eq!(number(view.pan_x), x.clamp(0.0, 7.0));
        assert_eq!(number(view.pan_y), x.clamp(0.0, 2.0));
    }
}

#[test]
fn wheels_zoom_at_the_pointer_over_the_canvas() {
    let canvas = ScreenRect { min: pos(10.0, 10.0), max: pos(90.0, 90.0) };
    let over = Some(pos(20.0, 30.0));
    assert_eq!(wheel_focus(single(4.0), canvas, over), over);
    assert_eq!(wheel_focus(single(-4.0), canvas, over), over);
    assert_eq!(wheel_focus(single(0.0), canvas, over), None);
    assert_eq!(wheel_focus(single(-0.0), canvas, over), None);
    assert_eq!(wheel_focus(single(4.0), canvas, Some(pos(5.0, 30.0))), None);
    assert_eq!(wheel_focus(single(4.0), canvas, None), None);
    let corner = ScreenRect { min: pos(-1.0, -1.0), max: pos(90.0, 90.0) };
    assert_eq!(wheel_focus(single(4.0), corner, None), Some(pos(-1.0, -1.0)));
}

#[test]
fn motion_follows_the_pointer() {
    let blend = |from: ScreenPos, to: ScreenPos, speed: Velocity| Velocity {
        x: single(number(speed.x) * 0.5 + (number(to.x) - number(from.x))),
        y: single(number(speed.y) * 0.5 + (number(to.y) - number(from.y))),
    };
    let mut motion = PointerMotion::resting(None);
    motion.follow(pos(1.0, 1.0), blend);
    assert_eq!(motion.last_cursor, Some(pos(1.0, 1.0)));
    assert_eq!(motion.velocity, Velocity { x: single(0.0), y: single(0.0) });
    motion.follow(pos(5.0, 3.0), blend);
    assert_eq!(motion.velocity, Velocity { x: single(4.0), y: single(2.0) });
    motion.follow(pos(5.0, 3.0), blend);
    assert_eq!(motion.velocity, Velocity { x: single(2.0), y: single(1.0) });
    assert_eq!(PointerMotion::resting(Some(pos(2.0, 2.0))).last_cursor, Some(pos(2.0, 2.0)));
}

#[test]
fn navigation_zooms_slides_and_stays_on_the_canvas() {
    let limit = |length: u32, zoom: Single| {
        single((length as f32 * (1.0 - 1.0 / number(zoom))).max(0.0))
    };
    let corner = |x: f32, y: f32| CanvasCorner { x: single(x), y: single(y) };
    let still = |view: ViewportState| CanvasCorner { x: view.pan_x, y: view.pan_y };
    let mut view = ViewportState::new();
    let middle = |before: ViewportState, after: ViewportState| {
        assert_eq!((number(before.zoom), number(after.zoom)), (1.0, 4.0));
        corner(300.0, 900.0)
    };
    view.navigate(1000, 800, limit, Some(single(4.0)), middle, false, still);
    assert_eq!(number(view.zoom), 4.0);
    assert_eq!((number(view.pan_x), number(view.pan_y)), (300.0, 600.0));
    let stay = |_: ViewportState, _: ViewportState| corner(0.0, 0.0);
    let slide = |view: ViewportState| corner(number(view.pan_x) - 400.0, number(view.pan_y) - 1.0);
    view.navigate(1000, 800, limit, None, stay, true, slide);
    assert_eq!((number(view.pan_x), number(view.pan_y)), (0.0, 599.0));
    view.navigate(1000, 400, limit, None, stay, false, slide);
    assert_eq!((number(view.pan_x), number(view.pan_y)), (0.0, 300.0));
    let far = |_: ViewportState, _: ViewportState| corner(1.0e9, 1.0e9);
    view.navigate(1000, 800, limit, Some(single(100.0)), far, true, slide);
    assert_eq!(number(view.zoom), 32.0);
    assert_eq!(number(view.pan_x), 968.75 - 400.0);
    assert_eq!(number(view.pan_y), 775.0 - 1.0);
    view.navigate(1000, 800, limit, Some(single(0.1)), far, false, slide);
    assert_eq!(view, ViewportState::new());
}
