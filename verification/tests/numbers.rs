use canva_test::brush::{
    FAINT, FAST_FLOW, FAST_OPACITY, FAST_SIZE, FULL_GRAIN, LEAST_PRESSURE, LIGHT_GRAIN, ONE,
    PREDICTION_HORIZON, PRESET_RADIUS, SLOW_SIZE, STARTING_RADIUS, TEXTURE_SCALE,
};
use canva_test::config::STARTING_PREDICTION_DISTANCE;
use canva_test::geometry::{ScreenPos, ScreenRect};
use canva_test::lead::{COINCIDENCE, VISIBLE_LEAD};
use canva_test::range::SingleRange;
use canva_test::scalar::{Double, Single};
use canva_test::selection::LASSO_SPACING;
use canva_test::stamp::{stamp_texture_alpha, ARM_WIDTH, DIAGONAL_WIDTH};
use canva_test::text::{joined, numbered, push_decimal, starts_with};

fn single(value: f32) -> Single {
    Single { bits: value.to_bits() }
}

fn number(value: Single) -> f32 {
    f32::from_bits(value.bits)
}

const SAMPLES: [f32; 22] = [
    0.0,
    -0.0,
    1.0,
    -1.0,
    0.25,
    -0.25,
    1.5,
    -1.5,
    2.999_999_8,
    3.0,
    8_388_607.5,
    8_388_608.0,
    16_777_216.0,
    4_294_967_040.0,
    4_294_967_296.0,
    1.0e30,
    -1.0e30,
    f32::MIN_POSITIVE,
    1.0e-45,
    f32::INFINITY,
    f32::NEG_INFINITY,
    f32::NAN,
];

#[test]
fn constants_are_the_numbers_they_stand_for() {
    assert_eq!(f32::from_bits(ONE), 1.0);
    assert_eq!(f32::from_bits(STARTING_RADIUS), 15.0);
    assert_eq!(f32::from_bits(PRESET_RADIUS), 14.0);
    assert_eq!(f32::from_bits(LEAST_PRESSURE), 0.01);
    assert_eq!(f32::from_bits(FAINT), 0.05);
    assert_eq!(f32::from_bits(PREDICTION_HORIZON), 1.0 / 120.0);
    assert_eq!(f32::from_bits(TEXTURE_SCALE), 18.0);
    assert_eq!(f32::from_bits(SLOW_SIZE), 1.25);
    assert_eq!(f32::from_bits(FAST_SIZE), 0.65);
    assert_eq!(f32::from_bits(FAST_OPACITY), 0.55);
    assert_eq!(f32::from_bits(FAST_FLOW), 0.7);
    assert_eq!(f32::from_bits(LIGHT_GRAIN), 0.15);
    assert_eq!(f32::from_bits(FULL_GRAIN), 0.75);
    assert_eq!(f32::from_bits(STARTING_PREDICTION_DISTANCE), 12.0);
    assert_eq!(f32::from_bits(COINCIDENCE), f32::EPSILON);
    assert_eq!(f32::from_bits(VISIBLE_LEAD), 0.25);
    assert_eq!(f32::from_bits(LASSO_SPACING), 1.5);
    assert_eq!(f32::from_bits(ARM_WIDTH), 0.22);
    assert_eq!(f32::from_bits(DIAGONAL_WIDTH), 0.12);
}

#[test]
fn comparisons_agree_with_the_machine() {
    for a in SAMPLES {
        assert_eq!(single(a).is_nan(), a.is_nan());
        assert_eq!(single(a).is_finite(), a.is_finite());
        for b in SAMPLES {
            assert_eq!(single(a).lt(single(b)), a < b, "{a} < {b}");
            assert_eq!(single(a).le(single(b)), a <= b, "{a} <= {b}");
            assert_eq!(single(a).equals(single(b)), a == b, "{a} == {b}");
        }
    }
}

#[test]
fn extremes_agree_with_the_machine() {
    for a in SAMPLES {
        for b in SAMPLES {
            let (high, low) = (number(single(a).max(single(b))), number(single(a).min(single(b))));
            assert!(high == a.max(b) || high.is_nan() && a.max(b).is_nan(), "max {a} {b}");
            assert!(low == a.min(b) || low.is_nan() && a.min(b).is_nan(), "min {a} {b}");
        }
    }
}

#[test]
fn rounding_agrees_with_the_machine() {
    for a in SAMPLES {
        assert_eq!(single(a).floor_u32(), a.floor().max(0.0) as u32, "floor {a}");
        assert_eq!(single(a).ceil_u32(), a.ceil().max(0.0) as u32, "ceil {a}");
    }
    let mut bits: u32 = 0;
    while bits < 0xfff0_0000 {
        let a = f32::from_bits(bits);
        assert_eq!(single(a).floor_u32(), a.floor().max(0.0) as u32, "floor {a}");
        assert_eq!(single(a).ceil_u32(), a.ceil().max(0.0) as u32, "ceil {a}");
        bits += 0x000f_4243;
    }
}

#[test]
fn doubles_know_when_they_are_finite() {
    for value in [0.0, -0.0, 1.5, f64::MAX, f64::MIN, f64::INFINITY, f64::NEG_INFINITY, f64::NAN] {
        assert_eq!((Double { bits: value.to_bits() }).is_finite(), value.is_finite());
    }
    assert_eq!(f64::from_bits(Double::zero().bits), 0.0);
}

#[test]
fn ranges_hold_the_extremes_of_what_they_noted() {
    let mut range = SingleRange::empty();
    assert_eq!(range, SingleRange { min: None, max: None });
    range.note(None);
    assert_eq!(range, SingleRange { min: None, max: None });
    range.note(Some(single(0.5)));
    range.note(Some(single(-2.0)));
    range.note(None);
    range.note(Some(single(0.25)));
    assert_eq!(range, SingleRange { min: Some(single(-2.0)), max: Some(single(0.5)) });
}

#[test]
fn rectangles_contain_their_borders_and_no_nan() {
    let rect = ScreenRect {
        min: ScreenPos { x: single(10.0), y: single(20.0) },
        max: ScreenPos { x: single(30.0), y: single(40.0) },
    };
    let inside = |x: f32, y: f32| rect.contains(ScreenPos { x: single(x), y: single(y) });
    assert!(inside(10.0, 20.0));
    assert!(inside(30.0, 40.0));
    assert!(inside(15.5, 25.5));
    assert!(!inside(9.9, 25.0));
    assert!(!inside(15.0, 40.1));
    assert!(!inside(f32::NAN, 25.0));
}

#[test]
fn numbers_are_written_in_decimal() {
    for n in [0u64, 7, 10, 99, 100, 1000, 4096, 1_234_567_890, u64::MAX] {
        assert_eq!(numbered("n=", n), format!("n={n}"));
    }
    let mut out = String::from("a");
    push_decimal(&mut out, 205);
    assert_eq!(out, "a205");
}

#[test]
fn texts_are_joined_and_compared_by_their_beginning() {
    assert_eq!(joined("画布", "引擎"), "画布引擎");
    assert!(starts_with("测试程序重构", "测试程序"));
    assert!(starts_with("测试程序", "测试程序"));
    assert!(starts_with("测试", ""));
    assert!(!starts_with("测试", "测试程序"));
    assert!(!starts_with("paste:fixture", "测试程序"));
}

#[test]
fn stamp_texture_is_a_star() {
    let offset = |i: u32, n: u32| {
        let center = n as f32 * 0.5;
        single((i as f32 + 0.5 - center).abs() / center.max(1.0))
    };
    let difference = |a: Single, b: Single| single((number(a) - number(b)).abs());
    let alpha = stamp_texture_alpha(32, 32, offset, difference);
    assert_eq!(alpha.len(), 32 * 32);
    let at = |x: usize, y: usize| number(alpha[y * 32 + x]);
    assert_eq!(at(16, 0), 1.0);
    assert_eq!(at(0, 15), 1.0);
    assert_eq!(at(0, 0), 1.0);
    assert_eq!(at(31, 0), 1.0);
    assert_eq!(at(4, 10), 0.0);
    assert_eq!(at(10, 4), 0.0);
    for y in 0..32 {
        for x in 0..32 {
            let dx = (x as f32 + 0.5 - 16.0).abs() / 16.0;
            let dy = (y as f32 + 0.5 - 16.0).abs() / 16.0;
            let inked = dx < 0.22 || dy < 0.22 || (dx - dy).abs() < 0.12;
            assert_eq!(at(x, y), if inked { 1.0 } else { 0.0 }, "{x},{y}");
        }
    }
    assert!(stamp_texture_alpha(0, 5, offset, difference).is_empty());
    assert_eq!(stamp_texture_alpha(1, 1, offset, difference), vec![single(1.0)]);
}
