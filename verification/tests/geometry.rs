use drug_test::geometry::{isqrt_ceil, isqrt_floor, Rect, Vec2, UNIT};

#[test]
fn unit_is_a_thousand_steps() {
    assert_eq!(UNIT, 1000);
}

#[test]
fn floor_root_of_small_numbers() {
    assert_eq!(isqrt_floor(0), 0);
    assert_eq!(isqrt_floor(1), 1);
    assert_eq!(isqrt_floor(2), 1);
    assert_eq!(isqrt_floor(3), 1);
    assert_eq!(isqrt_floor(4), 2);
    assert_eq!(isqrt_floor(24), 4);
    assert_eq!(isqrt_floor(25), 5);
    assert_eq!(isqrt_floor(26), 5);
}

#[test]
fn floor_root_of_the_largest_number() {
    assert_eq!(isqrt_floor(u128::MAX), u64::MAX as u128);
    assert_eq!(isqrt_floor((u64::MAX as u128) * (u64::MAX as u128)), u64::MAX as u128);
}

#[test]
fn ceil_root_rounds_up() {
    assert_eq!(isqrt_ceil(0), 0);
    assert_eq!(isqrt_ceil(1), 1);
    assert_eq!(isqrt_ceil(2), 2);
    assert_eq!(isqrt_ceil(4), 2);
    assert_eq!(isqrt_ceil(5), 3);
    assert_eq!(isqrt_ceil(2_000_000), 1415);
    assert_eq!(isqrt_ceil(u128::MAX), 1u128 << 64);
}

#[test]
fn ceil_root_is_least_with_large_enough_square() {
    for n in 0u128..2000 {
        let r = isqrt_ceil(n);
        assert!(r * r >= n);
        assert!(r == 0 || (r - 1) * (r - 1) < n);
    }
}

#[test]
fn distance_squared_of_a_3_4_5_triangle() {
    let a = Vec2::new(1000, 2000);
    let b = Vec2::new(4000, 6000);
    assert_eq!(a.distance_squared(b), 25_000_000);
    assert_eq!(b.distance_squared(a), 25_000_000);
}

#[test]
fn distance_squared_across_the_whole_grid() {
    let a = Vec2::new(i32::MIN, i32::MIN);
    let b = Vec2::new(i32::MAX, i32::MAX);
    let side = u32::MAX as u128;
    assert_eq!(a.distance_squared(b), 2 * side * side);
}

#[test]
fn closer_than_is_strict() {
    let a = Vec2::zero();
    let b = Vec2::new(3000, 4000);
    assert!(a.closer_than(b, 5001));
    assert!(!a.closer_than(b, 5000));
    assert!(!a.closer_than(a, 0));
    assert!(a.closer_than(a, 1));
}

#[test]
fn step_reaches_a_near_target() {
    let from = Vec2::zero();
    let target = Vec2::new(3000, 4000);
    assert_eq!(from.step_toward(target, 5000), target);
    assert_eq!(from.step_toward(target, 9000), target);
}

#[test]
fn step_toward_a_far_target_is_scaled() {
    let from = Vec2::zero();
    let target = Vec2::new(3000, 4000);
    assert_eq!(from.step_toward(target, 2500), Vec2::new(1500, 2000));
    assert_eq!(from.step_toward(target, 0), from);
}

#[test]
fn step_rounds_toward_where_it_started() {
    let from = Vec2::new(10, 10);
    // the distance is 5 and a reach of 1 gives fifths, rounded toward `from`
    assert_eq!(from.step_toward(Vec2::new(13, 14), 1), Vec2::new(10, 10));
    assert_eq!(from.step_toward(Vec2::new(13, 14), 2), Vec2::new(11, 11));
    assert_eq!(from.step_toward(Vec2::new(7, 6), 2), Vec2::new(9, 9));
    assert_eq!(from.step_toward(Vec2::new(7, 6), 4), Vec2::new(8, 7));
}

#[test]
fn step_uses_the_distance_rounded_up() {
    // the distance from the origin to (1000, 1000) is 1414.2, counted as 1415
    let from = Vec2::zero();
    let target = Vec2::new(1000, 1000);
    assert_eq!(from.step_toward(target, 1415), target);
    assert_eq!(from.step_toward(target, 1414), Vec2::new(999, 999));
}

#[test]
fn step_never_overshoots_nor_exceeds_its_reach() {
    let from = Vec2::new(-700, 250);
    let targets = [
        Vec2::new(900, -1300),
        Vec2::new(-701, 250),
        Vec2::new(5000, 5000),
        Vec2::new(-700, 250),
        Vec2::new(i32::MAX, i32::MIN),
    ];
    for target in targets {
        for reach in [0u64, 1, 2, 17, 500, 3000, 1 << 40] {
            let to = from.step_toward(target, reach);
            assert!(to.distance_squared(target) <= from.distance_squared(target));
            assert!(to.distance_squared(from) <= (reach as u128) * (reach as u128));
            assert!(to.x >= from.x.min(target.x) && to.x <= from.x.max(target.x));
            assert!(to.y >= from.y.min(target.y) && to.y <= from.y.max(target.y));
        }
    }
}

#[test]
fn offset_moves_and_stops_at_the_ends() {
    let p = Vec2::new(100, -100);
    assert_eq!(p.offset(5, 7), Vec2::new(105, -93));
    assert_eq!(p.offset(i64::MAX, i64::MIN), Vec2::new(i32::MAX, i32::MIN));
    assert_eq!(Vec2::new(i32::MAX, i32::MIN).offset(1, -1), Vec2::new(i32::MAX, i32::MIN));
}

#[test]
fn rect_from_corners_in_any_order() {
    let r = Rect::from_corners(Vec2::new(5, -2), Vec2::new(-3, 9));
    assert_eq!(r.min, Vec2::new(-3, -2));
    assert_eq!(r.max, Vec2::new(5, 9));
    assert_eq!(r, Rect::from_corners(Vec2::new(-3, 9), Vec2::new(5, -2)));
    assert_eq!(r.width(), 8);
    assert_eq!(r.height(), 11);
}

#[test]
fn rect_contains_its_border() {
    let r = Rect::from_corners(Vec2::new(0, 0), Vec2::new(10, 20));
    assert!(r.contains_point(Vec2::new(0, 0)));
    assert!(r.contains_point(Vec2::new(10, 20)));
    assert!(r.contains_point(Vec2::new(5, 5)));
    assert!(!r.contains_point(Vec2::new(11, 5)));
    assert!(!r.contains_point(Vec2::new(5, -1)));
}

#[test]
fn rect_point_at_fractions() {
    let r = Rect::from_corners(Vec2::new(1000, 2000), Vec2::new(5000, 4000));
    assert_eq!(r.point_at(0, 0), Vec2::new(1000, 2000));
    assert_eq!(r.point_at(1 << 31, 1 << 30), Vec2::new(3000, 2500));
    assert_eq!(r.point_at(u32::MAX, u32::MAX), Vec2::new(4999, 3999));
}

#[test]
fn rect_point_at_stays_inside() {
    let rects = [
        Rect::from_corners(Vec2::new(-7, 3), Vec2::new(-7, 3)),
        Rect::from_corners(Vec2::new(i32::MIN, i32::MIN), Vec2::new(i32::MAX, i32::MAX)),
        Rect::from_corners(Vec2::new(100, -50), Vec2::new(-100, 50)),
    ];
    for r in rects {
        for fx in [0u32, 1, 77, 1 << 16, 1 << 31, u32::MAX] {
            for fy in [0u32, 3, 1 << 20, u32::MAX - 1, u32::MAX] {
                assert!(r.contains_point(r.point_at(fx, fy)));
            }
        }
    }
}
