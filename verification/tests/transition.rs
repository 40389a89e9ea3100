use panther::transition::{CircleAnimation, Quadratic};

const POINTS: [(i32, i32, i32); 3] = [(500, 500, 500), (-500, -200, 0), (0, 2000, 3000)];

#[test]
fn coefficients_solve_the_three_conditions() {
    let q = Quadratic::through(0, 2000, 3000);
    assert_eq!(q, Quadratic { a: -2000, b: 5000, c: 0 });
    let q = Quadratic::through(-500, -200, 0);
    assert_eq!(q, Quadratic { a: -200, b: 700, c: -500 });
    let q = Quadratic::through(500, 500, 500);
    assert_eq!(q, Quadratic { a: 0, b: 0, c: 500 });
}

#[test]
fn starts_at_first_control_value() {
    let anim = CircleAnimation::new(1000, POINTS, 0);
    assert_eq!(anim.value_at(0), (500, -500, 0));
}

#[test]
fn ends_at_last_control_value_and_stays() {
    let anim = CircleAnimation::new(1000, POINTS, 0);
    assert_eq!(anim.value_at(1000), (500, 0, 3000));
    assert_eq!(anim.value_at(1001), (500, 0, 3000));
    assert_eq!(anim.value_at(u64::MAX), (500, 0, 3000));
}

#[test]
fn passes_through_the_middle_control_value() {
    let anim = CircleAnimation::new(1000, POINTS, 0);
    assert_eq!(anim.value_at(500), (500, -200, 2000));
}

#[test]
fn quarter_time_value_is_exact() {
    // f(1/4) = a/16 + b/4 + c
    let anim = CircleAnimation::new(1000, POINTS, 0);
    assert_eq!(anim.value_at(250), (500, -337, 1125));
    assert_eq!(anim.value_at(750), (500, -87, 2625));
}

#[test]
fn values_between_are_rounded_toward_zero() {
    let anim = CircleAnimation::new(3, [(0, 0, 1), (0, 0, -1), (10, 10, 10)], 0);
    // channel 0: 2 t^2 - t, at t = 1/3: 2/9 - 3/9 = -1/9; at t = 2/3: 8/9 - 6/9 = 2/9
    // channel 1: -2 t^2 + t, the same with the sign turned
    assert_eq!(anim.value_at(1), (0, 0, 10));
    assert_eq!(anim.value_at(2), (0, 0, 10));
    let anim = CircleAnimation::new(4, [(0, 100, 50), (0, -100, -50), (7, 7, 7)], 0);
    // channel 0: a = -300, b = 350, c = 0; at t = 1/4: -18.75 + 87.5 = 68.75
    assert_eq!(anim.value_at(1), (68, -68, 7));
}

#[test]
fn cur_counts_from_the_start() {
    let mut anim = CircleAnimation::new(1000, POINTS, 5_000);
    assert_eq!(anim.cur(5_000), (500, -500, 0));
    assert_eq!(anim.cur(5_500), (500, -200, 2000));
    assert_eq!(anim.cur(9_000), (500, 0, 3000));
    // a clock reading before the start counts as the start
    assert_eq!(anim.cur(4_000), (500, -500, 0));
    anim.start(9_000);
    assert_eq!(anim.cur(9_000), (500, -500, 0));
    assert_eq!(anim.cur(9_500), (500, -200, 2000));
}

#[test]
fn zero_duration_shows_the_end() {
    let anim = CircleAnimation::new(0, POINTS, 0);
    assert_eq!(anim.value_at(0), (500, 0, 3000));
    assert_eq!(anim.value_at(10), (500, 0, 3000));
}

#[test]
fn extreme_control_values_do_not_overflow() {
    let points = [
        (i32::MIN, i32::MAX, i32::MIN),
        (i32::MAX, i32::MIN, i32::MAX),
        (i32::MAX, i32::MAX, i32::MAX),
    ];
    let anim = CircleAnimation::new(u32::MAX, points, 0);
    assert_eq!(anim.value_at(0), (i32::MIN as i64, i32::MAX as i64, i32::MAX as i64));
    assert_eq!(anim.value_at(u32::MAX as u64), (i32::MIN as i64, i32::MAX as i64, i32::MAX as i64));
    let (x, y, r) = anim.value_at(u32::MAX as u64 / 2);
    assert!((x - i32::MAX as i64).abs() <= 8);
    assert!((y - i32::MIN as i64).abs() <= 8);
    assert_eq!(r, i32::MAX as i64);
}
