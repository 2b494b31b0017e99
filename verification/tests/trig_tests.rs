use double_pendulum::fixed::{
    add_fp, cos_fp, div_fp, mul_fp, neg_fp, reduce_angle, sin_fp, sub_fp, FP_ONE, HALF_PI_FP,
    PI_FP, TWO_PI_FP,
};

#[test]
fn sine_quarter_points() {
    assert_eq!(sin_fp(0), 0);
    assert_eq!(sin_fp(HALF_PI_FP), FP_ONE);
    assert_eq!(sin_fp(PI_FP), 0);
    assert_eq!(sin_fp(PI_FP + HALF_PI_FP), -FP_ONE);
}

#[test]
fn cosine_quarter_points() {
    assert_eq!(cos_fp(0), FP_ONE);
    assert_eq!(cos_fp(HALF_PI_FP), 0);
    assert_eq!(cos_fp(PI_FP), -FP_ONE);
    assert_eq!(cos_fp(PI_FP + HALF_PI_FP), 0);
}

#[test]
fn sine_is_periodic() {
    let samples: [i64; 5] = [0, 12345, -987654, HALF_PI_FP, 3 * PI_FP + 17];
    for &x in samples.iter() {
        assert_eq!(sin_fp(x + TWO_PI_FP), sin_fp(x));
        assert_eq!(cos_fp(x + TWO_PI_FP), cos_fp(x));
        assert_eq!(sin_fp(x - TWO_PI_FP), sin_fp(x));
    }
}

#[test]
fn sine_of_negative_angle() {
    assert_eq!(sin_fp(-HALF_PI_FP), -FP_ONE);
    assert_eq!(cos_fp(-PI_FP), -FP_ONE);
    // sin is odd within rounding of the folded argument
    let x: i64 = 54321;
    let s = sin_fp(x);
    let sn = sin_fp(-x);
    assert!((s + sn).abs() <= 2, "sin not odd: {} vs {}", s, sn);
}

#[test]
fn sine_approximates_the_real_sine() {
    // one sixth of a turn: sin(pi/6) = 1/2
    let x: i64 = PI_FP / 6;
    let s = sin_fp(x);
    assert!((s - FP_ONE / 2).abs() <= 150, "sin(pi/6) = {}", s);
    // a dense sweep stays within Bhaskara's error bound (~0.17%)
    let mut a: i64 = -3 * TWO_PI_FP;
    while a < 3 * TWO_PI_FP {
        let approx = sin_fp(a) as f64 / FP_ONE as f64;
        let exact = (a as f64 / FP_ONE as f64).sin();
        assert!((approx - exact).abs() < 3.0e-3, "sin({}) = {} vs {}", a, approx, exact);
        a += 1009;
    }
}

#[test]
fn reduce_angle_folds_into_one_period() {
    assert_eq!(reduce_angle(0), 0);
    assert_eq!(reduce_angle(TWO_PI_FP), 0);
    assert_eq!(reduce_angle(-1), TWO_PI_FP - 1);
    assert_eq!(reduce_angle(TWO_PI_FP + 7), 7);
    assert_eq!(reduce_angle(-TWO_PI_FP - 7), TWO_PI_FP - 7);
    assert_eq!(reduce_angle(i64::MAX) % TWO_PI_FP, reduce_angle(i64::MAX));
}

#[test]
fn fixed_point_products_and_quotients() {
    assert_eq!(mul_fp(2 * FP_ONE, 3 * FP_ONE), 6 * FP_ONE);
    assert_eq!(mul_fp(-2 * FP_ONE, 3 * FP_ONE), -6 * FP_ONE);
    assert_eq!(div_fp(FP_ONE, 2 * FP_ONE), FP_ONE / 2);
    assert_eq!(div_fp(-FP_ONE, 2 * FP_ONE), -FP_ONE / 2);
    // truncation rounds toward zero in both signs
    assert_eq!(mul_fp(1, 1), 0);
    assert_eq!(mul_fp(-1, 1), 0);
}

#[test]
fn saturation_at_the_edges() {
    assert_eq!(add_fp(i64::MAX, 1), i64::MAX);
    assert_eq!(sub_fp(i64::MIN, 1), i64::MIN);
    assert_eq!(neg_fp(i64::MIN), i64::MAX);
    assert_eq!(mul_fp(i64::MAX, i64::MAX), i64::MAX);
    assert_eq!(mul_fp(i64::MAX, i64::MIN), i64::MIN);
    // division by zero saturates instead of panicking
    assert_eq!(div_fp(5, 0), i64::MAX);
    assert_eq!(div_fp(-5, 0), i64::MIN);
}
