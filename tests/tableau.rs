use gravitas::tableau::{rkf45_coupling, rkf45_weights4, rkf45_weights5, Ratio, RKF45_STAGES};

fn r(num: i64, den: i64) -> Ratio {
    Ratio { num, den }
}

fn value(q: Ratio) -> f64 {
    q.num as f64 / q.den as f64
}

#[test]
fn coupling_rows_hold_the_fehlberg_coefficients() {
    assert!(rkf45_coupling(0).is_empty());
    assert_eq!(rkf45_coupling(1), vec![r(1, 4)]);
    assert_eq!(rkf45_coupling(2), vec![r(3, 32), r(9, 32)]);
    assert_eq!(rkf45_coupling(3), vec![r(1932, 2197), r(-7200, 2197), r(7296, 2197)]);
    assert_eq!(rkf45_coupling(4), vec![r(439, 216), r(-8, 1), r(3680, 513), r(-845, 4104)]);
    assert_eq!(
        rkf45_coupling(5),
        vec![r(-8, 27), r(2, 1), r(-3544, 2565), r(1859, 4104), r(-11, 40)]
    );
}

#[test]
fn weights_hold_the_fehlberg_coefficients() {
    assert_eq!(
        rkf45_weights5(),
        [r(16, 135), r(0, 1), r(6656, 12825), r(28561, 56430), r(-9, 50), r(2, 55)]
    );
    assert_eq!(
        rkf45_weights4(),
        [r(25, 216), r(0, 1), r(1408, 2565), r(2197, 4104), r(-1, 5), r(0, 1)]
    );
}

#[test]
fn weights_sum_to_one() {
    assert_eq!(RKF45_STAGES, 6);
    let s5: f64 = rkf45_weights5().iter().map(|q| value(*q)).sum();
    let s4: f64 = rkf45_weights4().iter().map(|q| value(*q)).sum();
    assert!((s5 - 1.0).abs() < 1e-15);
    assert!((s4 - 1.0).abs() < 1e-15);
}

#[test]
fn error_weights_cancel_on_constants() {
    let b5 = rkf45_weights5();
    let b4 = rkf45_weights4();
    let d: f64 = (0..RKF45_STAGES).map(|j| value(b5[j]) - value(b4[j])).sum();
    assert!(d.abs() < 1e-15);
}

#[test]
fn last_stage_row_sums_to_one_half() {
    let s: f64 = rkf45_coupling(5).iter().map(|q| value(*q)).sum();
    assert!((s - 0.5).abs() < 1e-14);
}
