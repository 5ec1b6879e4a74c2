use gymnarium_visualisers_base::math::{Matrix3x3, Position2D, Size2D, Vector2D};
use gymnarium_visualisers_base::scalar::Scalar;

fn s(x: f64) -> Scalar {
    Scalar::from_bits(x.to_bits())
}

fn samples() -> Vec<f64> {
    vec![
        0.0,
        -0.0,
        1.0,
        -1.0,
        0.5,
        -0.5,
        2.5,
        -2.5,
        1e-310,
        -1e-310,
        5e-324,
        -5e-324,
        1e300,
        -1e300,
        f64::MAX,
        f64::MIN,
        f64::MIN_POSITIVE,
        f64::EPSILON,
        f64::INFINITY,
        f64::NEG_INFINITY,
        f64::NAN,
        -f64::NAN,
    ]
}

#[test]
fn bits_go_in_and_come_out() {
    assert_eq!(Scalar::from_bits(0x4009_21FB_5444_2D18).to_bits(), 0x4009_21FB_5444_2D18);
    assert_eq!(s(3.5).to_bits(), 3.5f64.to_bits());
    assert_eq!(s(3.5).bits, 0x400C_0000_0000_0000);
}

#[test]
fn named_numbers_are_the_binary64_ones() {
    assert_eq!(Scalar::zero().to_bits(), 0.0f64.to_bits());
    assert_eq!(Scalar::one().to_bits(), 1.0f64.to_bits());
    assert_eq!(Scalar::minus_one().to_bits(), (-1.0f64).to_bits());
    assert_eq!(Scalar::greatest_finite().to_bits(), f64::MAX.to_bits());
    assert_eq!(Scalar::least_finite().to_bits(), f64::MIN.to_bits());
}

#[test]
fn equality_is_of_bits() {
    assert_ne!(s(0.0), s(-0.0));
    assert_eq!(s(f64::NAN), s(f64::NAN));
    assert_eq!(s(1.5), s(1.5));
}

#[test]
fn is_nan_agrees_with_binary64() {
    for x in samples() {
        assert_eq!(s(x).is_nan(), x.is_nan(), "{x}");
    }
    assert!(Scalar::from_bits(0x7FF0_0000_0000_0001).is_nan());
    assert!(Scalar::from_bits(0xFFF8_0000_0000_0000).is_nan());
    assert!(!Scalar::from_bits(0x7FF0_0000_0000_0000).is_nan());
    assert!(!Scalar::from_bits(0xFFF0_0000_0000_0000).is_nan());
}

#[test]
fn less_than_agrees_with_binary64() {
    for a in samples() {
        for b in samples() {
            assert_eq!(s(a).less_than(s(b)), a < b, "{a} < {b}");
        }
    }
}

#[test]
fn zeros_are_not_less_than_each_other() {
    assert!(!s(0.0).less_than(s(-0.0)));
    assert!(!s(-0.0).less_than(s(0.0)));
    assert!(s(-5e-324).less_than(s(0.0)));
    assert!(s(-0.0).less_than(s(5e-324)));
}

#[test]
fn min_agrees_with_binary64() {
    for a in samples() {
        for b in samples() {
            let got = f64::from_bits(s(a).min(s(b)).to_bits());
            let want = a.min(b);
            if want.is_nan() {
                assert!(got.is_nan(), "min({a}, {b})");
            } else {
                assert_eq!(got, want, "min({a}, {b})");
            }
        }
    }
}

#[test]
fn max_agrees_with_binary64() {
    for a in samples() {
        for b in samples() {
            let got = f64::from_bits(s(a).max(s(b)).to_bits());
            let want = a.max(b);
            if want.is_nan() {
                assert!(got.is_nan(), "max({a}, {b})");
            } else {
                assert_eq!(got, want, "max({a}, {b})");
            }
        }
    }
}

#[test]
fn min_and_max_pick_exact_values() {
    assert_eq!(s(2.0).min(s(-3.0)), s(-3.0));
    assert_eq!(s(2.0).max(s(-3.0)), s(2.0));
    assert_eq!(s(-7.25).min(s(-7.5)), s(-7.5));
    assert_eq!(s(-7.25).max(s(-7.5)), s(-7.25));
}

#[test]
fn a_nan_loses_against_a_number() {
    assert_eq!(s(f64::NAN).min(s(4.0)), s(4.0));
    assert_eq!(s(4.0).min(s(f64::NAN)), s(4.0));
    assert_eq!(s(f64::NAN).max(s(4.0)), s(4.0));
    assert_eq!(s(4.0).max(s(f64::NAN)), s(4.0));
    assert!(s(f64::NAN).min(s(f64::NAN)).is_nan());
}

#[test]
fn of_equal_values_the_first_is_kept() {
    assert_eq!(s(0.0).min(s(-0.0)), s(0.0));
    assert_eq!(s(-0.0).min(s(0.0)), s(-0.0));
    assert_eq!(s(0.0).max(s(-0.0)), s(0.0));
    assert_eq!(s(-0.0).max(s(0.0)), s(-0.0));
}

#[test]
fn positions_vectors_and_sizes_keep_their_numbers() {
    let p = Position2D::with(s(1.0), s(-2.0));
    assert_eq!(p.x, s(1.0));
    assert_eq!(p.y, s(-2.0));
    let v = Vector2D::with(s(3.0), s(4.0));
    assert_eq!((v.x, v.y), (s(3.0), s(4.0)));
    let z = Size2D::with(s(5.0), s(6.0));
    assert_eq!((z.width, z.height), (s(5.0), s(6.0)));
    assert_eq!(Position2D::zero(), Position2D::with(s(0.0), s(0.0)));
    assert_eq!(Vector2D::zero(), Vector2D::with(s(0.0), s(0.0)));
}

#[test]
fn corners_of_two_positions() {
    let a = Position2D::with(s(1.0), s(8.0));
    let b = Position2D::with(s(3.0), s(-2.0));
    assert_eq!(a.lower(b), Position2D::with(s(1.0), s(-2.0)));
    assert_eq!(a.upper(b), Position2D::with(s(3.0), s(8.0)));
    assert_eq!(b.lower(a), Position2D::with(s(1.0), s(-2.0)));
    assert_eq!(b.upper(a), Position2D::with(s(3.0), s(8.0)));
}

#[test]
fn a_matrix_keeps_its_rows() {
    let rows = [
        [s(1.0), s(2.0), s(3.0)],
        [s(4.0), s(5.0), s(6.0)],
        [s(7.0), s(8.0), s(9.0)],
    ];
    let m = Matrix3x3::with(rows);
    assert_eq!(m.rows, rows);
    assert_eq!(m.rows[1][2], s(6.0));
}
