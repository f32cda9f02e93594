use watcher::reading::Reading;

fn r(x: f32) -> Reading {
    Reading::from_bits(x.to_bits())
}

#[test]
fn ordering_matches_ieee() {
    let values = [
        f32::NEG_INFINITY,
        -1.0e9,
        -2.5,
        -0.0,
        0.0,
        1.0e-40,
        0.5,
        10.0,
        f32::MAX,
        f32::INFINITY,
        f32::NAN,
    ];
    for a in values.iter() {
        for b in values.iter() {
            assert_eq!(r(*a).lt(&r(*b)), a < b, "{} < {}", a, b);
            assert_eq!(r(*a).gt(&r(*b)), a > b, "{} > {}", a, b);
        }
    }
}

#[test]
fn zero_nan_and_abs() {
    assert!(r(0.0).is_zero());
    assert!(r(-0.0).is_zero());
    assert!(!r(1.0e-40).is_zero());
    assert!(r(f32::NAN).is_nan());
    assert!(!r(f32::INFINITY).is_nan());
    assert_eq!(r(-3.5).abs().to_bits(), 3.5f32.to_bits());
    assert_eq!(r(3.5).abs().to_bits(), 3.5f32.to_bits());
    assert_eq!(Reading::one().to_bits(), 1.0f32.to_bits());
    assert_eq!(Reading::zero().to_bits(), 0.0f32.to_bits());
}
