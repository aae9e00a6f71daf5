use rhino2d::float::bits_eq;
use rhino2d::float::bits_gt;
use rhino2d::float::bits_is_nan;
use rhino2d::float::bits_lt;
use rhino2d::float::bits_max;
use rhino2d::float::bits_min;
use rhino2d::float::bits_neg;
use rhino2d::float::bits_total_key;
use rhino2d::float::INFINITY;
use rhino2d::float::NEG_ZERO;
use rhino2d::float::ONE;
use rhino2d::float::ZERO;
use rhino2d::ord::TotalF32;
use std::cmp::Ordering;

fn samples() -> Vec<f32> {
    vec![
        0.0,
        -0.0,
        1.0,
        -1.0,
        0.5,
        -0.5,
        1.0e-40,
        -1.0e-40,
        f32::MIN_POSITIVE,
        f32::MAX,
        f32::MIN,
        f32::INFINITY,
        f32::NEG_INFINITY,
        f32::NAN,
        -f32::NAN,
        f32::from_bits(0x7f80_0001),
        f32::from_bits(0xff80_0001),
        3.25,
        100.0,
        -100.0,
    ]
}

#[test]
fn constants_are_the_patterns_of_their_values() {
    assert_eq!(ZERO, 0.0f32.to_bits());
    assert_eq!(NEG_ZERO, (-0.0f32).to_bits());
    assert_eq!(ONE, 1.0f32.to_bits());
    assert_eq!(INFINITY, f32::INFINITY.to_bits());
}

#[test]
fn nan_test_agrees_with_the_machine() {
    for x in samples() {
        assert_eq!(bits_is_nan(x.to_bits()), x.is_nan(), "{x:?}");
    }
}

#[test]
fn comparisons_agree_with_the_machine() {
    for a in samples() {
        for b in samples() {
            assert_eq!(bits_lt(a.to_bits(), b.to_bits()), a < b, "{a:?} < {b:?}");
            assert_eq!(bits_gt(a.to_bits(), b.to_bits()), a > b, "{a:?} > {b:?}");
            assert_eq!(bits_eq(a.to_bits(), b.to_bits()), a == b, "{a:?} == {b:?}");
        }
    }
}

#[test]
fn negation_flips_the_sign_bit() {
    for x in samples() {
        assert_eq!(bits_neg(x.to_bits()), (-x).to_bits(), "{x:?}");
    }
    assert_eq!(bits_neg(ONE), (-1.0f32).to_bits());
    assert_eq!(bits_neg(ZERO), NEG_ZERO);
}

#[test]
fn total_key_orders_as_total_cmp_does() {
    for a in samples() {
        for b in samples() {
            let expected = a.total_cmp(&b);
            let got = bits_total_key(a.to_bits()).cmp(&bits_total_key(b.to_bits()));
            assert_eq!(got, expected, "{a:?} against {b:?}");
            assert_eq!(TotalF32(a.to_bits()).total_cmp(&TotalF32(b.to_bits())), expected);
            assert_eq!(TotalF32(a.to_bits()).partial_cmp(&TotalF32(b.to_bits())), Some(expected));
            assert_eq!(
                TotalF32(a.to_bits()) == TotalF32(b.to_bits()),
                expected == Ordering::Equal
            );
        }
    }
}

#[test]
fn total_key_of_chosen_patterns() {
    assert_eq!(bits_total_key(ZERO), 0);
    assert_eq!(bits_total_key(NEG_ZERO), -1);
    assert_eq!(bits_total_key(ONE), 0x3f80_0000);
    assert_eq!(bits_total_key(0xbf80_0000), -0x3f80_0001);
    assert_eq!(bits_total_key(0xffff_ffff), -0x8000_0000);
    assert_eq!(bits_total_key(0x7fff_ffff), 0x7fff_ffff);
}

#[test]
fn minimum_and_maximum_pick_a_side_and_skip_nan() {
    for a in samples() {
        for b in samples() {
            let lo = f32::from_bits(bits_min(a.to_bits(), b.to_bits()));
            let hi = f32::from_bits(bits_max(a.to_bits(), b.to_bits()));
            if a.is_nan() && b.is_nan() {
                assert!(lo.is_nan() && hi.is_nan());
            } else {
                // Equal to what the machine gives; the two zeros count as equal.
                assert_eq!(lo, a.min(b), "min of {a:?} and {b:?}");
                assert_eq!(hi, a.max(b), "max of {a:?} and {b:?}");
            }
        }
    }
    assert_eq!(bits_min(ONE, ZERO), ZERO);
    assert_eq!(bits_max(ONE, ZERO), ONE);
    assert_eq!(bits_min(f32::NAN.to_bits(), ONE), ONE);
    assert_eq!(bits_max(ONE, f32::NAN.to_bits()), ONE);
}
