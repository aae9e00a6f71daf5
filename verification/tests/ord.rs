use rhino2d::ord::is_sorted;
use rhino2d::ord::TotalF32;

#[test]
fn test_is_sorted() {
    assert!(is_sorted::<u8>(&[]));
    assert!(is_sorted(&[0]));
    assert!(is_sorted(&[0, 1]));
    assert!(is_sorted(&[0, 1, 2]));
    assert!(!is_sorted(&[0, 2, 1]));
    assert!(!is_sorted(&[2, 1]));
    assert!(!is_sorted(&[1, 0, 2]));
}

#[test]
fn total_order_sorts_bit_patterns() {
    let zero = TotalF32(0.0f32.to_bits());
    let neg_zero = TotalF32((-0.0f32).to_bits());
    let one = TotalF32(1.0f32.to_bits());
    let nan = TotalF32(f32::NAN.to_bits());
    assert!(is_sorted(&[neg_zero, zero, one, nan]));
    assert!(!is_sorted(&[zero, neg_zero]));
    assert!(!is_sorted(&[zero, nan, one]));
}
