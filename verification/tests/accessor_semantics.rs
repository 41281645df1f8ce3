//! Runtime semantics of the synthesized accessors: round trips, framing,
//! range rejection, sign extension.

use register_generator::model::Width;
use register_generator::register_value::RegisterValue;

#[test]
fn unsigned_round_trip_all_widths() {
    for &width in &[Width::W8, Width::W16, Width::W32, Width::W64] {
        let mut r = RegisterValue::new(width);
        let msb = width.bits() - 1;
        // a field covering the whole register round-trips the all-ones value
        assert!(r.set_field(0, msb, width.max_value()));
        assert_eq!(r.get_field(0, msb), width.max_value());
        // a mid-register field round-trips every value it can hold
        let mut r = RegisterValue::new(width);
        for v in 0..8u64 {
            assert!(r.set_field(2, 4, v));
            assert_eq!(r.get_field(2, 4), v);
        }
    }
}

#[test]
fn set_leaves_outside_bits_unchanged() {
    let mut r = RegisterValue::new(Width::W16);
    r.set_value(0xabcd);
    // bits [4,7] of 0xabcd are 0xc; replacing them with 0x5 gives 0xab5d
    assert!(r.set_field(4, 7, 0x5));
    assert_eq!(r.get_value(), 0xab5d);
    assert_eq!(r.get_field(4, 7), 0x5);
}

#[test]
fn unsigned_setter_rejects_exactly_out_of_range() {
    // 3-bit unsigned field: legal values are 0..=7
    let mut r = RegisterValue::new(Width::W8);
    r.set_value(0x55);
    assert!(!r.set_field(0, 2, 8));
    assert_eq!(r.get_value(), 0x55); // rejected: storage unchanged
    assert!(r.set_field(0, 2, 7));
    assert_eq!(r.get_field(0, 2), 7);
}

#[test]
fn signed_setter_rejects_exactly_out_of_range() {
    // 4-bit signed field: legal range is [-8, 7]
    let mut r = RegisterValue::new(Width::W32);
    assert!(!r.set_field_signed(0, 3, -9));
    assert_eq!(r.get_value(), 0); // rejected: storage unchanged
    assert!(!r.set_field_signed(0, 3, 8));
    assert!(r.set_field_signed(0, 3, -8));
    assert_eq!(r.get_field_signed(0, 3), -8);
    assert!(r.set_field_signed(0, 3, 7));
    assert_eq!(r.get_field_signed(0, 3), 7);
}

#[test]
fn signed_round_trip_preserves_sign() {
    let mut r = RegisterValue::new(Width::W8);
    // field at bits [2,5]: 4-bit signed range [-8,7]
    for v in -8i64..=7i64 {
        assert!(r.set_field_signed(2, 5, v));
        assert_eq!(r.get_field_signed(2, 5), v);
    }
    // -1 stores all four field bits set: raw == 0b0011_1100
    assert!(r.set_field_signed(2, 5, -1));
    assert_eq!(r.get_value(), 0x3c);
}

#[test]
fn signed_full_width_field() {
    let mut r = RegisterValue::new(Width::W64);
    assert!(r.set_field_signed(0, 63, i64::MIN));
    assert_eq!(r.get_field_signed(0, 63), i64::MIN);
    assert!(r.set_field_signed(0, 63, -1));
    assert_eq!(r.get_value(), u64::MAX);
    assert_eq!(r.get_field_signed(0, 63), -1);
}

#[test]
fn whole_value_accessors() {
    let mut r = RegisterValue::new(Width::W8);
    assert_eq!(r.get_value(), 0);
    r.set_value(0xff);
    assert_eq!(r.get_value(), 0xff);
    r.clear_value();
    assert_eq!(r.get_value(), 0);
}

#[test]
fn width_from_size_accepts_exactly_supported() {
    assert_eq!(Width::from_size(8), Some(Width::W8));
    assert_eq!(Width::from_size(16), Some(Width::W16));
    assert_eq!(Width::from_size(32), Some(Width::W32));
    assert_eq!(Width::from_size(64), Some(Width::W64));
    assert_eq!(Width::from_size(0), None);
    assert_eq!(Width::from_size(12), None);
    assert_eq!(Width::from_size(63), None);
    assert_eq!(Width::from_size(128), None);
}
