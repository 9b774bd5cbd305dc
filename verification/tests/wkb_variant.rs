use meos::wkb_variant::{EXTENDED_BITS, NDR_BITS, XDR_BITS};
use meos::WKBVariant;

#[test]
fn named_flags_hold_their_bits() {
    assert_eq!(WKBVariant::NDR().bits(), 8);
    assert_eq!(WKBVariant::XDR().bits(), 16);
    assert_eq!(WKBVariant::Extended().bits(), 4);
    assert_eq!(NDR_BITS, 8);
    assert_eq!(XDR_BITS, 16);
    assert_eq!(EXTENDED_BITS, 4);
}

#[test]
fn all_bits_and_all_flags() {
    assert_eq!(WKBVariant::all_bits().bits(), 0xff);
    assert_eq!(WKBVariant::all_flags().bits(), 28);
    assert!(WKBVariant::all_bits().is_all_bits());
    assert!(!WKBVariant::all_flags().is_all_bits());
    assert!(WKBVariant::all_flags().is_all_flags());
    assert!(!WKBVariant::all_bits().is_all_flags());
    assert_eq!(WKBVariant::all(), WKBVariant::all_bits());
    assert_eq!(WKBVariant::full(), WKBVariant::all_flags());
    assert!(WKBVariant::all_bits().is_all());
    assert!(WKBVariant::all_flags().is_full());
}

#[test]
fn none_is_empty() {
    assert_eq!(WKBVariant::none().bits(), 0);
    assert!(WKBVariant::none().is_none());
    assert!(!WKBVariant::NDR().is_none());
}

#[test]
fn truncate_keeps_flag_bits() {
    assert_eq!(WKBVariant::all_bits().truncate(), WKBVariant::all_flags());
    assert_eq!(WKBVariant::from(0b1000_0001u8).truncate(), WKBVariant::none());
    assert_eq!(WKBVariant::from(0b0000_1001u8).truncate(), WKBVariant::NDR());
}

#[test]
fn intersects_and_contains() {
    let ndr_ext = WKBVariant::NDR() | WKBVariant::Extended();
    assert!(ndr_ext.intersects(WKBVariant::NDR()));
    assert!(!ndr_ext.intersects(WKBVariant::XDR()));
    assert!(ndr_ext.intersects(WKBVariant::none()));
    assert!(WKBVariant::none().intersects(WKBVariant::none()));
    assert!(ndr_ext.contains(WKBVariant::NDR()));
    assert!(ndr_ext.contains(ndr_ext));
    assert!(!ndr_ext.contains(WKBVariant::all_flags()));
    assert!(ndr_ext.contains(WKBVariant::none()));
}

#[test]
fn bitwise_methods() {
    let a = WKBVariant::from(0b1100u8);
    let b = WKBVariant::from(0b1010u8);
    assert_eq!(a.and(b).bits(), 0b1000);
    assert_eq!(a.or(b).bits(), 0b1110);
    assert_eq!(a.xor(b).bits(), 0b0110);
    assert_eq!(a.not().bits(), 0b1111_0011);
}

#[test]
fn bitwise_operators() {
    let a = WKBVariant::from(0b1100u8);
    let b = WKBVariant::from(0b1010u8);
    assert_eq!((a & b).bits(), 0b1000);
    assert_eq!((a | b).bits(), 0b1110);
    assert_eq!((a ^ b).bits(), 0b0110);
    assert_eq!((!a).bits(), 0b1111_0011);
    let mut c = a;
    c &= b;
    assert_eq!(c.bits(), 0b1000);
    let mut c = a;
    c |= b;
    assert_eq!(c.bits(), 0b1110);
    let mut c = a;
    c ^= b;
    assert_eq!(c.bits(), 0b0110);
}

#[test]
fn conversions_with_bytes() {
    let v = WKBVariant::from(0x2au8);
    assert_eq!(v.bits(), 0x2a);
    assert_eq!(u8::from(v), 0x2a);
    let x: u8 = WKBVariant::NDR().into();
    assert_eq!(x, 8);
    assert!(v == 0x2au8);
    assert!(!(v == 0x2bu8));
}

#[test]
fn de_morgan_on_values() {
    let a = WKBVariant::from(0b0101_1100u8);
    let b = WKBVariant::from(0b0011_1010u8);
    assert_eq!(!(a & b), !a | !b);
    assert_eq!(!(a | b), !a & !b);
    assert_eq!((a ^ b) ^ b, a);
    assert_eq!(a ^ a, WKBVariant::none());
    assert_eq!(!!a, a);
}

#[test]
fn ordering_and_debug() {
    assert!(WKBVariant::Extended() < WKBVariant::NDR());
    assert!(WKBVariant::NDR() < WKBVariant::XDR());
    assert_eq!(format!("{:?}", WKBVariant::NDR()), "WKBVariant { bits: 8 }");
}

#[test]
fn containment_is_a_partial_order() {
    let a = WKBVariant::all_flags();
    let b = WKBVariant::NDR() | WKBVariant::XDR();
    let c = WKBVariant::XDR();
    assert!(a.contains(a));
    assert!(a.contains(b) && b.contains(c) && a.contains(c));
    assert!(!(b.contains(a) && a.contains(b)));
    assert!((a | c).contains(a) && (a | c).contains(c));
    assert!(a.contains(a & b) && b.contains(a & b));
}

#[test]
fn truncate_is_idempotent() {
    let v = WKBVariant::from(0b1110_0110u8);
    assert_eq!(v.truncate().truncate(), v.truncate());
    assert!(WKBVariant::all_flags().contains(v.truncate()));
    assert_eq!(WKBVariant::NDR().truncate(), WKBVariant::NDR());
}
