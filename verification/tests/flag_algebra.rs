use generator::flags::Bitflags;

#[test]
fn empty_and_all() {
    assert_eq!(Bitflags::empty(0b1011).flags(), 0);
    assert_eq!(Bitflags::all(0b1011).flags(), 0b1011);
    assert_eq!(Bitflags::all(0b1011).mask(), 0b1011);
    assert!(Bitflags::empty(0b1011).is_empty());
    assert!(!Bitflags::all(0b1011).is_empty());
    assert!(Bitflags::all(0b1011).is_all());
    assert!(!Bitflags::empty(0b1011).is_all());
    assert!(Bitflags::empty(0).is_all());
}

#[test]
fn validated_construction_rejects_foreign_bits() {
    assert_eq!(Bitflags::from_flags(0b11, 0b100), None);
    assert_eq!(Bitflags::from_flags(0b11, 0b101), None);
    assert_eq!(Bitflags::from_flags(0b11, 0b10).map(|f| f.flags()), Some(0b10));
    assert_eq!(Bitflags::from_flags(0b11, 0).map(|f| f.flags()), Some(0));
    assert_eq!(Bitflags::from_flags(0, 1), None);
}

#[test]
fn truncating_construction_masks() {
    assert_eq!(Bitflags::from_flags_truncate(0b11, 0b111).flags(), 0b11);
    assert_eq!(Bitflags::from_flags_truncate(0b11, 0b100).flags(), 0);
    assert_eq!(Bitflags::from_flags_truncate(0b11, 0b01).flags(), 0b01);
    assert_eq!(Bitflags::from_flags_truncate(0b11, u64::MAX).flags(), 0b11);
}

#[test]
fn unchecked_construction_keeps_every_bit() {
    assert_eq!(Bitflags::new(0b11, 0b100).flags(), 0b100);
}

#[test]
fn predicates() {
    let a = Bitflags::new(0b1111, 0b0110);
    let b = Bitflags::new(0b1111, 0b0100);
    let c = Bitflags::new(0b1111, 0b1001);
    assert!(a.intersects(b));
    assert!(!a.intersects(c));
    assert!(a.subset(b));
    assert!(!b.subset(a));
    assert!(a.subset(Bitflags::empty(0b1111)));
}

#[test]
fn operators() {
    let a = Bitflags::new(0b1111, 0b0110);
    let b = Bitflags::new(0b1111, 0b0101);
    assert_eq!((a | b).flags(), 0b0111);
    assert_eq!((a & b).flags(), 0b0100);
    assert_eq!((a ^ b).flags(), 0b0011);
    assert_eq!((a - b).flags(), 0b0010);
    assert_eq!((!a).flags(), 0b1001);
    assert_eq!((a | b).mask(), 0b1111);
}

#[test]
fn assigning_operators() {
    let b = Bitflags::new(0b1111, 0b0101);
    let mut x = Bitflags::new(0b1111, 0b0110);
    x.bitor_assign(b);
    assert_eq!(x.flags(), 0b0111);
    let mut x = Bitflags::new(0b1111, 0b0110);
    x.bitand_assign(b);
    assert_eq!(x.flags(), 0b0100);
    let mut x = Bitflags::new(0b1111, 0b0110);
    x.bitxor_assign(b);
    assert_eq!(x.flags(), 0b0011);
    let mut x = Bitflags::new(0b1111, 0b0110);
    x.sub_assign(b);
    assert_eq!(x.flags(), 0b0010);
}

#[test]
fn complement_is_relative_to_the_mask() {
    let all = 0b1011;
    let x = Bitflags::new(all, 0b0010);
    assert_eq!((!x).flags(), all ^ 0b0010);
    assert_eq!((!x).flags(), 0b1001);
    assert_eq!((!Bitflags::empty(all)).flags(), all);
    assert_eq!((!Bitflags::all(all)).flags(), 0);
}

#[test]
fn complement_twice_is_identity() {
    let all = 0b1011;
    for raw in 0..16u64 {
        let x = Bitflags::new(all, raw);
        assert_eq!(!!x, x);
    }
}

#[test]
fn equal_values_compare_equal() {
    assert_eq!(Bitflags::new(3, 1), Bitflags::from_flags_truncate(3, 5));
    assert_ne!(Bitflags::new(3, 1), Bitflags::new(3, 2));
    assert!(Bitflags::new(3, 1) < Bitflags::new(3, 2));
}
