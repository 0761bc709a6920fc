use ppv::catalog::{ElemKind, VectorType};
use ppv::vector::Vector;

fn ty(kind: ElemKind, width: u32, lanes: usize) -> VectorType {
    VectorType { kind, width, lanes }
}

#[test]
fn widening_signed_cast_sign_extends() {
    let i8x4 = ty(ElemKind::SignedInt, 8, 4);
    let i16x4 = ty(ElemKind::SignedInt, 16, 4);
    // -1, -128, 127, 0 as 8-bit patterns
    let v = Vector::try_from_lanes(i8x4, vec![0xFF, 0x80, 0x7F, 0x00]).unwrap();
    let w = v.cast(i16x4);
    assert_eq!(w.extract(0), 0xFFFF);
    assert_eq!(w.extract(1), 0xFF80);
    assert_eq!(w.extract(2), 0x007F);
    assert_eq!(w.extract(3), 0x0000);
}

#[test]
fn widening_unsigned_cast_zero_extends() {
    let u8x4 = ty(ElemKind::UnsignedInt, 8, 4);
    let u64x4 = ty(ElemKind::UnsignedInt, 64, 4);
    let v = Vector::try_from_lanes(u8x4, vec![0xFF, 0x80, 0x7F, 0x00]).unwrap();
    let w = v.cast(u64x4);
    assert_eq!(w.extract(0), 0xFF);
    assert_eq!(w.extract(1), 0x80);
    assert_eq!(w.extract(2), 0x7F);
    assert_eq!(w.extract(3), 0x00);
}

#[test]
fn narrowing_cast_wraps_low_bits() {
    let u16x4 = ty(ElemKind::UnsignedInt, 16, 4);
    let u8x4 = ty(ElemKind::UnsignedInt, 8, 4);
    let v = Vector::try_from_lanes(u16x4, vec![0x1FF, 0xABCD, 0x0042, 0xFF00]).unwrap();
    let w = v.cast(u8x4);
    assert_eq!(w.extract(0), 0xFF);
    assert_eq!(w.extract(1), 0xCD);
    assert_eq!(w.extract(2), 0x42);
    assert_eq!(w.extract(3), 0x00);
}

#[test]
fn signed_to_unsigned_same_width_keeps_patterns() {
    let i32x2 = ty(ElemKind::SignedInt, 32, 2);
    let u32x2 = ty(ElemKind::UnsignedInt, 32, 2);
    let v = Vector::try_from_lanes(i32x2, vec![0xFFFF_FFFF, 5]).unwrap();
    let w = v.cast(u32x2);
    assert_eq!(w.extract(0), 0xFFFF_FFFF);
    assert_eq!(w.extract(1), 5);
}

#[test]
fn mask_cast_recodes_at_the_new_width() {
    let m8x4 = ty(ElemKind::Mask, 8, 4);
    let m64x4 = ty(ElemKind::Mask, 64, 4);
    let m = Vector::mask_from_bools(8, &vec![true, false, true, false]);
    let wide = m.cast(m64x4);
    assert_eq!(wide.extract(0), 0xFFFF_FFFF_FFFF_FFFF);
    assert_eq!(wide.extract(1), 0);
    assert_eq!(wide.extract(2), 0xFFFF_FFFF_FFFF_FFFF);
    assert_eq!(wide.extract(3), 0);
    let narrow = wide.cast(m8x4);
    assert!(narrow.equal(&m));
}

#[test]
fn mask_round_trip_over_every_pattern() {
    // all 2^4 boolean patterns, through every other mask width and back
    let m8x4 = ty(ElemKind::Mask, 8, 4);
    for bits in 0u32..16 {
        let flags: Vec<bool> = (0..4).map(|i| bits & (1 << i) != 0).collect();
        let m = Vector::mask_from_bools(8, &flags);
        for w in [16u32, 32, 64, 128] {
            let there = m.cast(ty(ElemKind::Mask, w, 4));
            let back = there.cast(m8x4);
            assert!(back.equal(&m), "pattern {bits} width {w}");
            for i in 0..4 {
                let expect = if flags[i] { ppv::catalog::ones_of_width(w) } else { 0 };
                assert_eq!(there.extract(i), expect);
            }
        }
    }
}

#[test]
fn int_to_mask_is_the_nonzero_test() {
    let u32x4 = ty(ElemKind::UnsignedInt, 32, 4);
    let m32x4 = ty(ElemKind::Mask, 32, 4);
    let v = Vector::try_from_lanes(u32x4, vec![0, 1, 0xFFFF_FFFF, 42]).unwrap();
    let m = v.cast(m32x4);
    assert_eq!(m.extract(0), 0);
    assert_eq!(m.extract(1), 0xFFFF_FFFF);
    assert_eq!(m.extract(2), 0xFFFF_FFFF);
    assert_eq!(m.extract(3), 0xFFFF_FFFF);
}

#[test]
fn mask_to_int_gives_zero_or_all_ones() {
    let i16x2 = ty(ElemKind::SignedInt, 16, 2);
    let m = Vector::mask_from_bools(64, &vec![true, false]);
    let v = m.cast(i16x2);
    assert_eq!(v.extract(0), 0xFFFF);
    assert_eq!(v.extract(1), 0);
}
