use ppv::catalog::{ElemKind, VectorType};
use ppv::vector::Vector;

fn ty(kind: ElemKind, width: u32, lanes: usize) -> VectorType {
    VectorType { kind, width, lanes }
}

#[test]
fn trunc_cast_keeps_low_bits_of_low_lanes() {
    // halving the width and the lane count together: the inversely
    // proportional pairing of a total-width-halving conversion
    let u64x4 = ty(ElemKind::UnsignedInt, 64, 4);
    let u32x2 = ty(ElemKind::UnsignedInt, 32, 2);
    let v = Vector::try_from_lanes(
        u64x4,
        vec![0x1122_3344_5566_7788, 0xAAAA_BBBB_CCCC_DDDD, 0xFFFF_FFFF_FFFF_FFFF, 7],
    )
    .unwrap();
    let w = v.trunc_cast(u32x2);
    assert_eq!(w.lane_count(), 2);
    assert_eq!(w.extract(0), 0x5566_7788);
    assert_eq!(w.extract(1), 0xCCCC_DDDD);
}

#[test]
fn trunc_cast_over_every_width_pair() {
    let widths: [u32; 5] = [8, 16, 32, 64, 128];
    let marker = 0x0123_4567_89AB_CDEF_0123_4567_89AB_CDEFu128;
    for (si, &sw) in widths.iter().enumerate() {
        for &tw in &widths[..=si] {
            let src = ty(ElemKind::UnsignedInt, sw, 4);
            let dst = ty(ElemKind::UnsignedInt, tw, 2);
            let lane = marker % (if sw == 128 { u128::MAX } else { (1u128 << sw) - 1 });
            let v = Vector::try_from_lanes(src, vec![lane, lane ^ 1, 3, 4]).unwrap();
            let w = v.trunc_cast(dst);
            let keep = |x: u128| if tw == 128 { x } else { x % (1u128 << tw) };
            assert_eq!(w.lane_count(), 2);
            assert_eq!(w.extract(0), keep(lane), "{sw} -> {tw}");
            assert_eq!(w.extract(1), keep(lane ^ 1), "{sw} -> {tw}");
        }
    }
}

#[test]
fn trunc_cast_drops_high_lanes_entirely() {
    let u16x8 = ty(ElemKind::UnsignedInt, 16, 8);
    let u8x4 = ty(ElemKind::UnsignedInt, 8, 4);
    // distinctive markers in the high lanes must not appear anywhere
    let v = Vector::try_from_lanes(u16x8, vec![1, 2, 3, 4, 0xDEAD, 0xBEEF, 0xCAFE, 0xF00D])
        .unwrap();
    let w = v.trunc_cast(u8x4);
    assert_eq!(w.lane_count(), 4);
    let out: Vec<u128> = w.to_lanes();
    assert_eq!(out, vec![1, 2, 3, 4]);
    for x in out {
        assert!(x != 0xAD && x != 0xEF && x != 0xFE && x != 0x0D);
    }
}

#[test]
fn trunc_cast_of_masks_recodes_booleans() {
    // a boolean lane is never partially preserved
    let m64x4 = ty(ElemKind::Mask, 64, 4);
    let m8x2 = ty(ElemKind::Mask, 8, 2);
    let m = Vector::mask_from_bools(64, &vec![true, false, true, true]);
    let w = m.trunc_cast(m8x2);
    assert_eq!(w.extract(0), 0xFF);
    assert_eq!(w.extract(1), 0);
    let same = m.trunc_cast(m64x4);
    assert!(same.equal(&m));
}

#[test]
fn trunc_cast_int_to_mask_is_the_nonzero_test() {
    let u32x4 = ty(ElemKind::UnsignedInt, 32, 4);
    let m16x2 = ty(ElemKind::Mask, 16, 2);
    let v = Vector::try_from_lanes(u32x4, vec![0x1_0000 /* nonzero, low bits clear */, 0, 5, 6])
        .unwrap();
    let m = v.trunc_cast(m16x2);
    assert_eq!(m.extract(0), 0xFFFF);
    assert_eq!(m.extract(1), 0);
}
