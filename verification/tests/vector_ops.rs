use ppv::catalog::{ElemKind, VectorType};
use ppv::math::{select_fma_backend, select_rsqrte_backend, FmaBackend, RsqrteBackend};
use ppv::math::alternating_mask;
use ppv::vector::Vector;

fn u32x4() -> VectorType {
    VectorType { kind: ElemKind::UnsignedInt, width: 32, lanes: 4 }
}

#[test]
fn splat_fills_every_lane() {
    let v = Vector::splat(u32x4(), 42);
    assert_eq!(v.lane_count(), 4);
    for i in 0..4 {
        assert_eq!(v.extract(i), 42);
    }
}

#[test]
fn try_new_accepts_catalog_shapes_only() {
    assert!(VectorType::try_new(ElemKind::SignedInt, 32, 4).is_some());
    assert!(VectorType::try_new(ElemKind::UnsignedInt, 8, 64).is_some());
    assert!(VectorType::try_new(ElemKind::Mask, 128, 4).is_some());
    // not a power of two
    assert!(VectorType::try_new(ElemKind::SignedInt, 32, 3).is_none());
    // unsupported width
    assert!(VectorType::try_new(ElemKind::SignedInt, 24, 4).is_none());
    // more than 512 bits in total
    assert!(VectorType::try_new(ElemKind::SignedInt, 64, 16).is_none());
    assert!(VectorType::try_new(ElemKind::UnsignedInt, 128, 8).is_none());
}

#[test]
fn try_from_lanes_checks_length_and_patterns() {
    let ty = u32x4();
    let v = Vector::try_from_lanes(ty, vec![1, 2, 3, 4]).unwrap();
    assert_eq!(v.extract(0), 1);
    assert_eq!(v.extract(3), 4);
    // wrong lane count
    assert!(Vector::try_from_lanes(ty, vec![1, 2, 3]).is_none());
    // pattern too wide for a 32-bit element
    assert!(Vector::try_from_lanes(ty, vec![1, 2, 3, 0x1_0000_0000]).is_none());
    // a mask vector must be canonical: 1 is neither 0 nor all-ones
    let mty = VectorType { kind: ElemKind::Mask, width: 32, lanes: 4 };
    assert!(Vector::try_from_lanes(mty, vec![0, 1, 0, 0]).is_none());
    assert!(Vector::try_from_lanes(mty, vec![0, 0xFFFF_FFFF, 0, 0]).is_some());
}

#[test]
fn replace_changes_one_lane_only() {
    let v = Vector::splat(u32x4(), 5);
    let w = v.replace(2, 9);
    assert_eq!(w.extract(0), 5);
    assert_eq!(w.extract(1), 5);
    assert_eq!(w.extract(2), 9);
    assert_eq!(w.extract(3), 5);
}

#[test]
fn equal_compares_type_and_lanes() {
    let a = Vector::try_from_lanes(u32x4(), vec![1, 2, 3, 4]).unwrap();
    let b = Vector::try_from_lanes(u32x4(), vec![1, 2, 3, 4]).unwrap();
    let c = Vector::try_from_lanes(u32x4(), vec![1, 2, 3, 5]).unwrap();
    let ity = VectorType { kind: ElemKind::SignedInt, width: 32, lanes: 4 };
    let d = Vector::try_from_lanes(ity, vec![1, 2, 3, 4]).unwrap();
    assert!(a.equal(&b));
    assert!(!a.equal(&c));
    assert!(!a.equal(&d));
}

#[test]
fn mask_from_bools_is_canonical() {
    let m = Vector::mask_from_bools(16, &vec![true, false, true, false]);
    assert_eq!(m.extract(0), 0xFFFF);
    assert_eq!(m.extract(1), 0);
    assert_eq!(m.extract(2), 0xFFFF);
    assert_eq!(m.extract(3), 0);
}

#[test]
fn select_steers_lanes_by_mask() {
    let m = Vector::mask_from_bools(32, &vec![false, true, false, true]);
    let a = Vector::splat(u32x4(), 10);
    let b = Vector::splat(u32x4(), 20);
    let r = m.select(&a, &b);
    assert_eq!(r.extract(0), 20);
    assert_eq!(r.extract(1), 10);
    assert_eq!(r.extract(2), 20);
    assert_eq!(r.extract(3), 10);
}

#[test]
fn alternating_mask_matches_the_addsub_pattern() {
    let mty = VectorType { kind: ElemKind::Mask, width: 32, lanes: 4 };
    // the multiply-add/sub steering mask: false, true, false, true
    let m = alternating_mask(mty, false);
    assert_eq!(m.extract(0), 0);
    assert_eq!(m.extract(1), 0xFFFF_FFFF);
    assert_eq!(m.extract(2), 0);
    assert_eq!(m.extract(3), 0xFFFF_FFFF);
    // the multiply-sub/add steering mask: true, false, true, false
    let n = alternating_mask(mty, true);
    assert_eq!(n.extract(0), 0xFFFF_FFFF);
    assert_eq!(n.extract(1), 0);
    assert_eq!(n.extract(2), 0xFFFF_FFFF);
    assert_eq!(n.extract(3), 0);
}

#[test]
fn backend_selection_follows_the_provider() {
    assert_eq!(select_fma_backend(true), FmaBackend::Fused);
    assert_eq!(select_fma_backend(false), FmaBackend::MulThenAdd);
    assert_eq!(select_rsqrte_backend(true), RsqrteBackend::HardwareEstimate);
    assert_eq!(select_rsqrte_backend(false), RsqrteBackend::ReciprocalOfSqrt);
}

#[test]
fn to_lanes_round_trips() {
    let v = Vector::try_from_lanes(u32x4(), vec![9, 8, 7, 6]).unwrap();
    let out = v.to_lanes();
    assert_eq!(out, vec![9, 8, 7, 6]);
}
