use phys_rs::math::bits::{
    decode_shuffle_imm, encode_shuffle_imm, flip_single_bits, mask_prefix_bits, mask_single_bits,
    shuffle_mask, ALL_BITS, SIGN_BIT,
};
use phys_rs::math::reg::Reg;

#[test]
fn test_mask_prefixes() {
    assert_eq!([0, 0, 0, 0], mask_prefix_bits(0));
    assert_eq!([ALL_BITS, 0, 0, 0], mask_prefix_bits(1));
    assert_eq!([ALL_BITS, ALL_BITS, 0, 0], mask_prefix_bits(2));
    assert_eq!([ALL_BITS, ALL_BITS, ALL_BITS, 0], mask_prefix_bits(3));
    assert_eq!([ALL_BITS, ALL_BITS, ALL_BITS, ALL_BITS], mask_prefix_bits(4));
}

#[test]
fn test_mask_singles() {
    assert_eq!([0, ALL_BITS, 0, 0], mask_single_bits(1));
    assert_eq!([0, 0, 0, ALL_BITS], mask_single_bits(3));
}

#[test]
fn test_flip_singles() {
    assert_eq!([SIGN_BIT, 0, 0, 0], flip_single_bits(0));
    assert_eq!([0, SIGN_BIT, 0, 0], flip_single_bits(1));
    assert_eq!(1u32 << 31, SIGN_BIT);
}

#[test]
fn test_shuffle_mask_rotation() {
    // The byte table for the (1, 2, 0, 0) rotation the cross product uses.
    assert_eq!(
        [4, 5, 6, 7, 8, 9, 10, 11, 0, 1, 2, 3, 0, 1, 2, 3],
        shuffle_mask::<1, 2, 0, 0>()
    );
}

#[test]
fn test_shuffle_imm_round_trip() {
    let imm = encode_shuffle_imm(1, 2, 0, 0);
    assert_eq!(0b00_00_10_01, imm);
    assert_eq!([1, 2, 0, 0], decode_shuffle_imm(imm));
    assert_eq!([2, 3, 0, 0], decode_shuffle_imm(0b00_00_11_10));
    assert_eq!([2, 2, 1, 1], decode_shuffle_imm(0b01_01_10_10));
}

#[test]
fn test_reg_shuffle_routes_lanes() {
    let r = Reg::new(10, 20, 30, 40);
    let s = r.shuffle(2, 0, 1, 1);
    assert_eq!((30, 10, 20, 20), (s.x, s.y, s.z, s.w));
}

#[test]
fn test_reg_pairwise_ops() {
    let a = Reg::new(1, 2, 3, 4);
    let b = Reg::new(5, 6, 7, 8);
    let h = a.pairwise_add(b);
    assert_eq!((3, 7, 11, 15), (h.x, h.y, h.z, h.w));
    let m = a.pairwise_min(b);
    assert_eq!((1, 3, 5, 7), (m.x, m.y, m.z, m.w));
    let mx = a.pairwise_max(b);
    assert_eq!((2, 4, 6, 8), (mx.x, mx.y, mx.z, mx.w));
}

#[test]
fn test_reg_mask_and_flip() {
    let r = Reg::new(1, -2, 3, -4);
    let m = r.mask_xyz();
    assert_eq!((1, -2, 3, 0), (m.x, m.y, m.z, m.w));
    let f = r.flip_y();
    assert_eq!((1, 2, 3, -4), (f.x, f.y, f.z, f.w));
}
