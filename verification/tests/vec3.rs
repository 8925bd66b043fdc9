use phys_rs::math::vec3::{vec3, Vec3};
use phys_rs::math::vec4::{vec4, Vec4};

#[test]
fn vec3_test_new() {
    let v0 = Vec3::new(1, 2, 3);
    assert_eq!((1, 2, 3), v0.to_tuple());
    let v1 = Vec3::from_tuple((1, 2, 3));
    assert_eq!((1, 2, 3), v1.to_tuple());
    let v2 = Vec3::from_array([1, 2, 3]);
    assert_eq!((1, 2, 3), v2.to_tuple());
}

#[test]
fn test_splat() {
    let v0 = Vec3::splat(1);
    assert_eq!([1; 3], v0.to_array());
    let v1 = Vec3::splat(5);
    assert_eq!([5; 3], v1.to_array());
}

#[test]
fn vec3_test_const() {
    let v0 = Vec3::splat(1);
    assert_eq!([1; 3], v0.to_array());
    let v1 = vec3(1, 2, 3);
    assert_eq!((1, 2, 3), v1.to_tuple());
}

#[test]
fn vec3_test_consts() {
    assert_eq!([0; 3], Vec3::zero().to_array());
    assert_eq!([1; 3], Vec3::one().to_array());
    assert_eq!([-1; 3], Vec3::neg_one().to_array());
    assert_eq!((1, 0, 0), Vec3::axis_x().to_tuple());
    assert_eq!((-1, 0, 0), Vec3::neg_axis_x().to_tuple());
    assert_eq!((0, 1, 0), Vec3::axis_y().to_tuple());
    assert_eq!((0, -1, 0), Vec3::neg_axis_y().to_tuple());
    assert_eq!((0, 0, 1), Vec3::axis_z().to_tuple());
    assert_eq!((0, 0, -1), Vec3::neg_axis_z().to_tuple());
}

#[test]
fn vec3_test_fmt() {
    let v0 = vec3(1, 2, 3);
    assert_eq!(v0.display(), "[1, 2, 3]");
    let neg = vec3(-1, 0, 7);
    assert_eq!(neg.display(), "[-1, 0, 7]");
}

#[test]
fn vec3_test_accessors() {
    let mut a = Vec3::zero();
    a.set_index(0, 1);
    a.set_index(1, 2);
    a.set_index(2, 3);
    assert_eq!(1, a.x());
    assert_eq!(2, a.y());
    assert_eq!(3, a.z());
    assert_eq!((1, 2, 3), a.to_tuple());
    assert_eq!(1, a.index(0));
    assert_eq!(2, a.index(1));
    assert_eq!(3, a.index(2));
}

#[test]
fn vec3_test_invalid_accessors() {
    assert_eq!(None, Vec3::zero().lane(3));
}

#[test]
fn test_dot() {
    let x = vec3(1, 0, 0);
    let y = vec3(0, 1, 0);
    assert_eq!(1, x.dot(x));
    assert_eq!(0, x.dot(y));
    assert_eq!([14; 3], vec3(0, 4, 6).dot_into_vec3(vec3(3, 2, 1)).to_array());
    assert_eq!([14; 4], vec3(0, 4, 6).dot_into_vec4(vec3(3, 2, 1)).to_array());
}

#[test]
fn test_cross() {
    let x = Vec3::axis_x();
    let y = Vec3::axis_y();
    let z = Vec3::axis_z();
    assert_eq!(y.to_array(), z.cross(x).to_array());
    assert_eq!(z.to_array(), x.cross(y).to_array());
    assert_eq!(x.to_array(), y.cross(z).to_array());
}

#[test]
fn test_min_max() {
    let a = vec3(3, 5, 1);
    let b = vec3(4, 2, 6);
    assert_eq!((3, 2, 1), a.min(b).to_tuple());
    assert_eq!((3, 2, 1), b.min(a).to_tuple());
    assert_eq!((4, 5, 6), a.max(b).to_tuple());
    assert_eq!((4, 5, 6), b.max(a).to_tuple());
}

#[test]
fn test_clamp() {
    let min = vec3(1, 3, 3);
    let max = vec3(6, 8, 8);
    assert_eq!((1, 3, 3), vec3(0, 0, 0).clamp(min, max).to_tuple());
    assert_eq!((2, 3, 3), vec3(2, 2, 2).clamp(min, max).to_tuple());
    assert_eq!((4, 5, 5), vec3(4, 5, 5).clamp(min, max).to_tuple());
    assert_eq!((6, 6, 6), vec3(6, 6, 6).clamp(min, max).to_tuple());
    assert_eq!((6, 7, 7), vec3(7, 7, 7).clamp(min, max).to_tuple());
    assert_eq!((6, 8, 8), vec3(9, 9, 9).clamp(min, max).to_tuple());
}

#[test]
fn test_clamp_idempotent() {
    let min = vec3(1, 3, 3);
    let max = vec3(6, 8, 8);
    let once = vec3(9, -2, 5).clamp(min, max);
    let twice = once.clamp(min, max);
    assert_eq!(once.to_tuple(), twice.to_tuple());
}

#[test]
fn test_cross_antisymmetric() {
    let a = vec3(2, -3, 5);
    let b = vec3(7, 1, -4);
    let ab = a.cross(b);
    let ba = b.cross(a);
    assert_eq!(ab.x(), -ba.x());
    assert_eq!(ab.y(), -ba.y());
    assert_eq!(ab.z(), -ba.z());
}

#[test]
fn test_cross_orthogonal() {
    let a = vec3(2, -3, 5);
    let b = vec3(7, 1, -4);
    let c = a.cross(b);
    assert_eq!(0, c.dot(a));
    assert_eq!(0, c.dot(b));
}

#[test]
fn test_cross_backends_agree() {
    let a = vec3(2, -3, 5);
    let b = vec3(7, 1, -4);
    let r0 = a.cross(b).to_array();
    let r1 = a.cross_rotate_zxy(b).to_array();
    let r2 = a.cross_via_sign_flip(b).to_array();
    let r3 = a.cross_components(b).to_array();
    assert_eq!(r0, r1);
    assert_eq!(r0, r2);
    assert_eq!(r0, r3);
    assert_eq!([7, 43, 23], r0);
}

#[test]
fn test_dot_backends_agree() {
    let a = vec3(2, -3, 5);
    let b = vec3(7, 1, -4);
    assert_eq!(a.dot(b), a.dot_masked_after_multiply(b));
    assert_eq!(-9, a.dot(b));
}

#[test]
fn test_dot_symmetric() {
    let a = vec3(2, -3, 5);
    let b = vec3(7, 1, -4);
    assert_eq!(a.dot(b), b.dot(a));
}

#[test]
fn test_min_max_element() {
    let v = vec3(3, 4, 2);
    assert_eq!(2, v.min_element());
    assert_eq!(4, v.max_element());
    assert_eq!(2, v.min_element_pairwise());
    assert_eq!(4, v.max_element_pairwise());
}

#[test]
fn test_min_element_ignores_padding() {
    // A padding lane smaller than every logical lane, via a Vec4 reuse.
    let v = Vec3::from_vec4(Vec4::new(3, 4, 2, -100));
    assert_eq!(2, v.min_element());
    assert_eq!(4, v.max_element());
}

#[test]
fn test_min_max_ties() {
    let a = vec3(2, 2, 2);
    let b = vec3(2, 5, 1);
    assert_eq!((2, 2, 1), a.min(b).to_tuple());
    assert_eq!((2, 5, 2), a.max(b).to_tuple());
    assert_eq!(2, a.min_element());
    assert_eq!(2, a.max_element());
}

#[test]
fn test_abs() {
    let v = vec3(-3, 0, 7);
    assert_eq!((3, 0, 7), v.abs().to_tuple());
}

#[test]
fn test_extend_and_truncate() {
    let v = vec3(1, 2, 3);
    let e = v.extend(9);
    assert_eq!((1, 2, 3, 9), e.to_tuple());
    let t = Vec3::from_vec4(e);
    assert_eq!((1, 2, 3), t.to_tuple());
}

#[test]
fn test_slices() {
    let data = [5i64, 6, 7, 8];
    let v = Vec3::from_slice(&data);
    assert_eq!((5, 6, 7), v.to_tuple());
    let mut out = vec![0i64; 5];
    v.write_to_slice(&mut out);
    assert_eq!(vec![5, 6, 7, 0, 0], out);
}

#[test]
fn test_round_trips() {
    let v = vec3(4, -5, 6);
    assert_eq!(v.to_tuple(), Vec3::from_array(v.to_array()).to_tuple());
    assert_eq!(v.to_tuple(), Vec3::from_tuple(v.to_tuple()).to_tuple());
}
