use phys_rs::math::vec4::{vec4, Vec4};

#[test]
fn vec4_test_new() {
    let v0 = Vec4::new(1, 2, 3, 4);
    assert_eq!((1, 2, 3, 4), v0.to_tuple());
    let v1 = Vec4::from_tuple((1, 2, 3, 4));
    assert_eq!((1, 2, 3, 4), v1.to_tuple());
    let v2 = Vec4::from_array([1, 2, 3, 4]);
    assert_eq!((1, 2, 3, 4), v2.to_tuple());
}

#[test]
fn vec4_test_splat() {
    let v0 = Vec4::splat(1);
    assert_eq!([1; 4], v0.to_array());
}

#[test]
fn vec4_test_consts() {
    assert_eq!([0; 4], Vec4::zero().to_array());
    assert_eq!([1; 4], Vec4::one().to_array());
    assert_eq!([-1; 4], Vec4::neg_one().to_array());
    assert_eq!((1, 0, 0, 0), Vec4::axis_x().to_tuple());
    assert_eq!((0, 1, 0, 0), Vec4::axis_y().to_tuple());
    assert_eq!((0, 0, 1, 0), Vec4::axis_z().to_tuple());
    assert_eq!((0, 0, 0, 1), Vec4::axis_w().to_tuple());
}

#[test]
fn vec4_test_fmt() {
    let v0 = vec4(1, 2, 3, 4);
    assert_eq!(v0.display(), "[1, 2, 3, 4]");
}

#[test]
fn vec4_test_accessors() {
    let mut a = Vec4::zero();
    a.set_index(0, 1);
    a.set_index(1, 2);
    a.set_index(2, 3);
    a.set_index(3, 4);
    assert_eq!(1, a.x());
    assert_eq!(2, a.y());
    assert_eq!(3, a.z());
    assert_eq!(4, a.w());
    assert_eq!((1, 2, 3, 4), a.to_tuple());
    assert_eq!(4, a.index(3));
}

#[test]
fn vec4_test_invalid_accessors() {
    assert_eq!(None, Vec4::zero().lane(4));
}

#[test]
fn vec4_test_dot() {
    let a = vec4(1, 2, 3, 4);
    let b = vec4(5, 6, 7, 8);
    assert_eq!(70, a.dot(b));
    assert_eq!(70, a.dot_via_shuffles(b));
    assert_eq!(70, a.dot_sequential(b));
    assert_eq!(70, b.dot(a));
    assert_eq!([70; 4], a.dot_into_vec4(b).to_array());
    assert_eq!([70; 3], a.dot_into_vec3(b).to_array());
}

#[test]
fn vec4_test_min_max() {
    let a = vec4(3, 5, 1, 8);
    let b = vec4(4, 2, 6, 7);
    assert_eq!((3, 2, 1, 7), a.min(b).to_tuple());
    assert_eq!((3, 2, 1, 7), b.min(a).to_tuple());
    assert_eq!((4, 5, 6, 8), a.max(b).to_tuple());
    assert_eq!((4, 5, 6, 8), b.max(a).to_tuple());
}

#[test]
fn vec4_test_clamp() {
    let lo = vec4(1, 3, 3, 0);
    let hi = vec4(6, 8, 8, 2);
    assert_eq!((6, 8, 8, 2), vec4(9, 9, 9, 9).clamp(lo, hi).to_tuple());
    let once = vec4(9, -1, 5, 1).clamp(lo, hi);
    let twice = once.clamp(lo, hi);
    assert_eq!(once.to_tuple(), twice.to_tuple());
}

#[test]
fn vec4_test_min_max_element() {
    let v = vec4(3, 4, 2, 1);
    assert_eq!(1, v.min_element());
    assert_eq!(4, v.max_element());
    assert_eq!(1, v.min_element_pairwise());
    assert_eq!(4, v.max_element_pairwise());
}

#[test]
fn vec4_test_arithmetic() {
    let a = vec4(1, 2, 3, 4);
    let b = vec4(10, 20, 30, 40);
    assert_eq!((11, 22, 33, 44), a.add(b).to_tuple());
    assert_eq!((9, 18, 27, 36), b.sub(a).to_tuple());
    assert_eq!((10, 40, 90, 160), a.mul(b).to_tuple());
    assert_eq!((2, 3, 4, 5), a.add_scalar(1).to_tuple());
    assert_eq!((0, 1, 2, 3), a.sub_scalar(1).to_tuple());
    assert_eq!((3, 6, 9, 12), a.mul_scalar(3).to_tuple());
}

#[test]
fn vec4_test_assign_ops() {
    let mut a = vec4(1, 2, 3, 4);
    a.add_assign(vec4(1, 1, 1, 1));
    assert_eq!((2, 3, 4, 5), a.to_tuple());
    a.sub_assign(vec4(2, 2, 2, 2));
    assert_eq!((0, 1, 2, 3), a.to_tuple());
    a.mul_assign(vec4(5, 5, 5, 5));
    assert_eq!((0, 5, 10, 15), a.to_tuple());
}

#[test]
fn vec4_test_slices() {
    let data = [5i64, 6, 7, 8, 9];
    let v = Vec4::from_slice(&data);
    assert_eq!((5, 6, 7, 8), v.to_tuple());
    let mut out = vec![0i64; 6];
    v.write_to_slice(&mut out);
    assert_eq!(vec![5, 6, 7, 8, 0, 0], out);
}

#[test]
fn vec4_test_default() {
    assert_eq!([0; 4], Vec4::default().to_array());
}

#[test]
fn vec4_test_round_trips() {
    let v = vec4(4, -5, 6, -7);
    assert_eq!(v.to_tuple(), Vec4::from_array(v.to_array()).to_tuple());
    assert_eq!(v.to_tuple(), Vec4::from_tuple(v.to_tuple()).to_tuple());
}
