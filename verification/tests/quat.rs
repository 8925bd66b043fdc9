use phys_rs::math::quat::{quat, Quat};
use phys_rs::math::vec4::Vec4;

#[test]
fn quat_test_new() {
    let v0 = Quat::from_xyzw(1, 2, 3, 4);
    assert_eq!((1, 2, 3, 4), v0.to_tuple());
    let v1 = Quat::from_tuple((1, 2, 3, 4));
    assert_eq!((1, 2, 3, 4), v1.to_tuple());
    let v2 = Quat::from_array([1, 2, 3, 4]);
    assert_eq!((1, 2, 3, 4), v2.to_tuple());
}

#[test]
fn quat_test_const() {
    let v1 = quat(1, 2, 3, 4);
    assert_eq!((1, 2, 3, 4), v1.to_tuple());
}

#[test]
fn quat_test_consts() {
    assert_eq!([0; 4], Quat::zero().to_array());
    assert_eq!((0, 0, 0, 1), Quat::identity().to_tuple());
}

#[test]
fn quat_test_fmt() {
    let v0 = quat(1, 2, 3, 4);
    assert_eq!(v0.display(), "[1, 2, 3, 4]");
}

#[test]
fn quat_test_accessors() {
    let mut a = Quat::zero();
    a.set_index(0, 1);
    a.set_index(1, 2);
    a.set_index(2, 3);
    a.set_index(3, 4);
    assert_eq!(1, a.x());
    assert_eq!(2, a.y());
    assert_eq!(3, a.z());
    assert_eq!(4, a.w());
    assert_eq!(1, a.index(0));
    assert_eq!(2, a.index(1));
    assert_eq!(3, a.index(2));
    assert_eq!(4, a.index(3));
    assert_eq!((1, 2, 3, 4), a.to_tuple());
}

#[test]
fn quat_test_invalid_accessors() {
    assert_eq!(None, Quat::zero().lane(4));
}

#[test]
fn quat_test_from_vec4() {
    let q = Quat::from_vec4(Vec4::new(9, 8, 7, 6));
    assert_eq!((9, 8, 7, 6), q.to_tuple());
}
