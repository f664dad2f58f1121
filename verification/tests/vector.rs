use pix_engine::vector::Vector;

#[test]
fn test_ops() {
    // Add
    let v1 = Vector::new([2.0, 5.0, 1.0]);
    let v2 = Vector::new([1.0, 5.0, -1.0]);
    let v3 = v1 + v2;
    assert!(v3.approx_eq([3.0, 10.0, 0.0], 1e-4));

    // AddAssign
    let mut v1 = Vector::new([2.0, 5.0, 1.0]);
    let v2 = Vector::new([1.0, 5.0, -1.0]);
    v1 += v2;
    assert!(v1.approx_eq([3.0, 10.0, 0.0], 1e-4));

    // Sub
    let v1 = Vector::new([2.0, 1.0, 2.0]);
    let v2 = Vector::new([1.0, 5.0, 3.0]);
    let v3 = v1 - v2;
    assert!(v3.approx_eq([1.0, -4.0, -1.0], 1e-4));

    // SubAssign
    let mut v1 = Vector::new([2.0, 1.0, 2.0]);
    let v2 = Vector::new([1.0, 5.0, 3.0]);
    v1 -= v2;
    assert!(v1.approx_eq([1.0, -4.0, -1.0], 1e-4));

    // f32
    let v = Vector::new([2.0f32, -5.0, 0.0]) * 2.0f32;
    assert!(v.approx_eq([4.0, -10.0, 0.0], f32::EPSILON));
    let mut v = Vector::new([2.0f32, -5.0, 0.0]);
    v *= 2.0f32;
    assert!(v.approx_eq([4.0, -10.0, 0.0], f32::EPSILON));
    let v = Vector::new([1.0f32, -5.0, 0.0]) / 2.0f32;
    assert!(v.approx_eq([0.5, -2.5, 0.0], f32::EPSILON));
    let mut v = Vector::new([2.0f32, -5.0, 0.0]);
    v /= 2.0f32;
    assert!(v.approx_eq([1.0, -2.5, 0.0], f32::EPSILON));

    // f64
    let v = Vector::new([2.0f64, -5.0, 0.0]) * 2.0f64;
    assert!(v.approx_eq([4.0, -10.0, 0.0], f64::EPSILON));
    let mut v = Vector::new([2.0f64, -5.0, 0.0]);
    v *= 2.0f64;
    assert!(v.approx_eq([4.0, -10.0, 0.0], f64::EPSILON));
    let v = Vector::new([1.0f64, -5.0, 0.0]) / 2.0f64;
    assert!(v.approx_eq([0.5, -2.5, 0.0], f64::EPSILON));
    let mut v = Vector::new([2.0f64, -5.0, 0.0]);
    v /= 2.0f64;
    assert!(v.approx_eq([1.0, -2.5, 0.0], f64::EPSILON));
}

#[test]
fn test_slice_conversions() {
    let _: Vector<u8, 1> = [50u8].into();
    let _: Vector<i8, 1> = [50i8].into();
    let _: Vector<u16, 1> = [50u16].into();
    let _: Vector<i16, 1> = [50i16].into();
    let _: Vector<u32, 1> = [50u32].into();
    let _: Vector<i32, 1> = [50i32].into();
    let _: Vector<f32, 1> = [50.0f32].into();
    let _: Vector<f64, 1> = [50.0f64].into();

    let _: Vector<u8, 2> = [50u8, 100].into();
    let _: Vector<i8, 2> = [50i8, 100].into();
    let _: Vector<u16, 2> = [50u16, 100].into();
    let _: Vector<i16, 2> = [50i16, 100].into();
    let _: Vector<u32, 2> = [50u32, 100].into();
    let _: Vector<i32, 2> = [50i32, 100].into();
    let _: Vector<f32, 2> = [50.0f32, 100.0].into();
    let _: Vector<f64, 2> = [50.0f64, 100.0].into();

    let _: Vector<u8, 3> = [50u8, 100, 55].into();
    let _: Vector<i8, 3> = [50i8, 100, 55].into();
    let _: Vector<u16, 3> = [50u16, 100, 55].into();
    let _: Vector<i16, 3> = [50i16, 100, 55].into();
    let _: Vector<u32, 3> = [50u32, 100, 55].into();
    let _: Vector<i32, 3> = [50i32, 100, 55].into();
    let _: Vector<f32, 3> = [50.0f32, 100.0, 55.0].into();
    let _: Vector<f64, 3> = [50.0f64, 100.0, 55.0].into();
}

#[test]
fn test_member_methods() {
    let epsilon = f64::EPSILON;
    let arr: [f64; 0] = [];
    let mut v: Vector<f64, 0> = arr.into();
    assert!(v.x() < epsilon);
    assert!(v.y() < epsilon);
    assert!(v.z() < epsilon);
    v.set_x(1.0);
    v.set_y(1.0);
    v.set_z(1.0);
    assert!(v.x() < epsilon);
    assert!(v.y() < epsilon);
    assert!(v.z() < epsilon);

    let mut v: Vector<f64, 1> = [1.0].into();
    assert!((v.x() - 1.0).abs() < epsilon);
    assert!(v.y() < epsilon);
    assert!(v.z() < epsilon);
    v.set_x(2.0);
    v.set_y(1.0);
    v.set_z(1.0);
    assert!((v.x() - 2.0).abs() < epsilon);
    assert!(v.y() < epsilon);
    assert!(v.z() < epsilon);

    let mut v: Vector<f64, 2> = [1.0, 2.0].into();
    assert!((v.x() - 1.0).abs() < epsilon);
    assert!((v.y() - 2.0).abs() < epsilon);
    assert!(v.z() < epsilon);
    v.set_x(2.0);
    v.set_y(4.0);
    v.set_z(1.0);
    assert!((v.x() - 2.0).abs() < epsilon);
    assert!((v.y() - 4.0).abs() < epsilon);
    assert!(v.z() < epsilon);

    let mut v: Vector<f64, 3> = [1.0, 2.0, 3.0].into();
    assert!((v.x() - 1.0).abs() < epsilon);
    assert!((v.y() - 2.0).abs() < epsilon);
    assert!((v.z() - 3.0).abs() < epsilon);
    v.set_x(2.0);
    v.set_y(4.0);
    v.set_z(6.0);
    assert!((v.x() - 2.0).abs() < epsilon);
    assert!((v.y() - 4.0).abs() < epsilon);
    assert!((v.z() - 6.0).abs() < epsilon);
}

#[test]
fn test_deref() {
    let v = Vector::new([1.0, 2.0, 3.0]);
    let mut iter = v.into_iter();
    assert_eq!(iter.next(), Some(1.0));
    assert_eq!(iter.next(), Some(2.0));
    assert_eq!(iter.next(), Some(3.0));
    assert_eq!(iter.next(), None);
}

#[test]
fn integer_vectors_add_and_subtract_exactly() {
    let a = Vector::new([1, -2, 3]);
    let b = Vector::new([10, 20, 30]);
    assert_eq!((a + b).values(), [11, 18, 33]);
    assert_eq!((a + b - b).values(), a.values());
    assert_eq!((-a).values(), [-1, 2, -3]);
    assert_eq!(a.dot(b), 10 - 40 + 90);
    assert_eq!(a.cross(b).values(), [-2 * 30 - 3 * 20, 3 * 10 - 30, 20 + 20]);
    assert_eq!((b / 10).values(), [1, 2, 3]);
}
