use pix_engine::num::Number;
use pix_engine::shape::Point;
use pix_engine::vector::Vector;
use std::ops::{Deref, DerefMut};

#[test]
fn iter_ops() {
    let p = Point::new([1, 2, 3]);
    assert_eq!(p.deref(), &[1, 2, 3]);
    let mut p = Point::new([1, 2, 3]);
    assert_eq!(p.deref_mut(), &mut [1, 2, 3]);

    let p = Point::new([1, 2, 3]);
    assert_eq!(p[0], 1);
    assert_eq!(p[1], 2);
    assert_eq!(p[2], 3);
    assert_eq!(p.get(3), None);

    let p = Point::new([1, 2, 3]);
    for (i, v) in p.into_iter().enumerate() {
        assert_eq!(v, p[i]);
    }
    let i = IntoIterator::into_iter([1, 2, 3]);
    let p = Point::from_iter(i);
    assert_eq!(p, Point::new([1, 2, 3]));
}

fn point_from_array<T: Copy + PartialEq + std::fmt::Debug, const N: usize>(arr: [T; N]) {
    let t: Point<T, N> = arr.into();
    assert_eq!(t.deref(), &arr);
    let v: [T; N] = <Point<T, N>>::new(arr).into();
    assert_eq!(v, arr);
}

fn vector_from_array<T: Copy + PartialEq + std::fmt::Debug, const N: usize>(arr: [T; N]) {
    let t: Vector<T, N> = arr.into();
    assert_eq!(t.deref(), &arr);
    let v: [T; N] = <Vector<T, N>>::new(arr).into();
    assert_eq!(v, arr);
}

#[test]
fn from_array() {
    point_from_array([1i8]);
    point_from_array([1u8]);
    point_from_array([1i16]);
    point_from_array([1u16]);
    point_from_array([1i32]);
    point_from_array([1u32]);
    point_from_array([1i64]);
    point_from_array([1u64]);
    point_from_array([1i128]);
    point_from_array([1u128]);
    point_from_array([1i8, 2i8]);
    point_from_array([1u8, 2u8]);
    point_from_array([1i16, 2i16]);
    point_from_array([1u16, 2u16]);
    point_from_array([1i32, 2i32]);
    point_from_array([1u32, 2u32]);
    point_from_array([1i64, 2i64]);
    point_from_array([1u64, 2u64]);
    point_from_array([1i128, 2i128]);
    point_from_array([1u128, 2u128]);
    point_from_array([1i8, 2i8, 3i8]);
    point_from_array([1u8, 2u8, 3u8]);
    point_from_array([1i16, 2i16, 3i16]);
    point_from_array([1u16, 2u16, 3u16]);
    point_from_array([1i32, 2i32, 3i32]);
    point_from_array([1u32, 2u32, 3u32]);
    point_from_array([1i64, 2i64, 3i64]);
    point_from_array([1u64, 2u64, 3u64]);
    point_from_array([1i128, 2i128, 3i128]);
    point_from_array([1u128, 2u128, 3u128]);
    vector_from_array([1i8]);
    vector_from_array([1u8]);
    vector_from_array([1i16]);
    vector_from_array([1u16]);
    vector_from_array([1i32]);
    vector_from_array([1u32]);
    vector_from_array([1i64]);
    vector_from_array([1u64]);
    vector_from_array([1i128]);
    vector_from_array([1u128]);
    vector_from_array([1i8, 2i8]);
    vector_from_array([1u8, 2u8]);
    vector_from_array([1i16, 2i16]);
    vector_from_array([1u16, 2u16]);
    vector_from_array([1i32, 2i32]);
    vector_from_array([1u32, 2u32]);
    vector_from_array([1i64, 2i64]);
    vector_from_array([1u64, 2u64]);
    vector_from_array([1i128, 2i128]);
    vector_from_array([1u128, 2u128]);
    vector_from_array([1i8, 2i8, 3i8]);
    vector_from_array([1u8, 2u8, 3u8]);
    vector_from_array([1i16, 2i16, 3i16]);
    vector_from_array([1u16, 2u16, 3u16]);
    vector_from_array([1i32, 2i32, 3i32]);
    vector_from_array([1u32, 2u32, 3u32]);
    vector_from_array([1i64, 2i64, 3i64]);
    vector_from_array([1u64, 2u64, 3u64]);
    vector_from_array([1i128, 2i128, 3i128]);
    vector_from_array([1u128, 2u128, 3u128]);
}

fn larger<T: Number>(a: T, b: T) -> T {
    if a > b {
        a
    } else {
        b
    }
}

#[test]
fn numbers_of_every_kind_compare_and_compute() {
    assert_eq!(larger(3, 5), 5);
    assert_eq!(larger(2.5f64, 0.5f64), 2.5);
    assert_eq!(larger(7u8 % 4, 2u8), 3);
}

#[test]
fn collected_points_and_vectors_pad_with_zero() {
    let v: Vector<i32, 3> = vec![7].into_iter().collect();
    assert_eq!(v.values(), [7, 0, 0]);
    let p: Point<i32, 2> = vec![1, 2, 3].into_iter().collect();
    assert_eq!(p.values(), [1, 2]);
    let mut it = vec![4, 5].into_iter();
    assert_eq!(Vector::<i32, 3>::from_items(&mut it).values(), [4, 5, 0]);
}
