use cgmath::{Vector1, Vector2, Vector3, Vector4};
use cgmath_std140::AsStd140;
use std::mem::{align_of, align_of_val, size_of, size_of_val};

#[test]
fn scalars_fill_four_bytes_on_a_four_byte_boundary() {
    let i = Vector1::new(1i32).as_std140();
    let u = Vector1::new(1u32).as_std140();
    let b = Vector1::new(true).as_std140();
    assert_eq!((size_of_val(&i), align_of_val(&i)), (4, 4));
    assert_eq!((size_of_val(&u), align_of_val(&u)), (4, 4));
    assert_eq!((size_of_val(&b), align_of_val(&b)), (4, 4));
}

#[test]
fn two_components_fill_eight_bytes_on_an_eight_byte_boundary() {
    let i = Vector2::new(1i32, 2i32).as_std140();
    let u = Vector2::new(1u32, 2u32).as_std140();
    let b = Vector2::new(true, false).as_std140();
    assert_eq!((size_of_val(&i), align_of_val(&i)), (8, 8));
    assert_eq!((size_of_val(&u), align_of_val(&u)), (8, 8));
    assert_eq!((size_of_val(&b), align_of_val(&b)), (8, 8));
}

#[test]
fn three_components_fill_sixteen_bytes_on_a_sixteen_byte_boundary() {
    let i = Vector3::new(1i32, 2i32, 3i32).as_std140();
    let u = Vector3::new(1u32, 2u32, 3u32).as_std140();
    let b = Vector3::new(true, false, true).as_std140();
    assert_eq!((size_of_val(&i), align_of_val(&i)), (16, 16));
    assert_eq!((size_of_val(&u), align_of_val(&u)), (16, 16));
    assert_eq!((size_of_val(&b), align_of_val(&b)), (16, 16));
}

#[test]
fn four_components_fill_sixteen_bytes_on_a_sixteen_byte_boundary() {
    let i = Vector4::new(1i32, 2i32, 3i32, 4i32).as_std140();
    let u = Vector4::new(1u32, 2u32, 3u32, 4u32).as_std140();
    let b = Vector4::new(true, false, true, false).as_std140();
    assert_eq!((size_of_val(&i), align_of_val(&i)), (16, 16));
    assert_eq!((size_of_val(&u), align_of_val(&u)), (16, 16));
    assert_eq!((size_of_val(&b), align_of_val(&b)), (16, 16));
}

#[test]
fn three_components_take_the_room_of_four() {
    let three = Vector3::new(1i32, 2i32, 3i32).as_std140();
    let four = Vector4::new(1i32, 2i32, 3i32, 4i32).as_std140();
    assert_eq!(size_of_val(&three), size_of_val(&four));
    assert_eq!(align_of_val(&three), align_of_val(&four));
}

#[test]
fn float_types_are_laid_out_like_the_integer_ones() {
    assert_eq!((size_of::<std140::float>(), align_of::<std140::float>()), (4, 4));
    assert_eq!((size_of::<std140::vec2>(), align_of::<std140::vec2>()), (8, 8));
    assert_eq!((size_of::<std140::vec3>(), align_of::<std140::vec3>()), (16, 16));
    assert_eq!((size_of::<std140::vec4>(), align_of::<std140::vec4>()), (16, 16));
}

#[test]
fn matrix_columns_each_start_on_a_sixteen_byte_boundary() {
    assert_eq!((size_of::<std140::mat2x2>(), align_of::<std140::mat2x2>()), (32, 16));
    assert_eq!((size_of::<std140::mat3x3>(), align_of::<std140::mat3x3>()), (48, 16));
    assert_eq!((size_of::<std140::mat4x4>(), align_of::<std140::mat4x4>()), (64, 16));
}
