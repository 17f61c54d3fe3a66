use linalg::convert::CastTo;
use linalg::mat2::mat2;
use linalg::quaternion::quaternion;
use linalg::traits::Abs;
use linalg::traits::Distance;
use linalg::traits::Dot;
use linalg::traits::Half;
use linalg::traits::IsNan;
use linalg::traits::One;
use linalg::traits::Two;
use linalg::traits::Zero;
use linalg::vec2::vec2;
use linalg::vec2::Vec2;
use linalg::vec3::cross;
use linalg::vec3::vec3;
use linalg::vec3::Vec3;
use linalg::vec4::vec4;
use linalg::vec4::Vec4;
use linalg::vector::distance_squared;
use linalg::vector::dot;
use linalg::vector::orthog_dist;
use linalg::vector::VecOps;

#[test]
fn constructors_fill_the_fields_in_order() {
    let v = vec4(1, 2, 3, 4);
    assert_eq!(v, Vec4 { x: 1, y: 2, z: 3, w: 4 });
    assert_eq!(vec3(1u8, 2, 3), Vec3 { x: 1, y: 2, z: 3 });
    assert_eq!(vec2(-1i64, 5), Vec2 { x: -1, y: 5 });
}

#[test]
fn conversions_from_and_into_tuples_and_arrays() {
    assert_eq!(Vec2::from((1, 2)), vec2(1, 2));
    assert_eq!(Vec3::from([1, 2, 3]), vec3(1, 2, 3));
    assert_eq!(Vec4::from((1, 2, 3, 4)), vec4(1, 2, 3, 4));
    assert_eq!(Vec4::from([4, 3, 2, 1]), vec4(4, 3, 2, 1));
    assert_eq!(vec3(7, 8, 9).into_array(), [7, 8, 9]);
    assert_eq!(vec4(7, 8, 9, 10).into_tuple(), (7, 8, 9, 10));
    assert_eq!(vec2(5, 6).into_tuple(), (5, 6));
    let t: (i32, i32, i32, i32) = vec4(1, 2, 3, 4).into();
    assert_eq!(t, (1, 2, 3, 4));
    let a: [i32; 4] = vec4(1, 2, 3, 4).into();
    assert_eq!(a, [1, 2, 3, 4]);
}

#[test]
fn extend_and_downsize_change_the_arity() {
    assert_eq!(vec2(1, 2).extend(3), vec3(1, 2, 3));
    assert_eq!(vec3(1, 2, 3).extend(4), vec4(1, 2, 3, 4));
    assert_eq!(vec3(1, 2, 3).downsize(), vec2(1, 2));
    assert_eq!(vec4(1, 2, 3, 4).downsize(), vec3(1, 2, 3));
}

#[test]
fn dot_is_the_sum_of_products() {
    assert_eq!(dot(vec2(1, 2), vec2(3, 4)), 11);
    assert_eq!(dot(vec3(1, 2, 3), vec3(4, -5, 6)), 12);
    assert_eq!(dot(vec4(1, 2, 3, 4), vec4(5, 6, 7, 8)), 70);
    assert_eq!(vec3(1, 2, 3).dot(vec3(1, 2, 3)), 14);
    assert_eq!(Dot::dot(&vec4(1, 2, 3, 4), &vec4(1, 1, 1, 1)), 10);
    assert_eq!(Dot::distance_squared(&vec2(1, 1), &vec2(4, 5)), 25);
}

#[test]
fn cross_of_a_vector_with_itself_is_zero() {
    let v = vec3(3i32, -4, 5);
    assert_eq!(cross(v, v), Vec3::<i32>::zero());
    let u = vec3(7u8, 9, 11);
    assert_eq!(cross(u, u), vec3(0, 0, 0));
}

#[test]
fn cross_of_the_axes() {
    let x = vec3(1, 0, 0);
    let y = vec3(0, 1, 0);
    let z = vec3(0, 0, 1);
    assert_eq!(cross(x, y), z);
    assert_eq!(cross(y, z), x);
    assert_eq!(cross(z, x), y);
    assert_eq!(cross(y, x), vec3(0, 0, -1));
    assert_eq!(cross(vec3(1, 2, 3), vec3(4, 5, 6)), vec3(-3, 6, -3));
}

#[test]
fn distances() {
    assert_eq!(distance_squared(vec2(1, 1), vec2(4, 5)), 25);
    assert_eq!(orthog_dist(vec2(1, 1), vec2(4, -5)), 9);
    assert_eq!(vec3(1, 2, 3).distance_squared(vec3(1, 2, 3)), 0);
    assert_eq!(vec3(0, 0, 0).orthog_dist(vec3(-1, 2, -3)), 6);
}

#[test]
fn sums_and_products_of_components() {
    assert_eq!(vec3(1, 2, 3).sum_elem(), 6);
    assert_eq!(vec4(1, 2, 3, 4).sum_elem(), 10);
    assert_eq!(vec4(1, 2, 3, 4).mul_elem(), 24);
    assert_eq!(vec2(5, 7).mul_elem(), 35);
}

#[test]
fn operators_work_component_by_component() {
    let a = vec3(10, 20, 30);
    let b = vec3(1, 2, 3);
    assert_eq!(a + b, vec3(11, 22, 33));
    assert_eq!(a - b, vec3(9, 18, 27));
    assert_eq!(a * b, vec3(10, 40, 90));
    assert_eq!(a / b, vec3(10, 10, 10));
    assert_eq!(a % vec3(3, 7, 4), vec3(1, 6, 2));
    assert_eq!(-b, vec3(-1, -2, -3));
}

#[test]
fn operators_take_a_scalar_for_every_component() {
    let a = vec4(10, 20, 30, 40);
    assert_eq!(a + 1, vec4(11, 21, 31, 41));
    assert_eq!(a - 1, vec4(9, 19, 29, 39));
    assert_eq!(a * 2, vec4(20, 40, 60, 80));
    assert_eq!(a / 10, vec4(1, 2, 3, 4));
    assert_eq!(a % 7, vec4(3, 6, 2, 5));
}

#[test]
fn assigning_operators_change_in_place() {
    let mut a = vec2(10, 20);
    a += vec2(1, 2);
    assert_eq!(a, vec2(11, 22));
    a -= vec2(1, 1);
    assert_eq!(a, vec2(10, 21));
    a *= vec2(2, 3);
    assert_eq!(a, vec2(20, 63));
    a /= vec2(4, 9);
    assert_eq!(a, vec2(5, 7));
    a %= vec2(3, 4);
    assert_eq!(a, vec2(2, 3));
    a += 5;
    assert_eq!(a, vec2(7, 8));
    a -= 1;
    assert_eq!(a, vec2(6, 7));
    a *= 3;
    assert_eq!(a, vec2(18, 21));
    a /= 2;
    assert_eq!(a, vec2(9, 10));
    a %= 4;
    assert_eq!(a, vec2(1, 2));
}

#[test]
fn integer_division_truncates_toward_zero() {
    assert_eq!(vec2(-7, 7) / 2, vec2(-3, 3));
    assert_eq!(vec2(-7, 7) % 2, vec2(-1, 1));
}

#[test]
fn abs_wraps_at_the_least_value() {
    assert_eq!(Abs::abs(-5i32), 5);
    assert_eq!(Abs::abs(i8::MIN), i8::MIN);
    assert_eq!(Abs::abs(7u16), 7);
    assert_eq!(Abs::abs(vec2(-1i8, i8::MIN)), vec2(1, i8::MIN));
    assert_eq!(vec3(-1i64, 2, -3).wrapping_abs(), vec3(1, 2, 3));
}

#[test]
fn constants_of_the_integers_and_of_masks() {
    assert_eq!(<i32 as Zero>::zero(), 0);
    assert_eq!(<u8 as One>::one(), 1);
    assert_eq!(<isize as Two>::two(), 2);
    assert_eq!(<bool as Zero>::zero(), false);
    assert_eq!(<bool as One>::one(), true);
    assert_eq!(Vec3::<i32>::ident(), vec3(1, 0, 0));
    assert_eq!(Vec4::<u8>::one(), vec4(1, 1, 1, 1));
    assert_eq!(Vec2::<i16>::zero(), vec2(0, 0));
    assert_eq!(Vec2::<i32>::default(), vec2(0, 0));
}

#[test]
fn every_integer_is_a_number() {
    assert!(!IsNan::is_nan(&5i32));
    assert_eq!(3i32.non_nan_max(7), 7);
    assert_eq!(3i32.non_nan_min(7), 3);
    assert_eq!(9u8.non_nan_max(2), 9);
    assert_eq!(vec3(1, 2, 3).is_nan(), vec3(false, false, false));
}

#[test]
fn min_max_and_clamp() {
    let a = vec3(1, 9, 5);
    let b = vec3(4, 2, 5);
    assert_eq!(a.min(b), vec3(1, 2, 5));
    assert_eq!(a.max(b), vec3(4, 9, 5));
    assert_eq!(vec3(-5, 5, 50).clamp(vec3(0, 0, 0), vec3(10, 10, 10)), vec3(0, 5, 10));
    assert_eq!(vec4(4, 8, 1, 6).min_elem(), 1);
    assert_eq!(vec4(4, 8, 1, 6).max_elem(), 8);
    // where the bounds cross, the lower bound wins
    assert_eq!(vec2(5, 5).clamp(vec2(8, 8), vec2(2, 2)), vec2(8, 8));
}

#[test]
fn masks_reduce_with_or_and_and() {
    assert!(vec3(false, true, false).or());
    assert!(!vec3(false, false, false).or());
    assert!(vec2(true, true).and());
    assert!(!vec4(true, true, false, true).and());
    assert!(vec4(false, false, false, true).or());
}

#[test]
fn signs_of_the_components() {
    assert_eq!(vec3(-7i32, 0, 9).signum(), vec3(-1, 0, 1));
    assert_eq!(vec2(i8::MIN, 5).wrapping_neg(), vec2(i8::MIN, -5));
    assert_eq!(vec4(-1i16, 0, 1, 2).is_positive(), vec4(false, false, true, true));
    assert_eq!(vec4(-1i64, 0, 1, 2).is_negative(), vec4(true, false, false, false));
}

#[test]
fn sum_and_product_of_a_sequence() {
    let items = [vec2(1, 2), vec2(3, 4), vec2(5, 6)];
    assert_eq!(Vec2::sum(&items), vec2(9, 12));
    assert_eq!(Vec2::product(&items), vec2(15, 48));
    let none: [Vec3<i32>; 0] = [];
    assert_eq!(Vec3::sum(&none), vec3(0, 0, 0));
    assert_eq!(Vec3::product(&none), vec3(1, 1, 1));
}

#[test]
fn indexing_by_position() {
    let mut v = vec4(10, 20, 30, 40);
    assert_eq!(v[0], 10);
    assert_eq!(v[3], 40);
    v[2] = 7;
    assert_eq!(v, vec4(10, 20, 7, 40));
    let mut u = vec2(1, 2);
    u[1] += 5;
    assert_eq!(u, vec2(1, 7));
}

#[test]
fn conversions_keep_what_fits_and_truncate_what_does_not() {
    assert_eq!(vec3(1i32, 2, 3).u8(), vec3(1u8, 2, 3));
    assert_eq!(vec2(300i32, -1).u8(), vec2(44u8, 255));
    assert_eq!(vec2(255u8, 128).i8(), vec2(-1i8, -128));
    assert_eq!(vec4(-1i8, 0, 1, 127).i64(), vec4(-1i64, 0, 1, 127));
    assert_eq!(vec2(u64::MAX, 1).u32(), vec2(u32::MAX, 1));
    assert_eq!(vec2(-1i16, 5).usize(), vec2(usize::MAX, 5));
    assert_eq!(vec3(true, false, true).u16(), vec3(1u16, 0, 1));
    assert_eq!(vec3(true, false, true).isize(), vec3(1isize, 0, 1));
    assert_eq!(vec2(7u8, 9).u8(), vec2(7u8, 9));
    assert_eq!(mat2(vec2(1i64, -2), vec2(3, 256)).u8(), mat2(vec2(1u8, 254), vec2(3, 0)));
    assert_eq!(quaternion(1u32, 2, 3, 4).i16(), quaternion(1i16, 2, 3, 4));
    assert_eq!(vec2(1u8, 2).convert::<i32>(), vec2(1i32, 2));
    assert_eq!(CastTo::<u8>::cast_to(513u16), 1u8);
    assert_eq!(CastTo::<i32>::cast_to(u32::MAX), -1i32);
}

#[test]
fn half_of_an_integer_rounds_toward_zero() {
    assert_eq!(7u8.half(), 3);
    assert_eq!(8u64.half(), 4);
    assert_eq!(7i32.half(), 3);
    assert_eq!((-7i32).half(), -3);
    assert_eq!(i8::MIN.half(), -64);
    assert_eq!(0isize.half(), 0);
    assert_eq!((-1i64).half(), 0);
}
