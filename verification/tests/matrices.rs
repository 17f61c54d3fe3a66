use linalg::mat2::mat2;
use linalg::mat2::Mat2;
use linalg::mat3::mat3;
use linalg::mat3::Mat3;
use linalg::mat4::mat4;
use linalg::mat4::Mat4;
use linalg::vec2::vec2;
use linalg::vec3::vec3;
use linalg::vec4::vec4;

fn sample3() -> Mat3<i64> {
    mat3(vec3(2, -1, 0), vec3(1, 3, 4), vec3(0, 5, -2))
}

fn sample4() -> Mat4<i64> {
    mat4(vec4(1, 2, 0, -1), vec4(3, 0, 1, 2), vec4(-2, 1, 4, 0), vec4(0, -3, 2, 1))
}

#[test]
fn determinant_of_two_rows() {
    assert_eq!(mat2(vec2(1, 2), vec2(3, 4)).det(), 1 * 4 - 2 * 3);
    assert_eq!(mat2(vec2(1, 2), vec2(3, 4)).det(), -2);
}

#[test]
fn determinant_of_three_rows() {
    assert_eq!(sample3().det(), -54);
    assert_eq!(Mat3::<i32>::ident().det(), 1);
    assert_eq!(mat3(vec3(1, 2, 3), vec3(4, 5, 6), vec3(7, 8, 9)).det(), 0);
}

#[test]
fn determinant_of_four_rows() {
    assert_eq!(sample4().det(), 63);
    assert_eq!(Mat4::<i32>::ident().det(), 1);
    assert_eq!(mat4(vec4(2, 0, 0, 0), vec4(0, 3, 0, 0), vec4(0, 0, 4, 0), vec4(0, 0, 0, 5)).det(), 120);
    // two equal rows
    assert_eq!(mat4(vec4(1, 2, 3, 4), vec4(5, 6, 7, 8), vec4(1, 2, 3, 4), vec4(0, 1, 0, 1)).det(), 0);
}

#[test]
fn identity_and_default() {
    assert_eq!(Mat2::<i32>::ident(), mat2(vec2(1, 0), vec2(0, 1)));
    assert_eq!(Mat3::<i32>::default(), mat3(vec3(1, 0, 0), vec3(0, 1, 0), vec3(0, 0, 1)));
    assert_eq!(
        Mat4::<u8>::default(),
        mat4(vec4(1, 0, 0, 0), vec4(0, 1, 0, 0), vec4(0, 0, 1, 0), vec4(0, 0, 0, 1))
    );
    assert_eq!(Mat2::<i64>::default(), Mat2::<i64>::ident());
}

#[test]
fn transpose_swaps_rows_and_columns() {
    assert_eq!(mat2(vec2(1, 2), vec2(3, 4)).transpose(), mat2(vec2(1, 3), vec2(2, 4)));
    assert_eq!(sample3().transpose(), mat3(vec3(2, 1, 0), vec3(-1, 3, 5), vec3(0, 4, -2)));
    assert_eq!(sample4().transpose().transpose(), sample4());
    assert_eq!(sample4().transpose().x, vec4(1, 3, -2, 0));
}

#[test]
fn apply_to_is_row_by_vector() {
    assert_eq!(mat2(vec2(1, 2), vec2(3, 4)).apply_to(vec2(5, 6)), vec2(17, 39));
    assert_eq!(sample3().apply_to(vec3(1, 2, 3)), vec3(0, 19, 4));
    assert_eq!(sample4().apply_to(vec4(1, 1, 1, 1)), vec4(2, 6, 3, 0));
    assert_eq!(sample3() * vec3(1, 2, 3), vec3(0, 19, 4));
    assert_eq!(sample4() * vec4(1, 0, 0, 0), vec4(1, 3, -2, 0));
}

#[test]
fn product_is_rows_by_columns() {
    let a = mat2(vec2(1, 2), vec2(3, 4));
    let b = mat2(vec2(0, 1), vec2(1, 0));
    assert_eq!(a * b, mat2(vec2(2, 1), vec2(4, 3)));
    assert_eq!(b * a, mat2(vec2(3, 4), vec2(1, 2)));
    assert_eq!(sample3() * Mat3::ident(), sample3());
    assert_eq!(Mat4::ident() * sample4(), sample4());
}

#[test]
fn product_is_associative() {
    let a = sample3();
    let b = mat3(vec3(1, 0, 2), vec3(-1, 1, 0), vec3(3, 2, 1));
    let c = mat3(vec3(0, 1, 1), vec3(2, -2, 5), vec3(1, 0, -1));
    assert_eq!((a * b) * c, a * (b * c));
    let d = sample4();
    let e = sample4().transpose();
    let f = mat4(vec4(1, 1, 0, 0), vec4(0, 1, 1, 0), vec4(0, 0, 1, 1), vec4(1, 0, 0, 1));
    assert_eq!((d * e) * f, d * (e * f));
}

#[test]
fn cofactor_and_adjoint_of_three_rows() {
    let m = sample3();
    assert_eq!(m.cofactor(), mat3(vec3(-26, 2, 5), vec3(-2, -4, -10), vec3(-4, -8, 7)));
    assert_eq!(m.adjoint(), m.cofactor().transpose());
    let d = m.det();
    assert_eq!(m * m.adjoint(), mat3(vec3(d, 0, 0), vec3(0, d, 0), vec3(0, 0, d)));
}

#[test]
fn cofactor_and_adjoint_of_four_rows() {
    let m = sample4();
    let d = m.det();
    assert_eq!(m.adjoint(), m.cofactor().transpose());
    assert_eq!(
        m * m.adjoint(),
        mat4(vec4(d, 0, 0, 0), vec4(0, d, 0, 0), vec4(0, 0, d, 0), vec4(0, 0, 0, d))
    );
    assert_eq!(m.cofactor().x, vec4(27, -6, 15, -48));
}

#[test]
fn inverse_of_a_matrix_whose_determinant_divides() {
    let m = mat2(vec2(2, 1), vec2(1, 1));
    assert_eq!(m.inv(), mat2(vec2(1, -1), vec2(-1, 2)));
    assert_eq!(m * m.inv(), Mat2::ident());
    // not symmetric: the inverse, not its transpose
    let n = mat2(vec2(1, 2), vec2(0, 1));
    assert_eq!(n.inv(), mat2(vec2(1, -2), vec2(0, 1)));
    assert_eq!(n * n.inv(), Mat2::ident());
    let s = mat3(vec3(1, 2, 3), vec3(0, 1, 4), vec3(5, 6, 0));
    assert_eq!(s.det(), 1);
    assert_eq!(s.inv(), mat3(vec3(-24, 18, 5), vec3(20, -15, -4), vec3(-5, 4, 1)));
    assert_eq!(s * s.inv(), Mat3::ident());
    let t = mat4(vec4(1, 0, 0, 2), vec4(0, 1, 0, 0), vec4(3, 0, 1, 0), vec4(0, 0, 0, 1));
    assert_eq!(t.det(), 1);
    assert_eq!(t * t.inv(), Mat4::ident());
    assert_eq!(t.inv() * t, Mat4::ident());
}

#[test]
fn integer_inverse_rounds_where_the_determinant_does_not_divide() {
    let m = mat2(vec2(2, 0), vec2(0, 2));
    assert_eq!(m.inv(), mat2(vec2(0, 0), vec2(0, 0)));
}

#[test]
fn sums_differences_and_negation() {
    let a = mat2(vec2(1, 2), vec2(3, 4));
    let b = mat2(vec2(10, 20), vec2(30, 40));
    assert_eq!(a + b, mat2(vec2(11, 22), vec2(33, 44)));
    assert_eq!(b - a, mat2(vec2(9, 18), vec2(27, 36)));
    assert_eq!(-a, mat2(vec2(-1, -2), vec2(-3, -4)));
    let mut c = sample3();
    c += Mat3::ident();
    assert_eq!(c, mat3(vec3(3, -1, 0), vec3(1, 4, 4), vec3(0, 5, -1)));
    c -= Mat3::ident();
    assert_eq!(c, sample3());
    let mut d = sample4();
    d += sample4();
    assert_eq!(d.y, vec4(6, 0, 2, 4));
    d -= sample4();
    assert_eq!(d, sample4());
    assert_eq!((-sample4()).w, vec4(0, 3, -2, -1));
    assert_eq!((-sample3()).x, vec3(-2, 1, 0));
}

#[test]
fn extend_embeds_three_rows_in_four() {
    let m = sample3().extend(vec3(7, 8, 9), vec4(0, 0, 0, 1));
    assert_eq!(m, mat4(vec4(2, -1, 0, 7), vec4(1, 3, 4, 8), vec4(0, 5, -2, 9), vec4(0, 0, 0, 1)));
}

#[test]
fn rows_as_arrays_and_tuples() {
    assert_eq!(sample3().into_array(), [[2, -1, 0], [1, 3, 4], [0, 5, -2]]);
    assert_eq!(sample3().into_tuple(), ((2, -1, 0), (1, 3, 4), (0, 5, -2)));
    assert_eq!(sample4().into_array()[2], [-2, 1, 4, 0]);
    assert_eq!(sample4().into_tuple().3, (0, -3, 2, 1));
}

#[test]
fn try_inv_gives_nothing_for_a_determinant_of_zero() {
    assert_eq!(mat2(vec2(1, 2), vec2(2, 4)).try_inv(), None);
    assert_eq!(mat2(vec2(2, 1), vec2(1, 1)).try_inv(), Some(mat2(vec2(1, -1), vec2(-1, 2))));
    assert_eq!(mat3(vec3(1, 2, 3), vec3(4, 5, 6), vec3(7, 8, 9)).try_inv(), None);
    let s = mat3(vec3(1, 2, 3), vec3(0, 1, 4), vec3(5, 6, 0));
    assert_eq!(s.try_inv(), Some(s.inv()));
    assert_eq!(mat4(vec4(1, 2, 3, 4), vec4(5, 6, 7, 8), vec4(1, 2, 3, 4), vec4(0, 1, 0, 1)).try_inv(), None);
    let t = mat4(vec4(1, 0, 0, 2), vec4(0, 1, 0, 0), vec4(3, 0, 1, 0), vec4(0, 0, 0, 1));
    assert_eq!(t.try_inv(), Some(t.inv()));
    assert_eq!(
        t.inv(),
        mat4(vec4(1, 0, 0, -2), vec4(0, 1, 0, 0), vec4(-3, 0, 1, 6), vec4(0, 0, 0, 1))
    );
}
