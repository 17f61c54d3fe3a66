use linalg::mat2::mat2;
use linalg::mat2::Mat2;
use linalg::mat3::mat3;
use linalg::mat3::Mat3;
use linalg::mat4::mat4;
use linalg::mat4::Mat4;
use linalg::quaternion::quaternion;
use linalg::quaternion::Quaternion;
use linalg::render::finish;
use linalg::render::notation;
use linalg::render::Notation;
use linalg::traits::Abs;
use linalg::traits::Distance;
use linalg::traits::IsNan;
use linalg::traits::NiceFmt;
use linalg::traits::One;
use linalg::traits::Sqrt;
use linalg::traits::Trig;
use linalg::traits::Two;
use linalg::traits::Zero;
use linalg::vec2::vec2;
use linalg::vec2::Vec2;
use linalg::vec3::cross;
use linalg::vec3::vec3;
use linalg::vec3::Vec3;
use linalg::vec4::vec4;
use linalg::vec4::Vec4;
use linalg::vector::angle_between;
use linalg::vector::distance;
use linalg::vector::dot;
use linalg::vector::normalize;
use std::ops::Add;
use std::ops::Div;
use std::ops::Mul;
use std::ops::Neg;
use std::ops::Rem;
use std::ops::Sub;

/// A floating-point scalar for the tests: the library's capabilities on `f64`.
#[derive(Debug, Clone, Copy, PartialEq, PartialOrd)]
struct Real(f64);

impl Add for Real {
    type Output = Real;
    fn add(self, o: Real) -> Real {
        Real(self.0 + o.0)
    }
}

impl Sub for Real {
    type Output = Real;
    fn sub(self, o: Real) -> Real {
        Real(self.0 - o.0)
    }
}

impl Mul for Real {
    type Output = Real;
    fn mul(self, o: Real) -> Real {
        Real(self.0 * o.0)
    }
}

impl Div for Real {
    type Output = Real;
    fn div(self, o: Real) -> Real {
        Real(self.0 / o.0)
    }
}

impl Rem for Real {
    type Output = Real;
    fn rem(self, o: Real) -> Real {
        Real(self.0 % o.0)
    }
}

impl Neg for Real {
    type Output = Real;
    fn neg(self) -> Real {
        Real(-self.0)
    }
}

impl Zero for Real {
    fn zero() -> Real {
        Real(0.0)
    }
}

impl One for Real {
    fn one() -> Real {
        Real(1.0)
    }
}

impl Two for Real {
    fn two() -> Real {
        Real(2.0)
    }
}

impl Abs for Real {
    fn abs(self) -> Real {
        Real(self.0.abs())
    }
}

impl Sqrt<Real> for Real {
    fn sqrt(self) -> Real {
        Real(self.0.sqrt())
    }
}

impl Trig for Real {
    fn sin(self) -> Real {
        Real(self.0.sin())
    }
    fn cos(self) -> Real {
        Real(self.0.cos())
    }
    fn tan(self) -> Real {
        Real(self.0.tan())
    }
    fn asin(self) -> Real {
        Real(self.0.asin())
    }
    fn acos(self) -> Real {
        Real(self.0.acos())
    }
    fn atan(self) -> Real {
        Real(self.0.atan())
    }
    fn atan2(self, other: Real) -> Real {
        Real(self.0.atan2(other.0))
    }
    fn sin_cos(self) -> (Real, Real) {
        let (s, c) = self.0.sin_cos();
        (Real(s), Real(c))
    }
    fn sinh(self) -> Real {
        Real(self.0.sinh())
    }
    fn cosh(self) -> Real {
        Real(self.0.cosh())
    }
    fn tanh(self) -> Real {
        Real(self.0.tanh())
    }
    fn asinh(self) -> Real {
        Real(self.0.asinh())
    }
    fn acosh(self) -> Real {
        Real(self.0.acosh())
    }
    fn atanh(self) -> Real {
        Real(self.0.atanh())
    }
}

impl IsNan for Real {
    fn is_nan(&self) -> bool {
        self.0.is_nan()
    }
    fn non_nan_max(self, other: Real) -> Real {
        Real(self.0.max(other.0))
    }
    fn non_nan_min(self, other: Real) -> Real {
        Real(self.0.min(other.0))
    }
}

fn power_of_ten(x: f64) -> Option<i32> {
    if x == 0.0 || !x.is_finite() {
        None
    } else {
        Some(x.abs().log10().floor() as i32)
    }
}

fn nice(x: f64, limit: usize, pad: bool) -> String {
    let plain = format!("{}", x);
    let n = notation(plain.chars().count(), x.is_sign_negative(), power_of_ten(x), limit);
    let text = match n {
        Notation::Plain => plain,
        Notation::Rounded => format!("{}", x.round()),
        Notation::Fixed(d) => format!("{:.*}", d, x),
        Notation::Scientific(d) => format!("{:.*e}", d, x),
    };
    finish(&text, n, limit, pad)
}

impl NiceFmt for Real {
    fn nice_fmt(&self, limit: usize, pad: bool) -> String {
        nice(self.0, limit, pad)
    }
}

fn r(x: f64) -> Real {
    Real(x)
}

fn close(a: Real, b: f64) -> bool {
    (a.0 - b).abs() < 1e-9
}

fn close2(a: Vec2<Real>, x: f64, y: f64) -> bool {
    close(a.x, x) && close(a.y, y)
}

fn close3(a: Vec3<Real>, x: f64, y: f64, z: f64) -> bool {
    close(a.x, x) && close(a.y, y) && close(a.z, z)
}

fn close4(a: Vec4<Real>, x: f64, y: f64, z: f64, w: f64) -> bool {
    close(a.x, x) && close(a.y, y) && close(a.z, z) && close(a.w, w)
}

fn v3(x: f64, y: f64, z: f64) -> Vec3<Real> {
    vec3(r(x), r(y), r(z))
}

fn v4(x: f64, y: f64, z: f64, w: f64) -> Vec4<Real> {
    vec4(r(x), r(y), r(z), r(w))
}

#[test]
fn matrix_times_inverse_is_identity_two_rows() {
    let m = mat2(vec2(r(4.0), r(7.0)), vec2(r(2.0), r(6.0)));
    let p = m * m.inv();
    assert!(close2(p.x, 1.0, 0.0));
    assert!(close2(p.y, 0.0, 1.0));
    let i = m.inv();
    assert!(close2(i.x, 0.6, -0.7));
    assert!(close2(i.y, -0.2, 0.4));
}

#[test]
fn matrix_times_inverse_is_identity_three_rows() {
    let m = mat3(v3(2.0, -1.0, 0.5), v3(1.0, 3.0, 4.0), v3(0.25, 5.0, -2.0));
    let p = m * m.inv();
    assert!(close3(p.x, 1.0, 0.0, 0.0));
    assert!(close3(p.y, 0.0, 1.0, 0.0));
    assert!(close3(p.z, 0.0, 0.0, 1.0));
    let q = m.inv() * m;
    assert!(close3(q.x, 1.0, 0.0, 0.0));
    assert!(close3(q.y, 0.0, 1.0, 0.0));
    assert!(close3(q.z, 0.0, 0.0, 1.0));
}

#[test]
fn matrix_times_inverse_is_identity_four_rows() {
    let m = mat4(
        v4(1.0, 2.0, 0.0, -1.0),
        v4(3.0, 0.5, 1.0, 2.0),
        v4(-2.0, 1.0, 4.0, 0.0),
        v4(0.0, -3.0, 2.0, 1.5),
    );
    let p = m * m.inv();
    assert!(close4(p.x, 1.0, 0.0, 0.0, 0.0));
    assert!(close4(p.y, 0.0, 1.0, 0.0, 0.0));
    assert!(close4(p.z, 0.0, 0.0, 1.0, 0.0));
    assert!(close4(p.w, 0.0, 0.0, 0.0, 1.0));
}

#[test]
fn inverse_of_a_singular_matrix_is_not_a_number() {
    let m = mat2(vec2(r(1.0), r(2.0)), vec2(r(2.0), r(4.0)));
    let i = m.inv();
    assert!(!i.x.x.0.is_finite());
}

#[test]
fn dot_of_a_vector_with_itself_is_the_squared_magnitude() {
    let v = v3(1.5, -2.0, 0.25);
    let m = v.magnitude();
    assert!(close(dot(v, v), m.0 * m.0));
    let u = vec2(r(3.0), r(4.0));
    assert!(close(u.magnitude(), 5.0));
    assert!(close(dot(u, u), 25.0));
    let w = v4(1.0, 2.0, 2.0, 4.0);
    assert!(close(w.magnitude(), 5.0));
}

#[test]
fn a_normalized_vector_has_magnitude_one() {
    assert!(close(v3(1.5, -2.0, 0.25).normalize().magnitude(), 1.0));
    assert!(close(vec2(r(3.0), r(4.0)).normalize().magnitude(), 1.0));
    assert!(close(v4(1.0, 2.0, 3.0, 4.0).normalize().magnitude(), 1.0));
    assert!(close2(normalize(vec2(r(3.0), r(4.0))), 0.6, 0.8));
}

#[test]
fn normalize_of_zero_is_not_a_number() {
    let n = Vec3::<Real>::zero().normalize();
    assert!(n.x.0.is_nan() && n.y.0.is_nan() && n.z.0.is_nan());
    assert!(n.is_nan().and());
}

#[test]
fn normalize_or_zero_of_zero_is_zero() {
    assert_eq!(Vec2::<Real>::zero().normalize_or_zero(), vec2(r(0.0), r(0.0)));
    assert_eq!(Vec3::<Real>::zero().normalize_or_zero(), v3(0.0, 0.0, 0.0));
    assert_eq!(Vec4::<Real>::zero().normalize_or_zero(), v4(0.0, 0.0, 0.0, 0.0));
}

#[test]
fn normalize_or_zero_tests_every_component() {
    // only the last component of the quotient is not a number
    let v = v3(1.0, 1.0, f64::NAN);
    assert_eq!(vec3(r(1.0), r(1.0), r(f64::NAN)).is_nan(), vec3(false, false, true));
    assert_eq!(v.normalize_or_zero(), v3(0.0, 0.0, 0.0));
    assert!(close3(v3(0.0, 3.0, 4.0).normalize_or_zero(), 0.0, 0.6, 0.8));
}

#[test]
fn maximum_and_minimum_avoid_what_is_not_a_number() {
    let nan = r(f64::NAN);
    assert_eq!(nan.non_nan_max(r(1.0)), r(1.0));
    assert_eq!(r(1.0).non_nan_max(nan), r(1.0));
    assert_eq!(nan.non_nan_min(r(1.0)), r(1.0));
    assert_eq!(r(1.0).non_nan_min(nan), r(1.0));
    assert!(nan.non_nan_max(nan).0.is_nan());
    assert_eq!(v3(f64::NAN, 2.0, 5.0).max(v3(1.0, f64::NAN, 3.0)), v3(1.0, 2.0, 5.0));
    assert_eq!(v3(f64::NAN, 2.0, 5.0).min(v3(1.0, f64::NAN, 3.0)), v3(1.0, 2.0, 3.0));
    assert_eq!(v3(f64::NAN, 2.0, 5.0).max_elem(), r(5.0));
    assert_eq!(v3(4.0, f64::NAN, 5.0).min_elem(), r(4.0));
    assert_eq!(v3(-1.0, 0.5, 7.0).clamp(v3(0.0, 0.0, 0.0), v3(1.0, 1.0, 1.0)), v3(0.0, 0.5, 1.0));
}

#[test]
fn matrix_product_is_associative() {
    let a = mat3(v3(0.5, -1.0, 2.0), v3(1.5, 3.0, 4.0), v3(0.0, 5.0, -2.5));
    let b = mat3(v3(1.0, 0.0, 2.0), v3(-1.0, 1.25, 0.0), v3(3.0, 2.0, 1.0));
    let c = mat3(v3(0.0, 1.0, 1.0), v3(2.0, -2.0, 5.0), v3(1.0, 0.75, -1.0));
    let l = (a * b) * c;
    let n = a * (b * c);
    assert!(close3(l.x, n.x.x.0, n.x.y.0, n.x.z.0));
    assert!(close3(l.y, n.y.x.0, n.y.y.0, n.y.z.0));
    assert!(close3(l.z, n.z.x.0, n.z.y.0, n.z.z.0));
    let d = mat4(v4(1.0, 2.0, 0.0, -1.0), v4(3.0, 0.5, 1.0, 2.0), v4(-2.0, 1.0, 4.0, 0.0), v4(0.0, -3.0, 2.0, 1.5));
    let e = d.transpose();
    let f = mat4(v4(1.0, 1.0, 0.0, 0.0), v4(0.0, 1.0, 1.0, 0.0), v4(0.0, 0.0, 1.0, 1.0), v4(0.5, 0.0, 0.0, 1.0));
    let l = (d * e) * f;
    let n = d * (e * f);
    assert!(close4(l.x, n.x.x.0, n.x.y.0, n.x.z.0, n.x.w.0));
    assert!(close4(l.y, n.y.x.0, n.y.y.0, n.y.z.0, n.y.w.0));
    assert!(close4(l.z, n.z.x.0, n.z.y.0, n.z.z.0, n.z.w.0));
    assert!(close4(l.w, n.w.x.0, n.w.y.0, n.w.z.0, n.w.w.0));
}

#[test]
fn determinant_matches_the_closed_form_exactly() {
    let m = mat2(vec2(r(1.0), r(2.0)), vec2(r(3.0), r(4.0)));
    assert_eq!(m.det(), r(-2.0));
    let m = mat3(v3(0.1, 0.2, 0.3), v3(0.4, 0.5, 0.6), v3(0.7, 0.8, 1.0));
    let e = 0.1 * 0.5 * 1.0 + 0.2 * 0.6 * 0.7 + 0.3 * 0.4 * 0.8 - 0.1 * 0.6 * 0.8 - 0.2 * 0.4 * 1.0 - 0.3 * 0.5 * 0.7;
    assert_eq!(m.det(), r(e));
    let m = mat4(v4(0.1, 0.0, 0.0, 0.0), v4(0.0, 0.2, 0.0, 0.0), v4(0.0, 0.0, 0.3, 0.0), v4(0.0, 0.0, 0.0, 0.7));
    assert_eq!(m.det(), r(0.1 * 0.2 * 0.3 * 0.7));
}

#[test]
fn rotation_of_the_plane() {
    let m = Mat2::rotate(r(std::f64::consts::FRAC_PI_2));
    assert!(close2(m.apply_to(vec2(r(1.0), r(0.0))), 0.0, 1.0));
    assert!(close2(m.apply_to(vec2(r(0.0), r(1.0))), -1.0, 0.0));
    assert!(close(m.det(), 1.0));
}

#[test]
fn rotations_about_the_axes() {
    let a = r(std::f64::consts::FRAC_PI_2);
    assert!(close3(Mat3::rotate_x(a).apply_to(v3(0.0, 1.0, 0.0)), 0.0, 0.0, 1.0));
    assert!(close3(Mat3::rotate_x(a).apply_to(v3(1.0, 0.0, 0.0)), 1.0, 0.0, 0.0));
    assert!(close3(Mat3::rotate_y(a).apply_to(v3(0.0, 0.0, 1.0)), 1.0, 0.0, 0.0));
    assert!(close3(Mat3::rotate_y(a).apply_to(v3(0.0, 1.0, 0.0)), 0.0, 1.0, 0.0));
    assert!(close3(Mat3::rotate_z(a).apply_to(v3(1.0, 0.0, 0.0)), 0.0, 1.0, 0.0));
    assert!(close3(Mat3::rotate_z(a).apply_to(v3(0.0, 0.0, 1.0)), 0.0, 0.0, 1.0));
    assert!(close(Mat3::rotate_z(r(0.3)).det(), 1.0));
}

#[test]
fn quaternion_identity_magnitude_and_normalize() {
    assert_eq!(Quaternion::<Real>::ident(), quaternion(r(1.0), r(0.0), r(0.0), r(0.0)));
    assert_eq!(Quaternion::<Real>::default(), Quaternion::<Real>::ident());
    let q = quaternion(r(1.0), r(2.0), r(2.0), r(4.0));
    assert!(close(q.magnitude(), 5.0));
    let n = q.normalize();
    assert!(close(n.magnitude(), 1.0));
    assert!(close(n.r, 0.2) && close(n.i, 0.4) && close(n.j, 0.4) && close(n.k, 0.8));
}

#[test]
fn quaternion_inverse_negates_the_real_part() {
    let q = quaternion(r(1.0), r(2.0), r(3.0), r(4.0));
    assert_eq!(q.inv(), quaternion(r(-1.0), r(2.0), r(3.0), r(4.0)));
}

#[test]
fn quaternion_of_a_rotation_vector() {
    let a = std::f64::consts::FRAC_PI_2;
    let q = Quaternion::from_euler_angles(v3(0.0, 0.0, 1.0) * r(1.0));
    // an axis of length one holds an angle of one
    assert!(close(q.r, (0.5f64).cos()));
    assert!(close(q.k, (0.5f64).sin()));
    // the axis is not normalized: its length is the angle and scales the imaginary part
    let q = Quaternion::from_euler_angles(v3(0.0, 0.0, a));
    assert!(close(q.r, (a / 2.0).cos()));
    assert!(close(q.i, 0.0) && close(q.j, 0.0));
    assert!(close(q.k, (a / 2.0).sin() * a));
}

#[test]
fn rotation_matrix_of_a_unit_quaternion() {
    let h = std::f64::consts::FRAC_PI_4;
    // a quarter turn about z
    let q = quaternion(r(h.cos()), r(0.0), r(0.0), r(h.sin()));
    let m = q.rot_mat();
    assert!(close3(m.apply_to(v3(1.0, 0.0, 0.0)), 0.0, 1.0, 0.0));
    assert!(close3(m.apply_to(v3(0.0, 1.0, 0.0)), -1.0, 0.0, 0.0));
    assert!(close3(m.apply_to(v3(0.0, 0.0, 1.0)), 0.0, 0.0, 1.0));
    let z = Mat3::rotate_z(r(std::f64::consts::FRAC_PI_2));
    assert!(close3(m.x, z.x.x.0, z.x.y.0, z.x.z.0));
    assert!(close3(m.y, z.y.x.0, z.y.y.0, z.y.z.0));
    assert!(close3(m.z, z.z.x.0, z.z.y.0, z.z.z.0));
}

#[test]
fn sandwich_with_the_inverse_is_the_negated_rotation() {
    let q = quaternion(r(0.5), r(-0.1), r(0.7), r(0.3)).normalize();
    let v = v3(0.25, -2.0, 1.5);
    let p = quaternion(r(0.0), v.x, v.y, v.z);
    let s = q * p * q.inv();
    let m = q.rot_mat().apply_to(v);
    assert!(close(s.r, 0.0));
    assert!(close3(vec3(s.i, s.j, s.k), -m.x.0, -m.y.0, -m.z.0));
    // with the conjugate, which negates the imaginary parts, the sign is that of the matrix
    let c = quaternion(q.r, -q.i, -q.j, -q.k);
    let t = q * p * c;
    assert!(close(t.r, 0.0));
    assert!(close3(vec3(t.i, t.j, t.k), m.x.0, m.y.0, m.z.0));
    // the two agree on the zero vector
    let zero = quaternion(r(0.0), r(0.0), r(0.0), r(0.0));
    let s = q * zero * q.inv();
    assert!(close3(vec3(s.i, s.j, s.k), 0.0, 0.0, 0.0));
}

#[test]
fn distance_and_angle() {
    assert!(close(distance(vec2(r(1.0), r(1.0)), vec2(r(4.0), r(5.0))), 5.0));
    assert!(close(Distance::distance(&v3(1.0, 2.0, 3.0), &v3(1.0, 2.0, 5.0)), 2.0));
    assert!(close(angle_between(v3(1.0, 0.0, 0.0), v3(0.0, 2.0, 0.0)), std::f64::consts::FRAC_PI_2));
    assert!(close(angle_between(vec2(r(1.0), r(1.0)), vec2(r(3.0), r(3.0))), 0.0));
    assert!(close3(cross(v3(1.0, 0.0, 0.0), v3(0.0, 1.0, 0.0)), 0.0, 0.0, 1.0));
}

#[test]
fn remainder_of_floats() {
    assert!(close3(v3(5.5, -5.5, 7.0) % r(2.0), 1.5, -1.5, 1.0));
}

#[test]
fn render_a_long_number_within_eight_characters() {
    let s = nice(123456.789, 8, false);
    assert!(s.chars().count() <= 8);
    assert_eq!(s, "123456.8");
    let back: f64 = s.parse().unwrap();
    assert!((back - 123456.789).abs() <= 0.05);
}

#[test]
fn render_zero_as_a_plain_zero() {
    assert_eq!(nice(0.0, 4, false), "0");
    assert_eq!(nice(0.0, 1, false), "0");
    assert_eq!(nice(-0.0, 1, false), "0");
    assert_eq!(nice(0.0, 4, true), "0   ");
}

#[test]
fn render_a_small_negative_number_with_a_power_of_ten() {
    let s = nice(-0.00001, 6, false);
    assert_eq!(s, "-1e-5");
    assert!(s.starts_with('-'));
    assert!(s.contains('e'));
    assert!(!s.starts_with("-0"));
}

#[test]
fn render_trims_the_fraction_and_the_sign_of_zero() {
    assert_eq!(nice(1.5, 8, false), "1.5");
    assert_eq!(nice(2.000001, 5, false), "2");
    // less than one: written with a power of ten rather than rounded to zero
    assert_eq!(nice(-0.4, 1, false), "-4e-1");
    assert_eq!(nice(-0.4, 3, false), "-4e-1");
    assert_eq!(nice(-0.0, 1, false), "0");
    assert_eq!(nice(1234.5678, 6, false), "1234.6");
    assert_eq!(nice(-1234.5678, 7, false), "-1234.6");
    assert_eq!(nice(0.123456789, 6, false), "0.1235");
}

#[test]
fn render_large_numbers_with_a_power_of_ten() {
    assert_eq!(nice(123456789.0, 6, false), "1.23e8");
    assert_eq!(nice(-123456789.0, 7, false), "-1.23e8");
    assert_eq!(nice(1.5e100, 8, false), "1.50e100");
    assert_eq!(nice(1.5e-100, 8, false), "1.5e-100");
}

#[test]
fn render_pads_to_the_width_and_never_cuts() {
    assert_eq!(nice(1.5, 6, true), "1.5   ");
    assert_eq!(nice(123456.789, 8, true), "123456.8");
    assert_eq!(nice(-0.00001, 8, true), "-0.00001");
    assert_eq!(nice(-0.00001, 7, true), "-1.0e-5");
    // what cannot be written within the width is written anyway
    assert_eq!(nice(-123456789.0, 3, true), "-1e8");
    assert_eq!(nice(f64::NAN, 5, true), "NaN  ");
    assert_eq!(nice(f64::INFINITY, 2, false), "inf");
}

#[test]
fn vectors_and_quaternions_render_their_parts() {
    assert_eq!(vec2(r(1.5), r(-2.0)).nice_fmt(4, false), "(1.5, -2)");
    assert_eq!(v3(1.0, 2.25, 123456.789).nice_fmt(8, false), "(1, 2.25, 123456.8)");
    assert_eq!(v4(0.0, 1.0, 2.0, 3.0).nice_fmt(3, true), "(0  , 1  , 2  , 3  )");
    assert_eq!(
        quaternion(r(1.0), r(0.5), r(-0.25), r(0.0)).nice_fmt(5, false),
        "(1 + 0.5i + -0.25j + 0k)"
    );
}

#[test]
fn vectors_of_floats_parse_from_text() {
    let p = |s: &str| s.parse::<f64>().map(Real);
    assert_eq!(Vec3::from_str_with("(1.5, -2, 3e2)", p), Ok(v3(1.5, -2.0, 300.0)));
    assert!(Vec2::from_str_with("1.5", p).is_err());
    assert_eq!(Mat4::<Real>::ident().x, v4(1.0, 0.0, 0.0, 0.0));
}

#[test]
fn rotation_by_nothing_is_the_identity() {
    assert_eq!(Mat2::rotate(r(0.0)), Mat2::<Real>::ident());
    assert_eq!(Mat3::rotate_x(r(0.0)), Mat3::<Real>::ident());
    assert_eq!(Mat3::rotate_y(r(0.0)), Mat3::<Real>::ident());
    assert_eq!(Mat3::rotate_z(r(0.0)), Mat3::<Real>::ident());
    assert_eq!(Quaternion::from_euler_angles(v3(0.0, 0.0, 0.0)), Quaternion::<Real>::ident());
    assert_eq!(Quaternion::<Real>::ident().rot_mat(), Mat3::<Real>::ident());
}

#[test]
fn rotation_matrix_of_a_half_turn() {
    // a half turn about x keeps x and turns y and z around
    let m = quaternion(r(0.0), r(1.0), r(0.0), r(0.0)).rot_mat();
    assert_eq!(m, mat3(v3(1.0, 0.0, 0.0), v3(0.0, -1.0, 0.0), v3(0.0, 0.0, -1.0)));
    let m = quaternion(r(0.0), r(0.0), r(1.0), r(0.0)).rot_mat();
    assert_eq!(m, mat3(v3(-1.0, 0.0, 0.0), v3(0.0, 1.0, 0.0), v3(0.0, 0.0, -1.0)));
    // every entry of the formula, on parts that tell them apart
    let m = quaternion(r(1.0), r(2.0), r(3.0), r(4.0)).rot_mat();
    assert_eq!(m, mat3(v3(-49.0, 4.0, 22.0), v3(20.0, -39.0, 20.0), v3(10.0, 28.0, -25.0)));
}

#[test]
fn product_of_a_sequence_of_rotations() {
    let h = std::f64::consts::FRAC_PI_4;
    let q = quaternion(r(h.cos()), r(0.0), r(0.0), r(h.sin()));
    let p = Quaternion::product(&[q, q]);
    // two quarter turns about z make a half turn
    assert!(close(p.r, 0.0) && close(p.i, 0.0) && close(p.j, 0.0) && close(p.k, 1.0));
}
