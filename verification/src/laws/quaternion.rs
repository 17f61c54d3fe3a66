//! What holds of the quaternions over an exact scalar.

use vstd::prelude::*;
use vstd::std_specs::ops::AddSpec;
use vstd::std_specs::ops::MulSpec;
use vstd::std_specs::ops::NegSpec;
use vstd::std_specs::ops::SubSpec;
use crate::exact::Exact;
use crate::exact::ExactNeg;
use crate::laws::ints::lemma_dist2;
use crate::laws::ints::lemma_dist3;
use crate::laws::ints::lemma_dist4;
use crate::laws::ints::lemma_mul_assoc;
use crate::laws::ints::lemma_mul_neg;
use crate::laws::ints::lemma_mul_regroup;
use crate::laws::mat3::apply_int;
use crate::laws::mat3::lemma_apply_exact;
use crate::laws::mat3::mat_val;
use crate::laws::mat3::vec_val;
use crate::mat3::Mat3;
use crate::quaternion::Quaternion;
use crate::traits::Zero;
use crate::vec3::Vec3;

verus! {

/// The integers that a quaternion stands for.
pub open spec fn quat_val<T: Exact>(q: Quaternion<T>) -> Quaternion<int> {
    Quaternion { r: q.r.val(), i: q.i.val(), j: q.j.val(), k: q.k.val() }
}

/// The Hamilton product of two quaternions of integers.
pub open spec fn hamilton_int(a: Quaternion<int>, b: Quaternion<int>) -> Quaternion<int> {
    Quaternion {
        r: a.r * b.r - a.i * b.i - a.j * b.j - a.k * b.k,
        i: a.r * b.i + a.i * b.r + a.j * b.k - a.k * b.j,
        j: a.r * b.j - a.i * b.k + a.j * b.r + a.k * b.i,
        k: a.r * b.k + a.i * b.j - a.j * b.i + a.k * b.r,
    }
}

/// The sum of the squares of the parts of a quaternion of integers.
pub open spec fn norm_int(q: Quaternion<int>) -> int {
    q.i * q.i + q.j * q.j + q.k * q.k + q.r * q.r
}

/// The quaternion without a real part whose imaginary parts are the vector's.
pub open spec fn pure_int(v: Vec3<int>) -> Quaternion<int> {
    Quaternion { r: 0, i: v.x, j: v.y, k: v.z }
}

/// The real part negated, the imaginary parts kept.
pub open spec fn inv_int(q: Quaternion<int>) -> Quaternion<int> {
    Quaternion { r: -q.r, i: q.i, j: q.j, k: q.k }
}

/// The rotation matrix of a quaternion of integers.
pub open spec fn rot_int(q: Quaternion<int>) -> Mat3<int> {
    Mat3 {
        x: Vec3 {
            x: 1 - 2 * (q.j * q.j + q.k * q.k),
            y: 2 * (q.i * q.j - q.r * q.k),
            z: 2 * (q.i * q.k + q.r * q.j),
        },
        y: Vec3 {
            x: 2 * (q.i * q.j + q.r * q.k),
            y: 1 - 2 * (q.i * q.i + q.k * q.k),
            z: 2 * (q.j * q.k - q.r * q.i),
        },
        z: Vec3 {
            x: 2 * (q.i * q.k - q.r * q.j),
            y: 2 * (q.j * q.k + q.r * q.i),
            z: 1 - 2 * (q.i * q.i + q.j * q.j),
        },
    }
}

/// The vector as a quaternion without a real part.
pub open spec fn pure_spec<T: Exact>(v: Vec3<T>) -> Quaternion<T> {
    Quaternion { r: T::zero_spec(), i: v.x, j: v.y, k: v.z }
}

/// A product of quaternions that is defined is the product of the integers.
pub proof fn lemma_hamilton_exact<T: Exact>(a: Quaternion<T>, b: Quaternion<T>)
    requires
        a.mul_req(b),
    ensures
        quat_val(a.mul_spec(b)) == hamilton_int(quat_val(a), quat_val(b)),
{
    T::lemma_scalar();
    T::lemma_ring();
}

/// A rotation matrix that is defined is the rotation matrix of the integers.
pub proof fn lemma_rot_mat_exact<T: Exact>(q: Quaternion<T>)
    requires
        q.rot_mat_req(),
    ensures
        mat_val(q.rot_mat_spec()) == rot_int(quat_val(q)),
{
    T::lemma_scalar();
    T::lemma_ring();
}

/// A squared magnitude that is defined is that of the integers.
pub proof fn lemma_magnitude_squared_exact<T: Exact>(q: Quaternion<T>)
    requires
        q.magnitude_squared_req(),
    ensures
        q.magnitude_squared_spec().val() == norm_int(quat_val(q)),
{
    T::lemma_scalar();
    T::lemma_ring();
}

/// The three places of a product of three.
proof fn lemma_places(a: int, b: int, c: int)
    ensures
        (a * b) * c == (a * c) * b,
        (a * b) * c == (c * a) * b,
{
    lemma_mul_assoc(a, b, c);
    lemma_mul_assoc(a, c, b);
    lemma_mul_assoc(c, a, b);
    lemma_mul_regroup(a, b, c);
    lemma_mul_regroup(a, c, b);
    lemma_mul_regroup(c, a, b);
}

/// The `r` part of `q * (0, v) * inv(q)` as a sum of products of three.
pub open spec fn sandwich_r(q: Quaternion<int>, v: Vec3<int>) -> int {
    0
}

/// The `i` part of `q * (0, v) * inv(q)` as a sum of products of three.
pub open spec fn sandwich_i(q: Quaternion<int>, v: Vec3<int>) -> int {
    -((q.r * q.r) * v.x) - (q.i * q.i) * v.x + (q.j * q.j) * v.x + (q.k * q.k) * v.x + 2 * ((q.r * q.k) * v.y) - 2 * ((q.i * q.j) * v.y) - 2 * ((q.r * q.j) * v.z) - 2 * ((q.i * q.k) * v.z)
}

/// The `j` part of `q * (0, v) * inv(q)` as a sum of products of three.
pub open spec fn sandwich_j(q: Quaternion<int>, v: Vec3<int>) -> int {
    -2 * ((q.r * q.k) * v.x) - 2 * ((q.i * q.j) * v.x) - (q.r * q.r) * v.y + (q.i * q.i) * v.y - (q.j * q.j) * v.y + (q.k * q.k) * v.y + 2 * ((q.r * q.i) * v.z) - 2 * ((q.j * q.k) * v.z)
}

/// The `k` part of `q * (0, v) * inv(q)` as a sum of products of three.
pub open spec fn sandwich_k(q: Quaternion<int>, v: Vec3<int>) -> int {
    2 * ((q.r * q.j) * v.x) - 2 * ((q.i * q.k) * v.x) - 2 * ((q.r * q.i) * v.y) - 2 * ((q.j * q.k) * v.y) - (q.r * q.r) * v.z + (q.i * q.i) * v.z + (q.j * q.j) * v.z - (q.k * q.k) * v.z
}

/// The `r` part of `q * (0, v) * inv(q)`, multiplied out.
proof fn lemma_sandwich_r(q: Quaternion<int>, v: Vec3<int>)
    ensures
        hamilton_int(hamilton_int(q, pure_int(v)), inv_int(q)).r == sandwich_r(q, v),
{
    lemma_dist4(-q.r, q.r * 0, -(q.i * v.x), -(q.j * v.y), -(q.k * v.z));
    lemma_mul_neg(q.i * v.x, q.r);
    lemma_mul_neg(q.i * v.x, -q.r);
    lemma_places(q.i, v.x, q.r);
    lemma_mul_neg(q.j * v.y, q.r);
    lemma_mul_neg(q.j * v.y, -q.r);
    lemma_places(q.j, v.y, q.r);
    lemma_mul_neg(q.k * v.z, q.r);
    lemma_mul_neg(q.k * v.z, -q.r);
    lemma_places(q.k, v.z, q.r);
    lemma_dist4(q.i, q.r * v.x, q.i * 0, q.j * v.z, -(q.k * v.y));
    lemma_mul_neg(q.r * v.x, q.i);
    lemma_places(q.r, v.x, q.i);
    lemma_mul_neg(q.j * v.z, q.i);
    lemma_places(q.j, v.z, q.i);
    lemma_mul_neg(q.k * v.y, q.i);
    lemma_places(q.k, v.y, q.i);
    lemma_dist4(q.j, q.r * v.y, -(q.i * v.z), q.j * 0, q.k * v.x);
    lemma_mul_neg(q.r * v.y, q.j);
    lemma_places(q.r, v.y, q.j);
    lemma_mul_neg(q.i * v.z, q.j);
    lemma_places(q.i, v.z, q.j);
    lemma_mul_neg(q.k * v.x, q.j);
    lemma_places(q.k, v.x, q.j);
    lemma_dist4(q.k, q.r * v.z, q.i * v.y, -(q.j * v.x), q.k * 0);
    lemma_mul_neg(q.r * v.z, q.k);
    lemma_places(q.r, v.z, q.k);
    lemma_mul_neg(q.i * v.y, q.k);
    lemma_places(q.i, v.y, q.k);
    lemma_mul_neg(q.j * v.x, q.k);
    lemma_places(q.j, v.x, q.k);
}

/// The `i` part of `q * (0, v) * inv(q)`, multiplied out.
proof fn lemma_sandwich_i(q: Quaternion<int>, v: Vec3<int>)
    ensures
        hamilton_int(hamilton_int(q, pure_int(v)), inv_int(q)).i == sandwich_i(q, v),
{
    lemma_dist4(q.i, q.r * 0, -(q.i * v.x), -(q.j * v.y), -(q.k * v.z));
    lemma_mul_neg(q.i * v.x, q.i);
    lemma_places(q.i, v.x, q.i);
    lemma_mul_neg(q.j * v.y, q.i);
    lemma_places(q.j, v.y, q.i);
    lemma_mul_neg(q.k * v.z, q.i);
    lemma_places(q.k, v.z, q.i);
    lemma_dist4(-q.r, q.r * v.x, q.i * 0, q.j * v.z, -(q.k * v.y));
    lemma_mul_neg(q.r * v.x, q.r);
    lemma_places(q.r, v.x, q.r);
    lemma_mul_neg(q.j * v.z, q.r);
    lemma_places(q.j, v.z, q.r);
    lemma_mul_neg(q.k * v.y, q.r);
    lemma_mul_neg(q.k * v.y, -q.r);
    lemma_places(q.k, v.y, q.r);
    lemma_dist4(q.k, q.r * v.y, -(q.i * v.z), q.j * 0, q.k * v.x);
    lemma_mul_neg(q.r * v.y, q.k);
    lemma_places(q.r, v.y, q.k);
    lemma_mul_neg(q.i * v.z, q.k);
    lemma_places(q.i, v.z, q.k);
    lemma_mul_neg(q.k * v.x, q.k);
    lemma_places(q.k, v.x, q.k);
    lemma_dist4(q.j, q.r * v.z, q.i * v.y, -(q.j * v.x), q.k * 0);
    lemma_mul_neg(q.r * v.z, q.j);
    lemma_places(q.r, v.z, q.j);
    lemma_mul_neg(q.i * v.y, q.j);
    lemma_places(q.i, v.y, q.j);
    lemma_mul_neg(q.j * v.x, q.j);
    lemma_places(q.j, v.x, q.j);
}

/// The `j` part of `q * (0, v) * inv(q)`, multiplied out.
proof fn lemma_sandwich_j(q: Quaternion<int>, v: Vec3<int>)
    ensures
        hamilton_int(hamilton_int(q, pure_int(v)), inv_int(q)).j == sandwich_j(q, v),
{
    lemma_dist4(q.j, q.r * 0, -(q.i * v.x), -(q.j * v.y), -(q.k * v.z));
    lemma_mul_neg(q.i * v.x, q.j);
    lemma_places(q.i, v.x, q.j);
    lemma_mul_neg(q.j * v.y, q.j);
    lemma_places(q.j, v.y, q.j);
    lemma_mul_neg(q.k * v.z, q.j);
    lemma_places(q.k, v.z, q.j);
    lemma_dist4(q.k, q.r * v.x, q.i * 0, q.j * v.z, -(q.k * v.y));
    lemma_mul_neg(q.r * v.x, q.k);
    lemma_places(q.r, v.x, q.k);
    lemma_mul_neg(q.j * v.z, q.k);
    lemma_places(q.j, v.z, q.k);
    lemma_mul_neg(q.k * v.y, q.k);
    lemma_places(q.k, v.y, q.k);
    lemma_dist4(-q.r, q.r * v.y, -(q.i * v.z), q.j * 0, q.k * v.x);
    lemma_mul_neg(q.r * v.y, q.r);
    lemma_places(q.r, v.y, q.r);
    lemma_mul_neg(q.i * v.z, q.r);
    lemma_mul_neg(q.i * v.z, -q.r);
    lemma_places(q.i, v.z, q.r);
    lemma_mul_neg(q.k * v.x, q.r);
    lemma_places(q.k, v.x, q.r);
    lemma_dist4(q.i, q.r * v.z, q.i * v.y, -(q.j * v.x), q.k * 0);
    lemma_mul_neg(q.r * v.z, q.i);
    lemma_places(q.r, v.z, q.i);
    lemma_mul_neg(q.i * v.y, q.i);
    lemma_places(q.i, v.y, q.i);
    lemma_mul_neg(q.j * v.x, q.i);
    lemma_places(q.j, v.x, q.i);
}

/// The `k` part of `q * (0, v) * inv(q)`, multiplied out.
proof fn lemma_sandwich_k(q: Quaternion<int>, v: Vec3<int>)
    ensures
        hamilton_int(hamilton_int(q, pure_int(v)), inv_int(q)).k == sandwich_k(q, v),
{
    lemma_dist4(q.k, q.r * 0, -(q.i * v.x), -(q.j * v.y), -(q.k * v.z));
    lemma_mul_neg(q.i * v.x, q.k);
    lemma_places(q.i, v.x, q.k);
    lemma_mul_neg(q.j * v.y, q.k);
    lemma_places(q.j, v.y, q.k);
    lemma_mul_neg(q.k * v.z, q.k);
    lemma_places(q.k, v.z, q.k);
    lemma_dist4(q.j, q.r * v.x, q.i * 0, q.j * v.z, -(q.k * v.y));
    lemma_mul_neg(q.r * v.x, q.j);
    lemma_places(q.r, v.x, q.j);
    lemma_mul_neg(q.j * v.z, q.j);
    lemma_places(q.j, v.z, q.j);
    lemma_mul_neg(q.k * v.y, q.j);
    lemma_places(q.k, v.y, q.j);
    lemma_dist4(q.i, q.r * v.y, -(q.i * v.z), q.j * 0, q.k * v.x);
    lemma_mul_neg(q.r * v.y, q.i);
    lemma_places(q.r, v.y, q.i);
    lemma_mul_neg(q.i * v.z, q.i);
    lemma_places(q.i, v.z, q.i);
    lemma_mul_neg(q.k * v.x, q.i);
    lemma_places(q.k, v.x, q.i);
    lemma_dist4(-q.r, q.r * v.z, q.i * v.y, -(q.j * v.x), q.k * 0);
    lemma_mul_neg(q.r * v.z, q.r);
    lemma_places(q.r, v.z, q.r);
    lemma_mul_neg(q.i * v.y, q.r);
    lemma_places(q.i, v.y, q.r);
    lemma_mul_neg(q.j * v.x, q.r);
    lemma_mul_neg(q.j * v.x, -q.r);
    lemma_places(q.j, v.x, q.r);
}

/// The `x` component of the rotated vector, multiplied out, for a quaternion
/// of magnitude one.
proof fn lemma_rotated_x(q: Quaternion<int>, v: Vec3<int>)
    requires
        norm_int(q) == 1,
    ensures
        apply_int(rot_int(q), v).x == -sandwich_i(q, v),
{
    lemma_dist4(v.x, q.i * q.i, q.j * q.j, q.k * q.k, q.r * q.r);
    lemma_dist3(v.x, 1, (-2) * (q.j * q.j), (-2) * (q.k * q.k));
    lemma_mul_assoc(-2, q.j * q.j, v.x);
    lemma_mul_assoc(-2, q.k * q.k, v.x);
    lemma_dist2(v.y, 2 * (q.i * q.j), 2 * (q.r * q.k));
    lemma_mul_assoc(2, q.i * q.j, v.y);
    lemma_mul_assoc(2, q.r * q.k, v.y);
    lemma_dist2(v.z, 2 * (q.i * q.k), 2 * (q.r * q.j));
    lemma_mul_assoc(2, q.i * q.k, v.z);
    lemma_mul_assoc(2, q.r * q.j, v.z);
}

/// The `y` component of the rotated vector, multiplied out, for a quaternion
/// of magnitude one.
proof fn lemma_rotated_y(q: Quaternion<int>, v: Vec3<int>)
    requires
        norm_int(q) == 1,
    ensures
        apply_int(rot_int(q), v).y == -sandwich_j(q, v),
{
    lemma_dist2(v.x, 2 * (q.i * q.j), 2 * (q.r * q.k));
    lemma_mul_assoc(2, q.i * q.j, v.x);
    lemma_mul_assoc(2, q.r * q.k, v.x);
    lemma_dist4(v.y, q.i * q.i, q.j * q.j, q.k * q.k, q.r * q.r);
    lemma_dist3(v.y, 1, (-2) * (q.i * q.i), (-2) * (q.k * q.k));
    lemma_mul_assoc(-2, q.i * q.i, v.y);
    lemma_mul_assoc(-2, q.k * q.k, v.y);
    lemma_dist2(v.z, 2 * (q.j * q.k), 2 * (q.r * q.i));
    lemma_mul_assoc(2, q.j * q.k, v.z);
    lemma_mul_assoc(2, q.r * q.i, v.z);
}

/// The `z` component of the rotated vector, multiplied out, for a quaternion
/// of magnitude one.
proof fn lemma_rotated_z(q: Quaternion<int>, v: Vec3<int>)
    requires
        norm_int(q) == 1,
    ensures
        apply_int(rot_int(q), v).z == -sandwich_k(q, v),
{
    lemma_dist2(v.x, 2 * (q.i * q.k), 2 * (q.r * q.j));
    lemma_mul_assoc(2, q.i * q.k, v.x);
    lemma_mul_assoc(2, q.r * q.j, v.x);
    lemma_dist2(v.y, 2 * (q.j * q.k), 2 * (q.r * q.i));
    lemma_mul_assoc(2, q.j * q.k, v.y);
    lemma_mul_assoc(2, q.r * q.i, v.y);
    lemma_dist4(v.z, q.i * q.i, q.j * q.j, q.k * q.k, q.r * q.r);
    lemma_dist3(v.z, 1, (-2) * (q.i * q.i), (-2) * (q.j * q.j));
    lemma_mul_assoc(-2, q.i * q.i, v.z);
    lemma_mul_assoc(-2, q.j * q.j, v.z);
}

/// Over the integers, for a quaternion `q` of magnitude one, `q * (0, v) * inv(q)`
/// has no real part, and its imaginary parts are the rotated vector negated:
/// `inv` negates the real part, which makes it the negated conjugate.
pub proof fn lemma_sandwich_int(q: Quaternion<int>, v: Vec3<int>)
    requires
        norm_int(q) == 1,
    ensures
        hamilton_int(hamilton_int(q, pure_int(v)), inv_int(q)) == (Quaternion {
            r: 0int,
            i: -apply_int(rot_int(q), v).x,
            j: -apply_int(rot_int(q), v).y,
            k: -apply_int(rot_int(q), v).z,
        }),
{
    lemma_sandwich_r(q, v);
    lemma_sandwich_i(q, v);
    lemma_sandwich_j(q, v);
    lemma_sandwich_k(q, v);
    lemma_rotated_x(q, v);
    lemma_rotated_y(q, v);
    lemma_rotated_z(q, v);
}

/// For a quaternion `q` of magnitude one over an exact scalar, the product
/// `q * (0, v) * inv(q)` has no real part, and each of its imaginary parts is
/// the component of the vector rotated by `rot_mat`, negated.
pub proof fn lemma_sandwich_negates_rotation<T: ExactNeg>(q: Quaternion<T>, v: Vec3<T>)
    requires
        q.magnitude_squared_req(),
        q.magnitude_squared_spec().val() == 1,
        q.rot_mat_req(),
        q.rot_mat_spec().apply_to_req(v),
        q.inv_req(),
        q.mul_req(pure_spec(v)),
        q.mul_spec(pure_spec(v)).mul_req(q.inv_spec()),
    ensures
        ({
            let s = q.mul_spec(pure_spec(v)).mul_spec(q.inv_spec());
            let m = q.rot_mat_spec().apply_to_spec(v);
            &&& s.r == T::zero_spec()
            &&& s.i.val() == -m.x.val()
            &&& s.j.val() == -m.y.val()
            &&& s.k.val() == -m.z.val()
        }),
{
    T::lemma_scalar();
    T::lemma_neg();
    lemma_magnitude_squared_exact(q);
    lemma_rot_mat_exact(q);
    lemma_apply_exact(q.rot_mat_spec(), v);
    lemma_hamilton_exact(q, pure_spec(v));
    lemma_hamilton_exact(q.mul_spec(pure_spec(v)), q.inv_spec());
    assert(quat_val(pure_spec(v)) == pure_int(vec_val(v)));
    assert(quat_val(q.inv_spec()) == inv_int(quat_val(q)));
    lemma_sandwich_int(quat_val(q), vec_val(v));
}

/// For a quaternion of magnitude one, the imaginary parts of
/// `q * (0, v) * inv(q)` are the vector rotated by `rot_mat` exactly where that
/// vector is the zero vector; see [`lemma_sandwich_negates_rotation`] for every
/// other vector.
pub proof fn lemma_sandwich_is_rotation<T: ExactNeg>(q: Quaternion<T>, v: Vec3<T>)
    requires
        q.magnitude_squared_req(),
        q.magnitude_squared_spec().val() == 1,
        q.rot_mat_req(),
        q.rot_mat_spec().apply_to_req(v),
        q.inv_req(),
        q.mul_req(pure_spec(v)),
        q.mul_spec(pure_spec(v)).mul_req(q.inv_spec()),
        q.rot_mat_spec().apply_to_spec(v) == Vec3::<T>::zero_spec(),
    ensures
        ({
            let s = q.mul_spec(pure_spec(v)).mul_spec(q.inv_spec());
            &&& s.r == T::zero_spec()
            &&& (Vec3 { x: s.i, y: s.j, z: s.k }) == q.rot_mat_spec().apply_to_spec(v)
        }),
{
    T::lemma_scalar();
    lemma_sandwich_negates_rotation(q, v);
}

} // verus!
