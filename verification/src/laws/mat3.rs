//! What holds of the matrices of three rows over an exact scalar.

use vstd::prelude::*;
use vstd::std_specs::ops::AddSpec;
use vstd::std_specs::ops::DivSpec;
use vstd::std_specs::ops::MulSpec;
use vstd::std_specs::ops::NegSpec;
use vstd::std_specs::ops::SubSpec;
use crate::exact::Exact;
use crate::exact::ExactNeg;
use crate::laws::ints::lemma_cancel;
use crate::laws::ints::lemma_dist2;
use crate::laws::ints::lemma_dist3;
use crate::laws::ints::lemma_mul_assoc;
use crate::laws::ints::lemma_mul_regroup;
use crate::mat3::Mat3;
use crate::vec3::Vec3;
use crate::vector::dot_req;
use crate::vector::dot_spec;

verus! {

/// The integers that a vector stands for.
pub open spec fn vec_val<T: Exact>(v: Vec3<T>) -> Vec3<int> {
    Vec3 { x: v.x.val(), y: v.y.val(), z: v.z.val() }
}

/// The integers that a matrix stands for.
pub open spec fn mat_val<T: Exact>(m: Mat3<T>) -> Mat3<int> {
    Mat3 { x: vec_val(m.x), y: vec_val(m.y), z: vec_val(m.z) }
}

/// The dot product of two vectors of integers.
pub open spec fn dot_int(a: Vec3<int>, b: Vec3<int>) -> int {
    a.x * b.x + a.y * b.y + a.z * b.z
}

/// The product of a matrix of integers with a vector.
pub open spec fn apply_int(m: Mat3<int>, v: Vec3<int>) -> Vec3<int> {
    Vec3 { x: dot_int(m.x, v), y: dot_int(m.y, v), z: dot_int(m.z, v) }
}

/// The product of two matrices of integers.
pub open spec fn product_int(a: Mat3<int>, b: Mat3<int>) -> Mat3<int> {
    Mat3 {
        x: Vec3 { x: dot_int(a.x, b.transpose_spec().x), y: dot_int(a.x, b.transpose_spec().y), z: dot_int(a.x, b.transpose_spec().z) },
        y: Vec3 { x: dot_int(a.y, b.transpose_spec().x), y: dot_int(a.y, b.transpose_spec().y), z: dot_int(a.y, b.transpose_spec().z) },
        z: Vec3 { x: dot_int(a.z, b.transpose_spec().x), y: dot_int(a.z, b.transpose_spec().y), z: dot_int(a.z, b.transpose_spec().z) },
    }
}

/// The matrix with `d` on the diagonal and zero elsewhere.
pub open spec fn scalar_int(d: int) -> Mat3<int> {
    Mat3 {
        x: Vec3 { x: d, y: 0, z: 0 },
        y: Vec3 { x: 0, y: d, z: 0 },
        z: Vec3 { x: 0, y: 0, z: d },
    }
}

/// Each entry of the matrix times `d`.
pub open spec fn scaled_int(m: Mat3<int>, d: int) -> Mat3<int> {
    Mat3 {
        x: Vec3 { x: m.x.x * d, y: m.x.y * d, z: m.x.z * d },
        y: Vec3 { x: m.y.x * d, y: m.y.y * d, z: m.y.z * d },
        z: Vec3 { x: m.z.x * d, y: m.z.y * d, z: m.z.z * d },
    }
}

/// The cross product of two vectors of integers.
pub open spec fn cross_int(a: Vec3<int>, b: Vec3<int>) -> Vec3<int> {
    Vec3 { x: a.y * b.z - a.z * b.y, y: a.z * b.x - a.x * b.z, z: a.x * b.y - a.y * b.x }
}

/// The determinant of a matrix of integers: the first row times the cross
/// product of the other two.
pub open spec fn det_int(m: Mat3<int>) -> int {
    dot_int(m.x, cross_int(m.y, m.z))
}

/// The adjugate of a matrix of integers: its columns are the cross products of
/// the rows, two by two.
pub open spec fn adjoint_int(m: Mat3<int>) -> Mat3<int> {
    Mat3 {
        x: cross_int(m.y, m.z),
        y: cross_int(m.z, m.x),
        z: cross_int(m.x, m.y),
    }.transpose_spec()
}

/// A dot product that is defined is the dot product of the integers.
pub proof fn lemma_dot_exact<T: Exact>(a: Vec3<T>, b: Vec3<T>)
    requires
        dot_req(a, b),
    ensures
        dot_spec(a, b).val() == dot_int(vec_val(a), vec_val(b)),
{
    T::lemma_scalar();
    T::lemma_ring();
}

/// A product with a vector that is defined is the product of the integers.
pub proof fn lemma_apply_exact<T: ExactNeg>(m: Mat3<T>, v: Vec3<T>)
    requires
        m.apply_to_req(v),
    ensures
        vec_val(m.apply_to_spec(v)) == apply_int(mat_val(m), vec_val(v)),
{
    lemma_dot_exact(m.x, v);
    lemma_dot_exact(m.y, v);
    lemma_dot_exact(m.z, v);
}

/// A product of matrices that is defined is the product of the integers.
pub proof fn lemma_product_exact<T: ExactNeg>(a: Mat3<T>, b: Mat3<T>)
    requires
        a.mul_req(b),
    ensures
        mat_val(a.mul_spec(b)) == product_int(mat_val(a), mat_val(b)),
{
    lemma_dot_exact(a.x, b.transpose_spec().x);
    lemma_dot_exact(a.x, b.transpose_spec().y);
    lemma_dot_exact(a.x, b.transpose_spec().z);
    lemma_dot_exact(a.y, b.transpose_spec().x);
    lemma_dot_exact(a.y, b.transpose_spec().y);
    lemma_dot_exact(a.y, b.transpose_spec().z);
    lemma_dot_exact(a.z, b.transpose_spec().x);
    lemma_dot_exact(a.z, b.transpose_spec().y);
    lemma_dot_exact(a.z, b.transpose_spec().z);
}

/// A determinant that is defined is the determinant of the integers.
pub proof fn lemma_det_exact<T: ExactNeg>(m: Mat3<T>)
    requires
        m.det_req(),
    ensures
        m.det_spec().val() == det_int(mat_val(m)),
{
    T::lemma_scalar();
    T::lemma_ring();
    let i = mat_val(m);
    lemma_mul_assoc(i.x.x, i.y.y, i.z.z);
    lemma_mul_assoc(i.x.y, i.y.z, i.z.x);
    lemma_mul_assoc(i.x.z, i.y.x, i.z.y);
    lemma_mul_assoc(i.x.x, i.y.z, i.z.y);
    lemma_mul_assoc(i.x.y, i.y.x, i.z.z);
    lemma_mul_assoc(i.x.z, i.y.y, i.z.x);
    lemma_triple(i.x, i.y, i.z);
}

/// An adjugate that is defined is the adjugate of the integers.
pub proof fn lemma_adjoint_exact<T: ExactNeg>(m: Mat3<T>)
    requires
        m.cofactor_req(),
    ensures
        mat_val(m.adjoint_spec()) == adjoint_int(mat_val(m)),
{
    T::lemma_scalar();
    T::lemma_ring();
    T::lemma_neg();
}

/// The product of a vector with the cross product of two others, written out.
proof fn lemma_triple(a: Vec3<int>, b: Vec3<int>, c: Vec3<int>)
    ensures
        dot_int(a, cross_int(b, c)) == a.x * (b.y * c.z) + a.y * (b.z * c.x) + a.z * (b.x * c.y) - a.x * (
        b.z * c.y) - a.y * (b.x * c.z) - a.z * (b.y * c.x),
{
    lemma_dist2(a.x, b.y * c.z, b.z * c.y);
    lemma_dist2(a.y, b.z * c.x, b.x * c.z);
    lemma_dist2(a.z, b.x * c.y, b.y * c.x);
}

/// Over the integers, a row times a matrix times a column is the same whichever
/// product is taken first.
proof fn lemma_row_matrix_column(a: Vec3<int>, m: Mat3<int>, c: Vec3<int>)
    ensures
        dot_int(Vec3 { x: dot_int(a, m.transpose_spec().x), y: dot_int(a, m.transpose_spec().y), z: dot_int(a, m.transpose_spec().z) }, c) == dot_int(
            a,
            apply_int(m, c),
        ),
{
    lemma_dist3(c.x, a.x * m.x.x, a.y * m.y.x, a.z * m.z.x);
    lemma_dist3(c.y, a.x * m.x.y, a.y * m.y.y, a.z * m.z.y);
    lemma_dist3(c.z, a.x * m.x.z, a.y * m.y.z, a.z * m.z.z);
    lemma_dist3(a.x, m.x.x * c.x, m.x.y * c.y, m.x.z * c.z);
    lemma_dist3(a.y, m.y.x * c.x, m.y.y * c.y, m.y.z * c.z);
    lemma_dist3(a.z, m.z.x * c.x, m.z.y * c.y, m.z.z * c.z);
    lemma_mul_assoc(a.x, m.x.x, c.x);
    lemma_mul_assoc(a.x, m.x.y, c.y);
    lemma_mul_assoc(a.x, m.x.z, c.z);
    lemma_mul_assoc(a.y, m.y.x, c.x);
    lemma_mul_assoc(a.y, m.y.y, c.y);
    lemma_mul_assoc(a.y, m.y.z, c.z);
    lemma_mul_assoc(a.z, m.z.x, c.x);
    lemma_mul_assoc(a.z, m.z.y, c.y);
    lemma_mul_assoc(a.z, m.z.z, c.z);
}

/// Over the integers, the product of matrices is associative.
pub proof fn lemma_product_int_associative(a: Mat3<int>, b: Mat3<int>, c: Mat3<int>)
    ensures
        product_int(product_int(a, b), c) == product_int(a, product_int(b, c)),
{
    lemma_row_matrix_column(a.x, b, c.transpose_spec().x);
    lemma_row_matrix_column(a.x, b, c.transpose_spec().y);
    lemma_row_matrix_column(a.x, b, c.transpose_spec().z);
    lemma_row_matrix_column(a.y, b, c.transpose_spec().x);
    lemma_row_matrix_column(a.y, b, c.transpose_spec().y);
    lemma_row_matrix_column(a.y, b, c.transpose_spec().z);
    lemma_row_matrix_column(a.z, b, c.transpose_spec().x);
    lemma_row_matrix_column(a.z, b, c.transpose_spec().y);
    lemma_row_matrix_column(a.z, b, c.transpose_spec().z);
}

/// Over the integers, a matrix times its adjugate is the determinant on the
/// diagonal and zero elsewhere.
pub proof fn lemma_adjugate_int(m: Mat3<int>)
    ensures
        product_int(m, adjoint_int(m)) == scalar_int(det_int(m)),
{
    lemma_triple_cycle(m.x, m.y, m.z);
    lemma_triple_cycle(m.y, m.z, m.x);
    lemma_triple_repeated(m.x, m.z, m.x);
    lemma_triple_repeated(m.x, m.x, m.y);
    lemma_triple_repeated(m.y, m.y, m.z);
    lemma_triple_repeated(m.y, m.x, m.y);
    lemma_triple_repeated(m.z, m.y, m.z);
    lemma_triple_repeated(m.z, m.z, m.x);
}

/// The product of a vector with the cross product of two others is the same
/// when the three take each other's places in a circle.
proof fn lemma_triple_cycle(a: Vec3<int>, b: Vec3<int>, c: Vec3<int>)
    ensures
        dot_int(a, cross_int(b, c)) == dot_int(b, cross_int(c, a)),
{
    lemma_triple(a, b, c);
    lemma_triple(b, c, a);
    lemma_mul_regroup(a.x, b.y, c.z);
    lemma_mul_regroup(a.y, b.z, c.x);
    lemma_mul_regroup(a.z, b.x, c.y);
    lemma_mul_regroup(a.x, b.z, c.y);
    lemma_mul_regroup(a.y, b.x, c.z);
    lemma_mul_regroup(a.z, b.y, c.x);
}

/// The product of a vector with a cross product that it is part of is zero.
proof fn lemma_triple_repeated(a: Vec3<int>, b: Vec3<int>, c: Vec3<int>)
    requires
        a == b || a == c,
    ensures
        dot_int(a, cross_int(b, c)) == 0,
{
    lemma_triple(a, b, c);
    lemma_mul_regroup(a.x, b.y, c.z);
    lemma_mul_regroup(a.y, b.z, c.x);
    lemma_mul_regroup(a.z, b.x, c.y);
}

/// Over the integers, a matrix `q` whose entries times `d` are the adjugate of
/// `m`, where `d` is the determinant of `m` and not zero, is the inverse of `m`.
pub proof fn lemma_inverse_int(m: Mat3<int>, q: Mat3<int>)
    requires
        det_int(m) != 0,
        scaled_int(q, det_int(m)) == adjoint_int(m),
    ensures
        product_int(m, q) == scalar_int(1),
{
    let d = det_int(m);
    lemma_adjugate_int(m);
    let p = product_int(m, q);
    lemma_dist3(d, m.x.x * q.x.x, m.x.y * q.y.x, m.x.z * q.z.x);
    lemma_mul_assoc(m.x.x, q.x.x, d);
    lemma_mul_assoc(m.x.y, q.y.x, d);
    lemma_mul_assoc(m.x.z, q.z.x, d);
    lemma_cancel(d, p.x.x, 1);
    lemma_dist3(d, m.x.x * q.x.y, m.x.y * q.y.y, m.x.z * q.z.y);
    lemma_mul_assoc(m.x.x, q.x.y, d);
    lemma_mul_assoc(m.x.y, q.y.y, d);
    lemma_mul_assoc(m.x.z, q.z.y, d);
    lemma_cancel(d, p.x.y, 0);
    lemma_dist3(d, m.x.x * q.x.z, m.x.y * q.y.z, m.x.z * q.z.z);
    lemma_mul_assoc(m.x.x, q.x.z, d);
    lemma_mul_assoc(m.x.y, q.y.z, d);
    lemma_mul_assoc(m.x.z, q.z.z, d);
    lemma_cancel(d, p.x.z, 0);
    lemma_dist3(d, m.y.x * q.x.x, m.y.y * q.y.x, m.y.z * q.z.x);
    lemma_mul_assoc(m.y.x, q.x.x, d);
    lemma_mul_assoc(m.y.y, q.y.x, d);
    lemma_mul_assoc(m.y.z, q.z.x, d);
    lemma_cancel(d, p.y.x, 0);
    lemma_dist3(d, m.y.x * q.x.y, m.y.y * q.y.y, m.y.z * q.z.y);
    lemma_mul_assoc(m.y.x, q.x.y, d);
    lemma_mul_assoc(m.y.y, q.y.y, d);
    lemma_mul_assoc(m.y.z, q.z.y, d);
    lemma_cancel(d, p.y.y, 1);
    lemma_dist3(d, m.y.x * q.x.z, m.y.y * q.y.z, m.y.z * q.z.z);
    lemma_mul_assoc(m.y.x, q.x.z, d);
    lemma_mul_assoc(m.y.y, q.y.z, d);
    lemma_mul_assoc(m.y.z, q.z.z, d);
    lemma_cancel(d, p.y.z, 0);
    lemma_dist3(d, m.z.x * q.x.x, m.z.y * q.y.x, m.z.z * q.z.x);
    lemma_mul_assoc(m.z.x, q.x.x, d);
    lemma_mul_assoc(m.z.y, q.y.x, d);
    lemma_mul_assoc(m.z.z, q.z.x, d);
    lemma_cancel(d, p.z.x, 0);
    lemma_dist3(d, m.z.x * q.x.y, m.z.y * q.y.y, m.z.z * q.z.y);
    lemma_mul_assoc(m.z.x, q.x.y, d);
    lemma_mul_assoc(m.z.y, q.y.y, d);
    lemma_mul_assoc(m.z.z, q.z.y, d);
    lemma_cancel(d, p.z.y, 0);
    lemma_dist3(d, m.z.x * q.x.z, m.z.y * q.y.z, m.z.z * q.z.z);
    lemma_mul_assoc(m.z.x, q.x.z, d);
    lemma_mul_assoc(m.z.y, q.y.z, d);
    lemma_mul_assoc(m.z.z, q.z.z, d);
    lemma_cancel(d, p.z.z, 1);
}

/// Whether the determinant divides every entry of the adjugate: then, and only
/// then, the integer division of `inv` loses nothing.
pub open spec fn divides_adjoint<T: ExactNeg>(m: Mat3<T>) -> bool {
    &&& m.adjoint_spec().x.x.val() % m.det_spec().val() == 0
    &&& m.adjoint_spec().x.y.val() % m.det_spec().val() == 0
    &&& m.adjoint_spec().x.z.val() % m.det_spec().val() == 0
    &&& m.adjoint_spec().y.x.val() % m.det_spec().val() == 0
    &&& m.adjoint_spec().y.y.val() % m.det_spec().val() == 0
    &&& m.adjoint_spec().y.z.val() % m.det_spec().val() == 0
    &&& m.adjoint_spec().z.x.val() % m.det_spec().val() == 0
    &&& m.adjoint_spec().z.y.val() % m.det_spec().val() == 0
    &&& m.adjoint_spec().z.z.val() % m.det_spec().val() == 0
}

/// The product of matrices is associative: `(a * b) * c` is `a * (b * c)`
/// wherever every operation of both sides is defined.
pub proof fn lemma_product_associative<T: ExactNeg>(a: Mat3<T>, b: Mat3<T>, c: Mat3<T>)
    requires
        a.mul_req(b),
        a.mul_spec(b).mul_req(c),
        b.mul_req(c),
        a.mul_req(b.mul_spec(c)),
    ensures
        a.mul_spec(b).mul_spec(c) == a.mul_spec(b.mul_spec(c)),
{
    T::lemma_scalar();
    lemma_product_exact(a, b);
    lemma_product_exact(a.mul_spec(b), c);
    lemma_product_exact(b, c);
    lemma_product_exact(a, b.mul_spec(c));
    lemma_product_int_associative(mat_val(a), mat_val(b), mat_val(c));
    lemma_val_injective(a.mul_spec(b).mul_spec(c), a.mul_spec(b.mul_spec(c)));
}

/// Two matrices that stand for the same integers are the same matrix.
pub proof fn lemma_val_injective<T: Exact>(a: Mat3<T>, b: Mat3<T>)
    requires
        mat_val(a) == mat_val(b),
    ensures
        a == b,
{
    T::lemma_scalar();
    assert(a.x.x.val() == mat_val(a).x.x);
    assert(b.x.x.val() == mat_val(b).x.x);
    assert(a.x.y.val() == mat_val(a).x.y);
    assert(b.x.y.val() == mat_val(b).x.y);
    assert(a.x.z.val() == mat_val(a).x.z);
    assert(b.x.z.val() == mat_val(b).x.z);
    assert(a.y.x.val() == mat_val(a).y.x);
    assert(b.y.x.val() == mat_val(b).y.x);
    assert(a.y.y.val() == mat_val(a).y.y);
    assert(b.y.y.val() == mat_val(b).y.y);
    assert(a.y.z.val() == mat_val(a).y.z);
    assert(b.y.z.val() == mat_val(b).y.z);
    assert(a.z.x.val() == mat_val(a).z.x);
    assert(b.z.x.val() == mat_val(b).z.x);
    assert(a.z.y.val() == mat_val(a).z.y);
    assert(b.z.y.val() == mat_val(b).z.y);
    assert(a.z.z.val() == mat_val(a).z.z);
    assert(b.z.z.val() == mat_val(b).z.z);
}

/// A matrix times its inverse is the identity, wherever the inverse and the
/// product are defined and the determinant divides every entry of the adjugate.
/// Where it does not divide, the division rounds and the product is not the
/// identity.
pub proof fn lemma_inverse<T: ExactNeg>(m: Mat3<T>)
    requires
        m.inv_req(),
        divides_adjoint(m),
        m.mul_req(m.inv_spec()),
    ensures
        m.mul_spec(m.inv_spec()) == Mat3::<T>::ident_spec(),
{
    T::lemma_scalar();
    lemma_det_exact(m);
    lemma_adjoint_exact(m);
    lemma_product_exact(m, m.inv_spec());
    T::lemma_div(m.adjoint_spec().x.x, m.det_spec());
    T::lemma_div(m.adjoint_spec().x.y, m.det_spec());
    T::lemma_div(m.adjoint_spec().x.z, m.det_spec());
    T::lemma_div(m.adjoint_spec().y.x, m.det_spec());
    T::lemma_div(m.adjoint_spec().y.y, m.det_spec());
    T::lemma_div(m.adjoint_spec().y.z, m.det_spec());
    T::lemma_div(m.adjoint_spec().z.x, m.det_spec());
    T::lemma_div(m.adjoint_spec().z.y, m.det_spec());
    T::lemma_div(m.adjoint_spec().z.z, m.det_spec());
    lemma_inverse_int(mat_val(m), mat_val(m.inv_spec()));
    assert(mat_val(Mat3::<T>::ident_spec()) == scalar_int(1));
    lemma_val_injective(m.mul_spec(m.inv_spec()), Mat3::<T>::ident_spec());
}

} // verus!
