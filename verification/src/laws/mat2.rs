//! What holds of the matrices of two rows over an exact scalar.

use vstd::prelude::*;
use vstd::std_specs::ops::AddSpec;
use vstd::std_specs::ops::DivSpec;
use vstd::std_specs::ops::MulSpec;
use vstd::std_specs::ops::NegSpec;
use vstd::std_specs::ops::SubSpec;
use crate::exact::Exact;
use crate::exact::ExactNeg;
use crate::laws::ints::lemma_cancel;
use crate::laws::ints::lemma_dist2;
use crate::laws::ints::lemma_mul_assoc;
use crate::laws::ints::lemma_mul_comm;
use crate::laws::ints::lemma_mul_neg;
use crate::mat2::Mat2;
use crate::vec2::Vec2;
use crate::vector::dot_req;
use crate::vector::dot_spec;

verus! {

/// The integers that a vector stands for.
pub open spec fn vec_val<T: Exact>(v: Vec2<T>) -> Vec2<int> {
    Vec2 { x: v.x.val(), y: v.y.val() }
}

/// The integers that a matrix stands for.
pub open spec fn mat_val<T: Exact>(m: Mat2<T>) -> Mat2<int> {
    Mat2 { x: vec_val(m.x), y: vec_val(m.y) }
}

/// The dot product of two vectors of integers.
pub open spec fn dot_int(a: Vec2<int>, b: Vec2<int>) -> int {
    a.x * b.x + a.y * b.y
}

/// The product of a matrix of integers with a vector.
pub open spec fn apply_int(m: Mat2<int>, v: Vec2<int>) -> Vec2<int> {
    Vec2 { x: dot_int(m.x, v), y: dot_int(m.y, v) }
}

/// The product of two matrices of integers.
pub open spec fn product_int(a: Mat2<int>, b: Mat2<int>) -> Mat2<int> {
    Mat2 {
        x: Vec2 { x: dot_int(a.x, b.transpose_spec().x), y: dot_int(a.x, b.transpose_spec().y) },
        y: Vec2 { x: dot_int(a.y, b.transpose_spec().x), y: dot_int(a.y, b.transpose_spec().y) },
    }
}

/// The matrix with `d` on the diagonal and zero elsewhere.
pub open spec fn scalar_int(d: int) -> Mat2<int> {
    Mat2 {
        x: Vec2 { x: d, y: 0 },
        y: Vec2 { x: 0, y: d },
    }
}

/// Each entry of the matrix times `d`.
pub open spec fn scaled_int(m: Mat2<int>, d: int) -> Mat2<int> {
    Mat2 {
        x: Vec2 { x: m.x.x * d, y: m.x.y * d },
        y: Vec2 { x: m.y.x * d, y: m.y.y * d },
    }
}

/// The determinant of a matrix of integers.
pub open spec fn det_int(m: Mat2<int>) -> int {
    m.x.x * m.y.y - m.x.y * m.y.x
}

/// The adjugate of a matrix of integers.
pub open spec fn adjoint_int(m: Mat2<int>) -> Mat2<int> {
    Mat2 { x: Vec2 { x: m.y.y, y: -m.x.y }, y: Vec2 { x: -m.y.x, y: m.x.x } }
}

/// A dot product that is defined is the dot product of the integers.
pub proof fn lemma_dot_exact<T: Exact>(a: Vec2<T>, b: Vec2<T>)
    requires
        dot_req(a, b),
    ensures
        dot_spec(a, b).val() == dot_int(vec_val(a), vec_val(b)),
{
    T::lemma_scalar();
    T::lemma_ring();
}

/// A product with a vector that is defined is the product of the integers.
pub proof fn lemma_apply_exact<T: ExactNeg>(m: Mat2<T>, v: Vec2<T>)
    requires
        m.apply_to_req(v),
    ensures
        vec_val(m.apply_to_spec(v)) == apply_int(mat_val(m), vec_val(v)),
{
    lemma_dot_exact(m.x, v);
    lemma_dot_exact(m.y, v);
}

/// A product of matrices that is defined is the product of the integers.
pub proof fn lemma_product_exact<T: ExactNeg>(a: Mat2<T>, b: Mat2<T>)
    requires
        a.mul_req(b),
    ensures
        mat_val(a.mul_spec(b)) == product_int(mat_val(a), mat_val(b)),
{
    lemma_dot_exact(a.x, b.transpose_spec().x);
    lemma_dot_exact(a.x, b.transpose_spec().y);
    lemma_dot_exact(a.y, b.transpose_spec().x);
    lemma_dot_exact(a.y, b.transpose_spec().y);
}

/// A determinant that is defined is the determinant of the integers.
pub proof fn lemma_det_exact<T: ExactNeg>(m: Mat2<T>)
    requires
        m.det_req(),
    ensures
        m.det_spec().val() == det_int(mat_val(m)),
{
    T::lemma_scalar();
    T::lemma_ring();
}

/// An adjugate that is defined is the adjugate of the integers.
pub proof fn lemma_adjoint_exact<T: ExactNeg>(m: Mat2<T>)
    requires
        m.adjoint_req(),
    ensures
        mat_val(m.adjoint_spec()) == adjoint_int(mat_val(m)),
{
    T::lemma_scalar();
    T::lemma_ring();
    T::lemma_neg();
}

/// Over the integers, a row times a matrix times a column is the same whichever
/// product is taken first.
proof fn lemma_row_matrix_column(a: Vec2<int>, m: Mat2<int>, c: Vec2<int>)
    ensures
        dot_int(Vec2 { x: dot_int(a, m.transpose_spec().x), y: dot_int(a, m.transpose_spec().y) }, c) == dot_int(
            a,
            apply_int(m, c),
        ),
{
    lemma_dist2(c.x, a.x * m.x.x, a.y * m.y.x);
    lemma_dist2(c.y, a.x * m.x.y, a.y * m.y.y);
    lemma_dist2(a.x, m.x.x * c.x, m.x.y * c.y);
    lemma_dist2(a.y, m.y.x * c.x, m.y.y * c.y);
    lemma_mul_assoc(a.x, m.x.x, c.x);
    lemma_mul_assoc(a.x, m.x.y, c.y);
    lemma_mul_assoc(a.y, m.y.x, c.x);
    lemma_mul_assoc(a.y, m.y.y, c.y);
}

/// Over the integers, the product of matrices is associative.
pub proof fn lemma_product_int_associative(a: Mat2<int>, b: Mat2<int>, c: Mat2<int>)
    ensures
        product_int(product_int(a, b), c) == product_int(a, product_int(b, c)),
{
    lemma_row_matrix_column(a.x, b, c.transpose_spec().x);
    lemma_row_matrix_column(a.x, b, c.transpose_spec().y);
    lemma_row_matrix_column(a.y, b, c.transpose_spec().x);
    lemma_row_matrix_column(a.y, b, c.transpose_spec().y);
}

/// Over the integers, a matrix times its adjugate is the determinant on the
/// diagonal and zero elsewhere.
pub proof fn lemma_adjugate_int(m: Mat2<int>)
    ensures
        product_int(m, adjoint_int(m)) == scalar_int(det_int(m)),
{
    lemma_mul_neg(m.x.y, m.y.x);
    lemma_mul_neg(m.x.x, m.x.y);
    lemma_mul_neg(m.y.y, m.y.x);
    lemma_mul_neg(m.y.x, m.x.y);
    lemma_mul_comm(m.x.y, m.x.x);
    lemma_mul_comm(m.y.x, m.y.y);
    lemma_mul_comm(m.y.x, m.x.y);
    lemma_mul_comm(m.y.y, m.x.x);
}

/// Over the integers, a matrix `q` whose entries times `d` are the adjugate of
/// `m`, where `d` is the determinant of `m` and not zero, is the inverse of `m`.
pub proof fn lemma_inverse_int(m: Mat2<int>, q: Mat2<int>)
    requires
        det_int(m) != 0,
        scaled_int(q, det_int(m)) == adjoint_int(m),
    ensures
        product_int(m, q) == scalar_int(1),
{
    let d = det_int(m);
    lemma_adjugate_int(m);
    let p = product_int(m, q);
    lemma_dist2(d, m.x.x * q.x.x, m.x.y * q.y.x);
    lemma_mul_assoc(m.x.x, q.x.x, d);
    lemma_mul_assoc(m.x.y, q.y.x, d);
    lemma_cancel(d, p.x.x, 1);
    lemma_dist2(d, m.x.x * q.x.y, m.x.y * q.y.y);
    lemma_mul_assoc(m.x.x, q.x.y, d);
    lemma_mul_assoc(m.x.y, q.y.y, d);
    lemma_cancel(d, p.x.y, 0);
    lemma_dist2(d, m.y.x * q.x.x, m.y.y * q.y.x);
    lemma_mul_assoc(m.y.x, q.x.x, d);
    lemma_mul_assoc(m.y.y, q.y.x, d);
    lemma_cancel(d, p.y.x, 0);
    lemma_dist2(d, m.y.x * q.x.y, m.y.y * q.y.y);
    lemma_mul_assoc(m.y.x, q.x.y, d);
    lemma_mul_assoc(m.y.y, q.y.y, d);
    lemma_cancel(d, p.y.y, 1);
}

/// Whether the determinant divides every entry of the adjugate: then, and only
/// then, the integer division of `inv` loses nothing.
pub open spec fn divides_adjoint<T: ExactNeg>(m: Mat2<T>) -> bool {
    &&& m.adjoint_spec().x.x.val() % m.det_spec().val() == 0
    &&& m.adjoint_spec().x.y.val() % m.det_spec().val() == 0
    &&& m.adjoint_spec().y.x.val() % m.det_spec().val() == 0
    &&& m.adjoint_spec().y.y.val() % m.det_spec().val() == 0
}

/// The product of matrices is associative: `(a * b) * c` is `a * (b * c)`
/// wherever every operation of both sides is defined.
pub proof fn lemma_product_associative<T: ExactNeg>(a: Mat2<T>, b: Mat2<T>, c: Mat2<T>)
    requires
        a.mul_req(b),
        a.mul_spec(b).mul_req(c),
        b.mul_req(c),
        a.mul_req(b.mul_spec(c)),
    ensures
        a.mul_spec(b).mul_spec(c) == a.mul_spec(b.mul_spec(c)),
{
    T::lemma_scalar();
    lemma_product_exact(a, b);
    lemma_product_exact(a.mul_spec(b), c);
    lemma_product_exact(b, c);
    lemma_product_exact(a, b.mul_spec(c));
    lemma_product_int_associative(mat_val(a), mat_val(b), mat_val(c));
    lemma_val_injective(a.mul_spec(b).mul_spec(c), a.mul_spec(b.mul_spec(c)));
}

/// Two matrices that stand for the same integers are the same matrix.
pub proof fn lemma_val_injective<T: Exact>(a: Mat2<T>, b: Mat2<T>)
    requires
        mat_val(a) == mat_val(b),
    ensures
        a == b,
{
    T::lemma_scalar();
    assert(a.x.x.val() == mat_val(a).x.x);
    assert(b.x.x.val() == mat_val(b).x.x);
    assert(a.x.y.val() == mat_val(a).x.y);
    assert(b.x.y.val() == mat_val(b).x.y);
    assert(a.y.x.val() == mat_val(a).y.x);
    assert(b.y.x.val() == mat_val(b).y.x);
    assert(a.y.y.val() == mat_val(a).y.y);
    assert(b.y.y.val() == mat_val(b).y.y);
}

/// A matrix times its inverse is the identity, wherever the inverse and the
/// product are defined and the determinant divides every entry of the adjugate.
/// Where it does not divide, the division rounds and the product is not the
/// identity.
pub proof fn lemma_inverse<T: ExactNeg>(m: Mat2<T>)
    requires
        m.inv_req(),
        divides_adjoint(m),
        m.mul_req(m.inv_spec()),
    ensures
        m.mul_spec(m.inv_spec()) == Mat2::<T>::ident_spec(),
{
    T::lemma_scalar();
    lemma_det_exact(m);
    lemma_adjoint_exact(m);
    lemma_product_exact(m, m.inv_spec());
    T::lemma_div(m.adjoint_spec().x.x, m.det_spec());
    T::lemma_div(m.adjoint_spec().x.y, m.det_spec());
    T::lemma_div(m.adjoint_spec().y.x, m.det_spec());
    T::lemma_div(m.adjoint_spec().y.y, m.det_spec());
    lemma_inverse_int(mat_val(m), mat_val(m.inv_spec()));
    assert(mat_val(Mat2::<T>::ident_spec()) == scalar_int(1));
    lemma_val_injective(m.mul_spec(m.inv_spec()), Mat2::<T>::ident_spec());
}

} // verus!
