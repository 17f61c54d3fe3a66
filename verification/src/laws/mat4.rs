//! What holds of the matrices of four rows over an exact scalar.

use vstd::prelude::*;
use vstd::std_specs::ops::AddSpec;
use vstd::std_specs::ops::DivSpec;
use vstd::std_specs::ops::MulSpec;
use vstd::std_specs::ops::NegSpec;
use vstd::std_specs::ops::SubSpec;
use crate::exact::Exact;
use crate::exact::ExactNeg;
use crate::laws::ints::lemma_cancel;
use crate::laws::ints::lemma_dist4;
use crate::laws::ints::lemma_dist6;
use crate::laws::ints::lemma_mul_assoc;
use crate::laws::ints::lemma_mul_assoc4;
use crate::laws::ints::lemma_mul_neg;
use crate::laws::ints::lemma_mul_swap4;
use crate::mat4::Mat4;
use crate::traits::Dot;
use crate::vec4::Vec4;

verus! {

/// The integers that a vector stands for.
pub open spec fn vec_val<T: Exact>(v: Vec4<T>) -> Vec4<int> {
    Vec4 { x: v.x.val(), y: v.y.val(), z: v.z.val(), w: v.w.val() }
}

/// The integers that a matrix stands for.
pub open spec fn mat_val<T: Exact>(m: Mat4<T>) -> Mat4<int> {
    Mat4 { x: vec_val(m.x), y: vec_val(m.y), z: vec_val(m.z), w: vec_val(m.w) }
}

/// The dot product of two vectors of integers.
pub open spec fn dot_int(a: Vec4<int>, b: Vec4<int>) -> int {
    a.x * b.x + a.y * b.y + a.z * b.z + a.w * b.w
}

/// Each component negated.
pub open spec fn negated(v: Vec4<int>) -> Vec4<int> {
    Vec4 { x: -v.x, y: -v.y, z: -v.z, w: -v.w }
}

/// The product of a matrix of integers with a vector.
pub open spec fn apply_int(m: Mat4<int>, v: Vec4<int>) -> Vec4<int> {
    Vec4 { x: dot_int(m.x, v), y: dot_int(m.y, v), z: dot_int(m.z, v), w: dot_int(m.w, v) }
}

/// The product of two matrices of integers.
pub open spec fn product_int(a: Mat4<int>, b: Mat4<int>) -> Mat4<int> {
    Mat4 {
        x: Vec4 {
            x: dot_int(a.x, b.transpose_spec().x),
            y: dot_int(a.x, b.transpose_spec().y),
            z: dot_int(a.x, b.transpose_spec().z),
            w: dot_int(a.x, b.transpose_spec().w),
        },
        y: Vec4 {
            x: dot_int(a.y, b.transpose_spec().x),
            y: dot_int(a.y, b.transpose_spec().y),
            z: dot_int(a.y, b.transpose_spec().z),
            w: dot_int(a.y, b.transpose_spec().w),
        },
        z: Vec4 {
            x: dot_int(a.z, b.transpose_spec().x),
            y: dot_int(a.z, b.transpose_spec().y),
            z: dot_int(a.z, b.transpose_spec().z),
            w: dot_int(a.z, b.transpose_spec().w),
        },
        w: Vec4 {
            x: dot_int(a.w, b.transpose_spec().x),
            y: dot_int(a.w, b.transpose_spec().y),
            z: dot_int(a.w, b.transpose_spec().z),
            w: dot_int(a.w, b.transpose_spec().w),
        },
    }
}

/// The matrix with `d` on the diagonal and zero elsewhere.
pub open spec fn scalar_int(d: int) -> Mat4<int> {
    Mat4 {
        x: Vec4 { x: d, y: 0, z: 0, w: 0 },
        y: Vec4 { x: 0, y: d, z: 0, w: 0 },
        z: Vec4 { x: 0, y: 0, z: d, w: 0 },
        w: Vec4 { x: 0, y: 0, z: 0, w: d },
    }
}

/// Each entry of the matrix times `d`.
pub open spec fn scaled_int(m: Mat4<int>, d: int) -> Mat4<int> {
    Mat4 {
        x: Vec4 { x: m.x.x * d, y: m.x.y * d, z: m.x.z * d, w: m.x.w * d },
        y: Vec4 { x: m.y.x * d, y: m.y.y * d, z: m.y.z * d, w: m.y.w * d },
        z: Vec4 { x: m.z.x * d, y: m.z.y * d, z: m.z.z * d, w: m.z.w * d },
        w: Vec4 { x: m.w.x * d, y: m.w.y * d, z: m.w.z * d, w: m.w.w * d },
    }
}

/// For three rows, the four determinants of three of their columns, each with
/// the sign that it has in the expansion of a determinant of four rows along
/// a row above them.
pub open spec fn minors(a: Vec4<int>, b: Vec4<int>, c: Vec4<int>) -> Vec4<int> {
    Vec4 {
        x: a.y * b.z * c.w + a.z * b.w * c.y + a.w * b.y * c.z - a.y * b.w * c.z - a.z * b.y * c.w - a.w * b.z * c.y,
        y: a.x * b.w * c.z + a.z * b.x * c.w + a.w * b.z * c.x - a.x * b.z * c.w - a.z * b.w * c.x - a.w * b.x * c.z,
        z: a.x * b.y * c.w + a.y * b.w * c.x + a.w * b.x * c.y - a.x * b.w * c.y - a.y * b.x * c.w - a.w * b.y * c.x,
        w: a.x * b.z * c.y + a.y * b.x * c.z + a.z * b.y * c.x - a.x * b.y * c.z - a.y * b.z * c.x - a.z * b.x * c.y,
    }
}

/// The determinant of four rows of integers, expanded along the first.
pub open spec fn det_rows(a: Vec4<int>, b: Vec4<int>, c: Vec4<int>, d: Vec4<int>) -> int {
    dot_int(a, minors(b, c, d))
}

/// The determinant of four rows of integers as a sum of twenty-four products.
pub open spec fn det_expanded(a: Vec4<int>, b: Vec4<int>, c: Vec4<int>, d: Vec4<int>) -> int {
    a.x * b.y * c.z * d.w
        + a.x * b.z * c.w * d.y
        + a.x * b.w * c.y * d.z
        + a.y * b.x * c.w * d.z
        + a.y * b.z * c.x * d.w
        + a.y * b.w * c.z * d.x
        + a.z * b.x * c.y * d.w
        + a.z * b.y * c.w * d.x
        + a.z * b.w * c.x * d.y
        + a.w * b.x * c.z * d.y
        + a.w * b.y * c.x * d.z
        + a.w * b.z * c.y * d.x
        - a.x * b.y * c.w * d.z
        - a.x * b.z * c.y * d.w
        - a.x * b.w * c.z * d.y
        - a.y * b.x * c.z * d.w
        - a.y * b.z * c.w * d.x
        - a.y * b.w * c.x * d.z
        - a.z * b.x * c.w * d.y
        - a.z * b.y * c.x * d.w
        - a.z * b.w * c.y * d.x
        - a.w * b.x * c.y * d.z
        - a.w * b.y * c.z * d.x
        - a.w * b.z * c.x * d.y
}

/// The determinant of a matrix of integers.
pub open spec fn det_int(m: Mat4<int>) -> int {
    det_rows(m.x, m.y, m.z, m.w)
}

/// The adjugate of a matrix of integers: its columns are the minors of the
/// three rows that are left without one, with alternating sign.
pub open spec fn adjoint_int(m: Mat4<int>) -> Mat4<int> {
    Mat4 {
        x: minors(m.y, m.z, m.w),
        y: negated(minors(m.x, m.z, m.w)),
        z: minors(m.x, m.y, m.w),
        w: negated(minors(m.x, m.y, m.z)),
    }.transpose_spec()
}

/// The expansion along the first row, multiplied out.
proof fn lemma_expand(a: Vec4<int>, b: Vec4<int>, c: Vec4<int>, d: Vec4<int>)
    ensures
        det_rows(a, b, c, d) == det_expanded(a, b, c, d),
{
    lemma_dist6(a.x, b.y * c.z * d.w, b.z * c.w * d.y, b.w * c.y * d.z, b.y * c.w * d.z, b.z * c.y * d.w, b.w * c.z * d.y);
    lemma_mul_assoc4(a.x, b.y, c.z, d.w);
    lemma_mul_assoc4(a.x, b.z, c.w, d.y);
    lemma_mul_assoc4(a.x, b.w, c.y, d.z);
    lemma_mul_assoc4(a.x, b.y, c.w, d.z);
    lemma_mul_assoc4(a.x, b.z, c.y, d.w);
    lemma_mul_assoc4(a.x, b.w, c.z, d.y);
    lemma_dist6(a.y, b.x * c.w * d.z, b.z * c.x * d.w, b.w * c.z * d.x, b.x * c.z * d.w, b.z * c.w * d.x, b.w * c.x * d.z);
    lemma_mul_assoc4(a.y, b.x, c.w, d.z);
    lemma_mul_assoc4(a.y, b.z, c.x, d.w);
    lemma_mul_assoc4(a.y, b.w, c.z, d.x);
    lemma_mul_assoc4(a.y, b.x, c.z, d.w);
    lemma_mul_assoc4(a.y, b.z, c.w, d.x);
    lemma_mul_assoc4(a.y, b.w, c.x, d.z);
    lemma_dist6(a.z, b.x * c.y * d.w, b.y * c.w * d.x, b.w * c.x * d.y, b.x * c.w * d.y, b.y * c.x * d.w, b.w * c.y * d.x);
    lemma_mul_assoc4(a.z, b.x, c.y, d.w);
    lemma_mul_assoc4(a.z, b.y, c.w, d.x);
    lemma_mul_assoc4(a.z, b.w, c.x, d.y);
    lemma_mul_assoc4(a.z, b.x, c.w, d.y);
    lemma_mul_assoc4(a.z, b.y, c.x, d.w);
    lemma_mul_assoc4(a.z, b.w, c.y, d.x);
    lemma_dist6(a.w, b.x * c.z * d.y, b.y * c.x * d.z, b.z * c.y * d.x, b.x * c.y * d.z, b.y * c.z * d.x, b.z * c.x * d.y);
    lemma_mul_assoc4(a.w, b.x, c.z, d.y);
    lemma_mul_assoc4(a.w, b.y, c.x, d.z);
    lemma_mul_assoc4(a.w, b.z, c.y, d.x);
    lemma_mul_assoc4(a.w, b.x, c.y, d.z);
    lemma_mul_assoc4(a.w, b.y, c.z, d.x);
    lemma_mul_assoc4(a.w, b.z, c.x, d.y);
}

/// The determinant changes sign when the first two rows change places.
proof fn lemma_swap_first(a: Vec4<int>, b: Vec4<int>, c: Vec4<int>, d: Vec4<int>)
    ensures
        det_rows(a, b, c, d) == -det_rows(b, a, c, d),
{
    lemma_expand(a, b, c, d);
    lemma_expand(b, a, c, d);
    lemma_mul_swap4(a.x, b.y, c.z, d.w);
    lemma_mul_swap4(a.x, b.z, c.w, d.y);
    lemma_mul_swap4(a.x, b.w, c.y, d.z);
    lemma_mul_swap4(a.y, b.x, c.w, d.z);
    lemma_mul_swap4(a.y, b.z, c.x, d.w);
    lemma_mul_swap4(a.y, b.w, c.z, d.x);
    lemma_mul_swap4(a.z, b.x, c.y, d.w);
    lemma_mul_swap4(a.z, b.y, c.w, d.x);
    lemma_mul_swap4(a.z, b.w, c.x, d.y);
    lemma_mul_swap4(a.w, b.x, c.z, d.y);
    lemma_mul_swap4(a.w, b.y, c.x, d.z);
    lemma_mul_swap4(a.w, b.z, c.y, d.x);
    lemma_mul_swap4(a.x, b.y, c.w, d.z);
    lemma_mul_swap4(a.x, b.z, c.y, d.w);
    lemma_mul_swap4(a.x, b.w, c.z, d.y);
    lemma_mul_swap4(a.y, b.x, c.z, d.w);
    lemma_mul_swap4(a.y, b.z, c.w, d.x);
    lemma_mul_swap4(a.y, b.w, c.x, d.z);
    lemma_mul_swap4(a.z, b.x, c.w, d.y);
    lemma_mul_swap4(a.z, b.y, c.x, d.w);
    lemma_mul_swap4(a.z, b.w, c.y, d.x);
    lemma_mul_swap4(a.w, b.x, c.y, d.z);
    lemma_mul_swap4(a.w, b.y, c.z, d.x);
    lemma_mul_swap4(a.w, b.z, c.x, d.y);
}

/// The determinant changes sign when the second and third rows change places.
proof fn lemma_swap_second(a: Vec4<int>, b: Vec4<int>, c: Vec4<int>, d: Vec4<int>)
    ensures
        det_rows(a, b, c, d) == -det_rows(a, c, b, d),
{
    lemma_expand(a, b, c, d);
    lemma_expand(a, c, b, d);
    lemma_mul_swap4(a.x, b.y, c.z, d.w);
    lemma_mul_swap4(a.x, b.z, c.w, d.y);
    lemma_mul_swap4(a.x, b.w, c.y, d.z);
    lemma_mul_swap4(a.y, b.x, c.w, d.z);
    lemma_mul_swap4(a.y, b.z, c.x, d.w);
    lemma_mul_swap4(a.y, b.w, c.z, d.x);
    lemma_mul_swap4(a.z, b.x, c.y, d.w);
    lemma_mul_swap4(a.z, b.y, c.w, d.x);
    lemma_mul_swap4(a.z, b.w, c.x, d.y);
    lemma_mul_swap4(a.w, b.x, c.z, d.y);
    lemma_mul_swap4(a.w, b.y, c.x, d.z);
    lemma_mul_swap4(a.w, b.z, c.y, d.x);
    lemma_mul_swap4(a.x, b.y, c.w, d.z);
    lemma_mul_swap4(a.x, b.z, c.y, d.w);
    lemma_mul_swap4(a.x, b.w, c.z, d.y);
    lemma_mul_swap4(a.y, b.x, c.z, d.w);
    lemma_mul_swap4(a.y, b.z, c.w, d.x);
    lemma_mul_swap4(a.y, b.w, c.x, d.z);
    lemma_mul_swap4(a.z, b.x, c.w, d.y);
    lemma_mul_swap4(a.z, b.y, c.x, d.w);
    lemma_mul_swap4(a.z, b.w, c.y, d.x);
    lemma_mul_swap4(a.w, b.x, c.y, d.z);
    lemma_mul_swap4(a.w, b.y, c.z, d.x);
    lemma_mul_swap4(a.w, b.z, c.x, d.y);
}

/// The determinant changes sign when the last two rows change places.
proof fn lemma_swap_third(a: Vec4<int>, b: Vec4<int>, c: Vec4<int>, d: Vec4<int>)
    ensures
        det_rows(a, b, c, d) == -det_rows(a, b, d, c),
{
    lemma_expand(a, b, c, d);
    lemma_expand(a, b, d, c);
    lemma_mul_swap4(a.x, b.y, c.z, d.w);
    lemma_mul_swap4(a.x, b.z, c.w, d.y);
    lemma_mul_swap4(a.x, b.w, c.y, d.z);
    lemma_mul_swap4(a.y, b.x, c.w, d.z);
    lemma_mul_swap4(a.y, b.z, c.x, d.w);
    lemma_mul_swap4(a.y, b.w, c.z, d.x);
    lemma_mul_swap4(a.z, b.x, c.y, d.w);
    lemma_mul_swap4(a.z, b.y, c.w, d.x);
    lemma_mul_swap4(a.z, b.w, c.x, d.y);
    lemma_mul_swap4(a.w, b.x, c.z, d.y);
    lemma_mul_swap4(a.w, b.y, c.x, d.z);
    lemma_mul_swap4(a.w, b.z, c.y, d.x);
    lemma_mul_swap4(a.x, b.y, c.w, d.z);
    lemma_mul_swap4(a.x, b.z, c.y, d.w);
    lemma_mul_swap4(a.x, b.w, c.z, d.y);
    lemma_mul_swap4(a.y, b.x, c.z, d.w);
    lemma_mul_swap4(a.y, b.z, c.w, d.x);
    lemma_mul_swap4(a.y, b.w, c.x, d.z);
    lemma_mul_swap4(a.z, b.x, c.w, d.y);
    lemma_mul_swap4(a.z, b.y, c.x, d.w);
    lemma_mul_swap4(a.z, b.w, c.y, d.x);
    lemma_mul_swap4(a.w, b.x, c.y, d.z);
    lemma_mul_swap4(a.w, b.y, c.z, d.x);
    lemma_mul_swap4(a.w, b.z, c.x, d.y);
}

/// The determinant of four rows of which the first stands a second time is zero.
proof fn lemma_repeated(a: Vec4<int>, b: Vec4<int>, c: Vec4<int>, d: Vec4<int>)
    requires
        a == b || a == c || a == d,
    ensures
        det_rows(a, b, c, d) == 0,
{
    if a == b {
        lemma_swap_first(a, b, c, d);
    } else if a == c {
        lemma_swap_second(a, b, c, d);
        lemma_swap_first(a, c, b, d);
    } else {
        lemma_swap_third(a, b, c, d);
        lemma_swap_second(a, b, d, c);
        lemma_swap_first(a, d, b, c);
    }
}

/// The dot product with a negated vector is the negated dot product.
proof fn lemma_dot_negated(a: Vec4<int>, v: Vec4<int>)
    ensures
        dot_int(a, negated(v)) == -dot_int(a, v),
{
    lemma_mul_neg(a.x, v.x);
    lemma_mul_neg(a.y, v.y);
    lemma_mul_neg(a.z, v.z);
    lemma_mul_neg(a.w, v.w);
}

/// Over the integers, a matrix times its adjugate is the determinant on the
/// diagonal and zero elsewhere.
pub proof fn lemma_adjugate_int(m: Mat4<int>)
    ensures
        product_int(m, adjoint_int(m)) == scalar_int(det_int(m)),
{
    let Mat4 { x, y, z, w } = m;
    let c = adjoint_int(m).transpose_spec();
    assert(c.x == minors(y, z, w));
    assert(c.y == negated(minors(x, z, w)));
    assert(c.z == minors(x, y, w));
    assert(c.w == negated(minors(x, y, z)));
    // the first column
    lemma_repeated(y, y, z, w);
    lemma_repeated(z, y, z, w);
    lemma_repeated(w, y, z, w);
    // the second
    lemma_dot_negated(x, minors(x, z, w));
    lemma_dot_negated(y, minors(x, z, w));
    lemma_dot_negated(z, minors(x, z, w));
    lemma_dot_negated(w, minors(x, z, w));
    lemma_repeated(x, x, z, w);
    lemma_swap_first(y, x, z, w);
    lemma_repeated(z, x, z, w);
    lemma_repeated(w, x, z, w);
    // the third
    lemma_repeated(x, x, y, w);
    lemma_repeated(y, x, y, w);
    lemma_swap_first(z, x, y, w);
    lemma_swap_second(x, z, y, w);
    lemma_repeated(w, x, y, w);
    // the fourth
    lemma_dot_negated(x, minors(x, y, z));
    lemma_dot_negated(y, minors(x, y, z));
    lemma_dot_negated(z, minors(x, y, z));
    lemma_dot_negated(w, minors(x, y, z));
    lemma_repeated(x, x, y, z);
    lemma_repeated(y, x, y, z);
    lemma_repeated(z, x, y, z);
    lemma_swap_first(w, x, y, z);
    lemma_swap_second(x, w, y, z);
    lemma_swap_third(x, y, w, z);
}

/// Over the integers, a row times a matrix times a column is the same whichever
/// product is taken first.
proof fn lemma_row_matrix_column(a: Vec4<int>, m: Mat4<int>, c: Vec4<int>)
    ensures
        dot_int(
            Vec4 {
                x: dot_int(a, m.transpose_spec().x),
                y: dot_int(a, m.transpose_spec().y),
                z: dot_int(a, m.transpose_spec().z),
                w: dot_int(a, m.transpose_spec().w),
            },
            c,
        ) == dot_int(a, apply_int(m, c)),
{
    lemma_dist4(c.x, a.x * m.x.x, a.y * m.y.x, a.z * m.z.x, a.w * m.w.x);
    lemma_dist4(c.y, a.x * m.x.y, a.y * m.y.y, a.z * m.z.y, a.w * m.w.y);
    lemma_dist4(c.z, a.x * m.x.z, a.y * m.y.z, a.z * m.z.z, a.w * m.w.z);
    lemma_dist4(c.w, a.x * m.x.w, a.y * m.y.w, a.z * m.z.w, a.w * m.w.w);
    lemma_dist4(a.x, m.x.x * c.x, m.x.y * c.y, m.x.z * c.z, m.x.w * c.w);
    lemma_dist4(a.y, m.y.x * c.x, m.y.y * c.y, m.y.z * c.z, m.y.w * c.w);
    lemma_dist4(a.z, m.z.x * c.x, m.z.y * c.y, m.z.z * c.z, m.z.w * c.w);
    lemma_dist4(a.w, m.w.x * c.x, m.w.y * c.y, m.w.z * c.z, m.w.w * c.w);
    lemma_mul_assoc(a.x, m.x.x, c.x);
    lemma_mul_assoc(a.x, m.x.y, c.y);
    lemma_mul_assoc(a.x, m.x.z, c.z);
    lemma_mul_assoc(a.x, m.x.w, c.w);
    lemma_mul_assoc(a.y, m.y.x, c.x);
    lemma_mul_assoc(a.y, m.y.y, c.y);
    lemma_mul_assoc(a.y, m.y.z, c.z);
    lemma_mul_assoc(a.y, m.y.w, c.w);
    lemma_mul_assoc(a.z, m.z.x, c.x);
    lemma_mul_assoc(a.z, m.z.y, c.y);
    lemma_mul_assoc(a.z, m.z.z, c.z);
    lemma_mul_assoc(a.z, m.z.w, c.w);
    lemma_mul_assoc(a.w, m.w.x, c.x);
    lemma_mul_assoc(a.w, m.w.y, c.y);
    lemma_mul_assoc(a.w, m.w.z, c.z);
    lemma_mul_assoc(a.w, m.w.w, c.w);
}

/// Over the integers, the product of matrices is associative.
pub proof fn lemma_product_int_associative(a: Mat4<int>, b: Mat4<int>, c: Mat4<int>)
    ensures
        product_int(product_int(a, b), c) == product_int(a, product_int(b, c)),
{
    lemma_row_matrix_column(a.x, b, c.transpose_spec().x);
    lemma_row_matrix_column(a.x, b, c.transpose_spec().y);
    lemma_row_matrix_column(a.x, b, c.transpose_spec().z);
    lemma_row_matrix_column(a.x, b, c.transpose_spec().w);
    lemma_row_matrix_column(a.y, b, c.transpose_spec().x);
    lemma_row_matrix_column(a.y, b, c.transpose_spec().y);
    lemma_row_matrix_column(a.y, b, c.transpose_spec().z);
    lemma_row_matrix_column(a.y, b, c.transpose_spec().w);
    lemma_row_matrix_column(a.z, b, c.transpose_spec().x);
    lemma_row_matrix_column(a.z, b, c.transpose_spec().y);
    lemma_row_matrix_column(a.z, b, c.transpose_spec().z);
    lemma_row_matrix_column(a.z, b, c.transpose_spec().w);
    lemma_row_matrix_column(a.w, b, c.transpose_spec().x);
    lemma_row_matrix_column(a.w, b, c.transpose_spec().y);
    lemma_row_matrix_column(a.w, b, c.transpose_spec().z);
    lemma_row_matrix_column(a.w, b, c.transpose_spec().w);
}

/// Over the integers, a matrix `q` whose entries times `d` are the adjugate of
/// `m`, where `d` is the determinant of `m` and not zero, is the inverse of `m`.
pub proof fn lemma_inverse_int(m: Mat4<int>, q: Mat4<int>)
    requires
        det_int(m) != 0,
        scaled_int(q, det_int(m)) == adjoint_int(m),
    ensures
        product_int(m, q) == scalar_int(1),
{
    let d = det_int(m);
    lemma_adjugate_int(m);
    let p = product_int(m, q);
    lemma_dist4(d, m.x.x * q.x.x, m.x.y * q.y.x, m.x.z * q.z.x, m.x.w * q.w.x);
    lemma_mul_assoc(m.x.x, q.x.x, d);
    lemma_mul_assoc(m.x.y, q.y.x, d);
    lemma_mul_assoc(m.x.z, q.z.x, d);
    lemma_mul_assoc(m.x.w, q.w.x, d);
    lemma_cancel(d, p.x.x, 1);
    lemma_dist4(d, m.x.x * q.x.y, m.x.y * q.y.y, m.x.z * q.z.y, m.x.w * q.w.y);
    lemma_mul_assoc(m.x.x, q.x.y, d);
    lemma_mul_assoc(m.x.y, q.y.y, d);
    lemma_mul_assoc(m.x.z, q.z.y, d);
    lemma_mul_assoc(m.x.w, q.w.y, d);
    lemma_cancel(d, p.x.y, 0);
    lemma_dist4(d, m.x.x * q.x.z, m.x.y * q.y.z, m.x.z * q.z.z, m.x.w * q.w.z);
    lemma_mul_assoc(m.x.x, q.x.z, d);
    lemma_mul_assoc(m.x.y, q.y.z, d);
    lemma_mul_assoc(m.x.z, q.z.z, d);
    lemma_mul_assoc(m.x.w, q.w.z, d);
    lemma_cancel(d, p.x.z, 0);
    lemma_dist4(d, m.x.x * q.x.w, m.x.y * q.y.w, m.x.z * q.z.w, m.x.w * q.w.w);
    lemma_mul_assoc(m.x.x, q.x.w, d);
    lemma_mul_assoc(m.x.y, q.y.w, d);
    lemma_mul_assoc(m.x.z, q.z.w, d);
    lemma_mul_assoc(m.x.w, q.w.w, d);
    lemma_cancel(d, p.x.w, 0);
    lemma_dist4(d, m.y.x * q.x.x, m.y.y * q.y.x, m.y.z * q.z.x, m.y.w * q.w.x);
    lemma_mul_assoc(m.y.x, q.x.x, d);
    lemma_mul_assoc(m.y.y, q.y.x, d);
    lemma_mul_assoc(m.y.z, q.z.x, d);
    lemma_mul_assoc(m.y.w, q.w.x, d);
    lemma_cancel(d, p.y.x, 0);
    lemma_dist4(d, m.y.x * q.x.y, m.y.y * q.y.y, m.y.z * q.z.y, m.y.w * q.w.y);
    lemma_mul_assoc(m.y.x, q.x.y, d);
    lemma_mul_assoc(m.y.y, q.y.y, d);
    lemma_mul_assoc(m.y.z, q.z.y, d);
    lemma_mul_assoc(m.y.w, q.w.y, d);
    lemma_cancel(d, p.y.y, 1);
    lemma_dist4(d, m.y.x * q.x.z, m.y.y * q.y.z, m.y.z * q.z.z, m.y.w * q.w.z);
    lemma_mul_assoc(m.y.x, q.x.z, d);
    lemma_mul_assoc(m.y.y, q.y.z, d);
    lemma_mul_assoc(m.y.z, q.z.z, d);
    lemma_mul_assoc(m.y.w, q.w.z, d);
    lemma_cancel(d, p.y.z, 0);
    lemma_dist4(d, m.y.x * q.x.w, m.y.y * q.y.w, m.y.z * q.z.w, m.y.w * q.w.w);
    lemma_mul_assoc(m.y.x, q.x.w, d);
    lemma_mul_assoc(m.y.y, q.y.w, d);
    lemma_mul_assoc(m.y.z, q.z.w, d);
    lemma_mul_assoc(m.y.w, q.w.w, d);
    lemma_cancel(d, p.y.w, 0);
    lemma_dist4(d, m.z.x * q.x.x, m.z.y * q.y.x, m.z.z * q.z.x, m.z.w * q.w.x);
    lemma_mul_assoc(m.z.x, q.x.x, d);
    lemma_mul_assoc(m.z.y, q.y.x, d);
    lemma_mul_assoc(m.z.z, q.z.x, d);
    lemma_mul_assoc(m.z.w, q.w.x, d);
    lemma_cancel(d, p.z.x, 0);
    lemma_dist4(d, m.z.x * q.x.y, m.z.y * q.y.y, m.z.z * q.z.y, m.z.w * q.w.y);
    lemma_mul_assoc(m.z.x, q.x.y, d);
    lemma_mul_assoc(m.z.y, q.y.y, d);
    lemma_mul_assoc(m.z.z, q.z.y, d);
    lemma_mul_assoc(m.z.w, q.w.y, d);
    lemma_cancel(d, p.z.y, 0);
    lemma_dist4(d, m.z.x * q.x.z, m.z.y * q.y.z, m.z.z * q.z.z, m.z.w * q.w.z);
    lemma_mul_assoc(m.z.x, q.x.z, d);
    lemma_mul_assoc(m.z.y, q.y.z, d);
    lemma_mul_assoc(m.z.z, q.z.z, d);
    lemma_mul_assoc(m.z.w, q.w.z, d);
    lemma_cancel(d, p.z.z, 1);
    lemma_dist4(d, m.z.x * q.x.w, m.z.y * q.y.w, m.z.z * q.z.w, m.z.w * q.w.w);
    lemma_mul_assoc(m.z.x, q.x.w, d);
    lemma_mul_assoc(m.z.y, q.y.w, d);
    lemma_mul_assoc(m.z.z, q.z.w, d);
    lemma_mul_assoc(m.z.w, q.w.w, d);
    lemma_cancel(d, p.z.w, 0);
    lemma_dist4(d, m.w.x * q.x.x, m.w.y * q.y.x, m.w.z * q.z.x, m.w.w * q.w.x);
    lemma_mul_assoc(m.w.x, q.x.x, d);
    lemma_mul_assoc(m.w.y, q.y.x, d);
    lemma_mul_assoc(m.w.z, q.z.x, d);
    lemma_mul_assoc(m.w.w, q.w.x, d);
    lemma_cancel(d, p.w.x, 0);
    lemma_dist4(d, m.w.x * q.x.y, m.w.y * q.y.y, m.w.z * q.z.y, m.w.w * q.w.y);
    lemma_mul_assoc(m.w.x, q.x.y, d);
    lemma_mul_assoc(m.w.y, q.y.y, d);
    lemma_mul_assoc(m.w.z, q.z.y, d);
    lemma_mul_assoc(m.w.w, q.w.y, d);
    lemma_cancel(d, p.w.y, 0);
    lemma_dist4(d, m.w.x * q.x.z, m.w.y * q.y.z, m.w.z * q.z.z, m.w.w * q.w.z);
    lemma_mul_assoc(m.w.x, q.x.z, d);
    lemma_mul_assoc(m.w.y, q.y.z, d);
    lemma_mul_assoc(m.w.z, q.z.z, d);
    lemma_mul_assoc(m.w.w, q.w.z, d);
    lemma_cancel(d, p.w.z, 0);
    lemma_dist4(d, m.w.x * q.x.w, m.w.y * q.y.w, m.w.z * q.z.w, m.w.w * q.w.w);
    lemma_mul_assoc(m.w.x, q.x.w, d);
    lemma_mul_assoc(m.w.y, q.y.w, d);
    lemma_mul_assoc(m.w.z, q.z.w, d);
    lemma_mul_assoc(m.w.w, q.w.w, d);
    lemma_cancel(d, p.w.w, 1);
}

/// A dot product that is defined is the dot product of the integers.
pub proof fn lemma_dot_exact<T: Exact>(a: Vec4<T>, b: Vec4<T>)
    requires
        a.dot_req(&b),
    ensures
        a.dot_spec(&b).val() == dot_int(vec_val(a), vec_val(b)),
{
    T::lemma_scalar();
    T::lemma_ring();
}

/// A product with a vector that is defined is the product of the integers.
pub proof fn lemma_apply_exact<T: Exact>(m: Mat4<T>, v: Vec4<T>)
    requires
        m.apply_to_req(v),
    ensures
        vec_val(m.apply_to_spec(v)) == apply_int(mat_val(m), vec_val(v)),
{
    lemma_dot_exact(m.x, v);
    lemma_dot_exact(m.y, v);
    lemma_dot_exact(m.z, v);
    lemma_dot_exact(m.w, v);
}

/// A product of matrices that is defined is the product of the integers.
pub proof fn lemma_product_exact<T: Exact>(a: Mat4<T>, b: Mat4<T>)
    requires
        a.mul_req(b),
    ensures
        mat_val(a.mul_spec(b)) == product_int(mat_val(a), mat_val(b)),
{
    lemma_dot_exact(a.x, b.transpose_spec().x);
    lemma_dot_exact(a.x, b.transpose_spec().y);
    lemma_dot_exact(a.x, b.transpose_spec().z);
    lemma_dot_exact(a.x, b.transpose_spec().w);
    lemma_dot_exact(a.y, b.transpose_spec().x);
    lemma_dot_exact(a.y, b.transpose_spec().y);
    lemma_dot_exact(a.y, b.transpose_spec().z);
    lemma_dot_exact(a.y, b.transpose_spec().w);
    lemma_dot_exact(a.z, b.transpose_spec().x);
    lemma_dot_exact(a.z, b.transpose_spec().y);
    lemma_dot_exact(a.z, b.transpose_spec().z);
    lemma_dot_exact(a.z, b.transpose_spec().w);
    lemma_dot_exact(a.w, b.transpose_spec().x);
    lemma_dot_exact(a.w, b.transpose_spec().y);
    lemma_dot_exact(a.w, b.transpose_spec().z);
    lemma_dot_exact(a.w, b.transpose_spec().w);
}

/// A determinant that is defined is the determinant of the integers.
pub proof fn lemma_det_exact<T: Exact>(m: Mat4<T>)
    requires
        m.det_req(),
    ensures
        m.det_spec().val() == det_int(mat_val(m)),
{
    T::lemma_scalar();
    T::lemma_ring();
    let i = mat_val(m);
    lemma_expand(i.x, i.y, i.z, i.w);
}

/// An adjugate that is defined is the adjugate of the integers.
pub proof fn lemma_adjoint_exact<T: ExactNeg>(m: Mat4<T>)
    requires
        m.cofactor_req(),
    ensures
        mat_val(m.adjoint_spec()) == adjoint_int(mat_val(m)),
{
    T::lemma_scalar();
    T::lemma_ring();
}

/// Two matrices that stand for the same integers are the same matrix.
pub proof fn lemma_val_injective<T: Exact>(a: Mat4<T>, b: Mat4<T>)
    requires
        mat_val(a) == mat_val(b),
    ensures
        a == b,
{
    T::lemma_scalar();
    assert(a.x.x.val() == mat_val(a).x.x);
    assert(b.x.x.val() == mat_val(b).x.x);
    assert(a.x.y.val() == mat_val(a).x.y);
    assert(b.x.y.val() == mat_val(b).x.y);
    assert(a.x.z.val() == mat_val(a).x.z);
    assert(b.x.z.val() == mat_val(b).x.z);
    assert(a.x.w.val() == mat_val(a).x.w);
    assert(b.x.w.val() == mat_val(b).x.w);
    assert(a.y.x.val() == mat_val(a).y.x);
    assert(b.y.x.val() == mat_val(b).y.x);
    assert(a.y.y.val() == mat_val(a).y.y);
    assert(b.y.y.val() == mat_val(b).y.y);
    assert(a.y.z.val() == mat_val(a).y.z);
    assert(b.y.z.val() == mat_val(b).y.z);
    assert(a.y.w.val() == mat_val(a).y.w);
    assert(b.y.w.val() == mat_val(b).y.w);
    assert(a.z.x.val() == mat_val(a).z.x);
    assert(b.z.x.val() == mat_val(b).z.x);
    assert(a.z.y.val() == mat_val(a).z.y);
    assert(b.z.y.val() == mat_val(b).z.y);
    assert(a.z.z.val() == mat_val(a).z.z);
    assert(b.z.z.val() == mat_val(b).z.z);
    assert(a.z.w.val() == mat_val(a).z.w);
    assert(b.z.w.val() == mat_val(b).z.w);
    assert(a.w.x.val() == mat_val(a).w.x);
    assert(b.w.x.val() == mat_val(b).w.x);
    assert(a.w.y.val() == mat_val(a).w.y);
    assert(b.w.y.val() == mat_val(b).w.y);
    assert(a.w.z.val() == mat_val(a).w.z);
    assert(b.w.z.val() == mat_val(b).w.z);
    assert(a.w.w.val() == mat_val(a).w.w);
    assert(b.w.w.val() == mat_val(b).w.w);
}

/// Whether the determinant divides every entry of the adjugate: then, and only
/// then, the integer division of `inv` loses nothing.
pub open spec fn divides_adjoint<T: ExactNeg>(m: Mat4<T>) -> bool {
    &&& m.adjoint_spec().x.x.val() % m.det_spec().val() == 0
    &&& m.adjoint_spec().x.y.val() % m.det_spec().val() == 0
    &&& m.adjoint_spec().x.z.val() % m.det_spec().val() == 0
    &&& m.adjoint_spec().x.w.val() % m.det_spec().val() == 0
    &&& m.adjoint_spec().y.x.val() % m.det_spec().val() == 0
    &&& m.adjoint_spec().y.y.val() % m.det_spec().val() == 0
    &&& m.adjoint_spec().y.z.val() % m.det_spec().val() == 0
    &&& m.adjoint_spec().y.w.val() % m.det_spec().val() == 0
    &&& m.adjoint_spec().z.x.val() % m.det_spec().val() == 0
    &&& m.adjoint_spec().z.y.val() % m.det_spec().val() == 0
    &&& m.adjoint_spec().z.z.val() % m.det_spec().val() == 0
    &&& m.adjoint_spec().z.w.val() % m.det_spec().val() == 0
    &&& m.adjoint_spec().w.x.val() % m.det_spec().val() == 0
    &&& m.adjoint_spec().w.y.val() % m.det_spec().val() == 0
    &&& m.adjoint_spec().w.z.val() % m.det_spec().val() == 0
    &&& m.adjoint_spec().w.w.val() % m.det_spec().val() == 0
}

/// The product of matrices is associative: `(a * b) * c` is `a * (b * c)`
/// wherever every operation of both sides is defined.
pub proof fn lemma_product_associative<T: Exact>(a: Mat4<T>, b: Mat4<T>, c: Mat4<T>)
    requires
        a.mul_req(b),
        a.mul_spec(b).mul_req(c),
        b.mul_req(c),
        a.mul_req(b.mul_spec(c)),
    ensures
        a.mul_spec(b).mul_spec(c) == a.mul_spec(b.mul_spec(c)),
{
    T::lemma_scalar();
    lemma_product_exact(a, b);
    lemma_product_exact(a.mul_spec(b), c);
    lemma_product_exact(b, c);
    lemma_product_exact(a, b.mul_spec(c));
    lemma_product_int_associative(mat_val(a), mat_val(b), mat_val(c));
    lemma_val_injective(a.mul_spec(b).mul_spec(c), a.mul_spec(b.mul_spec(c)));
}

/// A matrix times its inverse is the identity, wherever the inverse and the
/// product are defined and the determinant divides every entry of the adjugate.
/// Where it does not divide, the division rounds and the product is not the
/// identity.
pub proof fn lemma_inverse<T: ExactNeg>(m: Mat4<T>)
    requires
        m.inv_req(),
        divides_adjoint(m),
        m.mul_req(m.inv_spec()),
    ensures
        m.mul_spec(m.inv_spec()) == Mat4::<T>::ident_spec(),
{
    T::lemma_scalar();
    lemma_det_exact(m);
    lemma_adjoint_exact(m);
    lemma_product_exact(m, m.inv_spec());
    T::lemma_div(m.adjoint_spec().x.x, m.det_spec());
    T::lemma_div(m.adjoint_spec().x.y, m.det_spec());
    T::lemma_div(m.adjoint_spec().x.z, m.det_spec());
    T::lemma_div(m.adjoint_spec().x.w, m.det_spec());
    T::lemma_div(m.adjoint_spec().y.x, m.det_spec());
    T::lemma_div(m.adjoint_spec().y.y, m.det_spec());
    T::lemma_div(m.adjoint_spec().y.z, m.det_spec());
    T::lemma_div(m.adjoint_spec().y.w, m.det_spec());
    T::lemma_div(m.adjoint_spec().z.x, m.det_spec());
    T::lemma_div(m.adjoint_spec().z.y, m.det_spec());
    T::lemma_div(m.adjoint_spec().z.z, m.det_spec());
    T::lemma_div(m.adjoint_spec().z.w, m.det_spec());
    T::lemma_div(m.adjoint_spec().w.x, m.det_spec());
    T::lemma_div(m.adjoint_spec().w.y, m.det_spec());
    T::lemma_div(m.adjoint_spec().w.z, m.det_spec());
    T::lemma_div(m.adjoint_spec().w.w, m.det_spec());
    lemma_inverse_int(mat_val(m), mat_val(m.inv_spec()));
    assert(mat_val(Mat4::<T>::ident_spec()) == scalar_int(1));
    lemma_val_injective(m.mul_spec(m.inv_spec()), Mat4::<T>::ident_spec());
}

} // verus!
