//! Small facts of the integers that the solver does not find by itself:
//! products spread over sums, and the factors of a product regrouped.

use vstd::prelude::*;

verus! {

/// `(a * b) * c` is `a * (b * c)`.
pub proof fn lemma_mul_assoc(a: int, b: int, c: int)
    ensures
        (a * b) * c == a * (b * c),
{
    assert((a * b) * c == a * (b * c)) by (nonlinear_arith);
}

/// `a * b` is `b * a`.
pub proof fn lemma_mul_comm(a: int, b: int)
    ensures
        a * b == b * a,
{
    assert(a * b == b * a) by (nonlinear_arith);
}

/// `a * (b * c)` with its factors in other places.
pub proof fn lemma_mul_regroup(a: int, b: int, c: int)
    ensures
        a * (b * c) == b * (c * a),
        a * (b * c) == b * (a * c),
        a * (b * c) == c * (b * a),
{
    assert(a * (b * c) == b * (c * a)) by (nonlinear_arith);
    assert(a * (b * c) == b * (a * c)) by (nonlinear_arith);
    assert(a * (b * c) == c * (b * a)) by (nonlinear_arith);
}

/// `a * ((b * c) * d)` is `((a * b) * c) * d`.
pub proof fn lemma_mul_assoc4(a: int, b: int, c: int, d: int)
    ensures
        a * ((b * c) * d) == ((a * b) * c) * d,
{
    lemma_mul_assoc(b, c, d);
    lemma_mul_assoc(a, b, c * d);
    lemma_mul_assoc(a * b, c, d);
}

/// `((a * b) * c) * d` with two of its factors in each other's place.
pub proof fn lemma_mul_swap4(a: int, b: int, c: int, d: int)
    ensures
        ((a * b) * c) * d == ((b * a) * c) * d,
        ((a * b) * c) * d == ((a * c) * b) * d,
        ((a * b) * c) * d == ((a * b) * d) * c,
{
    lemma_mul_comm(a, b);
    lemma_mul_assoc(a, b, c);
    lemma_mul_assoc(a, c, b);
    lemma_mul_comm(b, c);
    lemma_mul_assoc(a * b, c, d);
    lemma_mul_assoc(a * b, d, c);
    lemma_mul_comm(c, d);
}

/// `a * (-b)` and `(-a) * b` are `-(a * b)`.
pub proof fn lemma_mul_neg(a: int, b: int)
    ensures
        a * (-b) == -(a * b),
        (-a) * b == -(a * b),
{
    assert(a * (-b) == -(a * b)) by (nonlinear_arith);
    assert((-a) * b == -(a * b)) by (nonlinear_arith);
}

/// A product spread over a sum or a difference of two, from the left and from
/// the right.
pub proof fn lemma_dist2(x: int, a: int, b: int)
    ensures
        x * (a + b) == x * a + x * b,
        (a + b) * x == a * x + b * x,
        x * (a - b) == x * a - x * b,
        (a - b) * x == a * x - b * x,
{
    assert(x * (a + b) == x * a + x * b) by (nonlinear_arith);
    assert((a + b) * x == a * x + b * x) by (nonlinear_arith);
    assert(x * (a - b) == x * a - x * b) by (nonlinear_arith);
    assert((a - b) * x == a * x - b * x) by (nonlinear_arith);
}

/// A product spread over a sum of three.
pub proof fn lemma_dist3(x: int, a: int, b: int, c: int)
    ensures
        x * (a + b + c) == x * a + x * b + x * c,
        (a + b + c) * x == a * x + b * x + c * x,
{
    lemma_dist2(x, a + b, c);
    lemma_dist2(x, a, b);
}

/// A product spread over a sum of four.
pub proof fn lemma_dist4(x: int, a: int, b: int, c: int, d: int)
    ensures
        x * (a + b + c + d) == x * a + x * b + x * c + x * d,
        (a + b + c + d) * x == a * x + b * x + c * x + d * x,
{
    lemma_dist2(x, a + b + c, d);
    lemma_dist3(x, a, b, c);
}

/// A product spread over three terms added and three removed.
pub proof fn lemma_dist6(x: int, a: int, b: int, c: int, d: int, e: int, f: int)
    ensures
        x * (a + b + c - d - e - f) == x * a + x * b + x * c - x * d - x * e - x * f,
{
    lemma_dist2(x, a + b + c - d - e, f);
    lemma_dist2(x, a + b + c - d, e);
    lemma_dist2(x, a + b + c, d);
    lemma_dist3(x, a, b, c);
}

/// A factor that is not zero can be taken out of both sides of an equation.
pub proof fn lemma_cancel(d: int, a: int, b: int)
    requires
        d != 0,
        a * d == b * d,
    ensures
        a == b,
{
    assert(a == b) by (nonlinear_arith)
        requires
            d != 0,
            a * d == b * d,
    ;
}

} // verus!
