//! Small facts of real arithmetic, in the steps that the solver takes well.

use vstd::prelude::*;

verus! {

/// `(a b) (c d) == (a c) (b d)`.
pub proof fn lemma_mul_swap(a: real, b: real, c: real, d: real)
    ensures
        (a * b) * (c * d) == (a * c) * (b * d),
{
    let ab = a * b;
    let ac = a * c;
    assert(ab * (c * d) == (ab * c) * d) by (nonlinear_arith);
    assert(ab * c == ac * b) by (nonlinear_arith)
        requires
            ab == a * b,
            ac == a * c,
    ;
    assert((ac * b) * d == ac * (b * d)) by (nonlinear_arith);
}

/// Multiplying by zero and by one.
pub proof fn lemma_mul_basics(x: real)
    ensures
        x * 0real == 0real,
        0real * x == 0real,
        x * 1real == x,
        1real * x == x,
        x / 1real == x,
        x * (-1real) == -x,
{
    assert(x * 0real == 0real && 0real * x == 0real && x * 1real == x && 1real * x == x && x
        / 1real == x && x * (-1real) == -x) by (nonlinear_arith);
}

/// A factor and a divisor that are the same cancel.
pub proof fn lemma_mul_div_cancel(x: real, y: real, z: real)
    requires
        z != 0real,
    ensures
        (x * z) * (y / z) == x * y,
        (x / z) * (y * z) == x * y,
        (x / z) * z == x,
        z * (x / z) == x,
{
    let q = y / z;
    let p = x / z;
    assert(q * z == y && p * z == x && z * p == x) by (nonlinear_arith)
        requires
            z != 0real,
            q == y / z,
            p == x / z,
    ;
    assert((x * z) * q == x * (q * z)) by (nonlinear_arith);
    assert(p * (y * z) == (p * z) * y) by (nonlinear_arith);
    assert(x * y == y * x) by (nonlinear_arith);
}

/// Two quotients by the same divisor, each times the other's numerator and
/// a common factor, are equal.
pub proof fn lemma_div_mul_swap(x: real, y: real, z: real, w: real)
    requires
        z != 0real,
    ensures
        (x / z) * (y * w) == (y / z) * (x * w),
{
    let p = x / z;
    let q = y / z;
    let zw = z * w;
    assert(p * z == x && q * z == y) by (nonlinear_arith)
        requires
            z != 0real,
            p == x / z,
            q == y / z,
    ;
    assert((q * z) * w == q * zw && (p * z) * w == p * zw) by (nonlinear_arith)
        requires
            zw == z * w,
    ;
    assert(p * (q * zw) == q * (p * zw)) by (nonlinear_arith);
}

/// Signs and order in a product.
pub proof fn lemma_mul_signs(a: real, x: real)
    ensures
        a * (-x) == -(a * x),
        (-a) * x == -(a * x),
        (-a) * (-x) == a * x,
        x * a == a * x,
{
    assert(a * (-x) == -(a * x) && (-a) * x == -(a * x) && (-a) * (-x) == a * x && x * a == a
        * x) by (nonlinear_arith);
}

/// A product with a sum or a difference.
pub proof fn lemma_distribute(a: real, x: real, y: real)
    ensures
        a * (x + y) == a * x + a * y,
        a * (x - y) == a * x - a * y,
        (x + y) * a == x * a + y * a,
        (x - y) * a == x * a - y * a,
{
    assert(a * (x + y) == a * x + a * y && a * (x - y) == a * x - a * y && (x + y) * a == x * a
        + y * a && (x - y) * a == x * a - y * a) by (nonlinear_arith);
}

/// One coordinate of an affine map applied after another: the linear parts
/// multiply, and the first translation goes through the second linear part.
pub proof fn lemma_affine_after_affine(
    a: real,
    b: real,
    t: real,
    e: real,
    f: real,
    u: real,
    g: real,
    h: real,
    v: real,
    x: real,
    y: real,
)
    ensures
        a * (e * x + f * y + u) + b * (g * x + h * y + v) + t == (a * e + b * g) * x + (a * f + b
            * h) * y + (a * u + b * v + t),
{
    let (ex, fy, gx, hy) = (e * x, f * y, g * x, h * y);
    assert(a * (ex + fy + u) == a * ex + a * fy + a * u) by (nonlinear_arith);
    assert(b * (gx + hy + v) == b * gx + b * hy + b * v) by (nonlinear_arith);
    assert(a * ex == (a * e) * x) by (nonlinear_arith)
        requires
            ex == e * x,
    ;
    assert(a * fy == (a * f) * y) by (nonlinear_arith)
        requires
            fy == f * y,
    ;
    assert(b * gx == (b * g) * x) by (nonlinear_arith)
        requires
            gx == g * x,
    ;
    assert(b * hy == (b * h) * y) by (nonlinear_arith)
        requires
            hy == h * y,
    ;
    let (ae, bg, af, bh) = (a * e, b * g, a * f, b * h);
    assert((ae + bg) * x == ae * x + bg * x) by (nonlinear_arith);
    assert((af + bh) * y == af * y + bh * y) by (nonlinear_arith);
}

/// A product of three factors, bracketed either way.
pub proof fn lemma_mul_assoc(a: real, b: real, c: real)
    ensures
        (a * b) * c == a * (b * c),
{
    assert((a * b) * c == a * (b * c)) by (nonlinear_arith);
}

/// A product with a sum of four terms.
pub proof fn lemma_distribute4(a: real, w: real, x: real, y: real, z: real)
    ensures
        a * (w + x + y + z) == a * w + a * x + a * y + a * z,
        (w + x + y + z) * a == w * a + x * a + y * a + z * a,
{
    assert(a * (w + x + y + z) == a * w + a * x + a * y + a * z && (w + x + y + z) * a == w * a
        + x * a + y * a + z * a) by (nonlinear_arith);
}

} // verus!
