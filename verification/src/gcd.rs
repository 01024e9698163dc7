//! Greatest common divisors: the number theory behind fractions in lowest
//! terms.

use vstd::arithmetic::div_mod::lemma_fundamental_div_mod;
use vstd::prelude::*;

verus! {

/// The greatest common divisor of two naturals, by Euclid's recursion.
/// `gcd(0, 0)` is `0`.
pub open spec fn gcd(a: nat, b: nat) -> nat
    decreases b,
{
    if b == 0 {
        a
    } else {
        gcd(b, a % b)
    }
}

/// Two naturals are coprime when their greatest common divisor is one.
pub open spec fn coprime(a: nat, b: nat) -> bool {
    gcd(a, b) == 1
}

/// The absolute value of an integer, as a natural.
pub open spec fn magnitude(n: int) -> nat {
    if n < 0 {
        (-n) as nat
    } else {
        n as nat
    }
}

/// `gcd(a, b)` is positive as soon as one argument is.
pub proof fn lemma_gcd_positive(a: nat, b: nat)
    requires
        a > 0 || b > 0,
    ensures
        gcd(a, b) > 0,
    decreases b,
{
    if b != 0 {
        lemma_gcd_positive(b, a % b);
    }
}

/// Bezout's identity: the greatest common divisor is an integer combination
/// of the two numbers. The coefficients are returned.
pub proof fn lemma_bezout(a: nat, b: nat) -> (c: (int, int))
    ensures
        a * c.0 + b * c.1 == gcd(a, b),
    decreases b,
{
    if b == 0 {
        (1, 0)
    } else {
        let q = (a / b) as int;
        let r = a % b;
        let (x, y) = lemma_bezout(b, r);
        lemma_fundamental_div_mod(a as int, b as int);
        assert(a * y + b * (x - q * y) == b * x + r * y) by (nonlinear_arith)
            requires
                a == b * q + r,
        ;
        (y, x - q * y)
    }
}

/// The greatest common divisor divides both numbers: each is the divisor
/// times its quotient.
pub proof fn lemma_gcd_divides(a: nat, b: nat)
    requires
        a > 0 || b > 0,
    ensures
        a == gcd(a, b) * (a / gcd(a, b)),
        b == gcd(a, b) * (b / gcd(a, b)),
        a % gcd(a, b) == 0,
        b % gcd(a, b) == 0,
    decreases b,
{
    let g = gcd(a, b);
    lemma_gcd_positive(a, b);
    if b == 0 {
        assert(a / a == 1 && a % a == 0 && 0nat / a == 0 && 0nat % a == 0) by (nonlinear_arith)
            requires
                a > 0,
        ;
        assert(a * 1 == a && a * 0 == 0) by (nonlinear_arith);
    } else {
        let q = a / b;
        let r = a % b;
        lemma_gcd_divides(b, r);
        lemma_fundamental_div_mod(a as int, b as int);
        let bq = b / g;
        let rq = r / g;
        // a = b q + r = g (bq q + rq)
        assert(a == g * (bq * q + rq)) by (nonlinear_arith)
            requires
                a == b * q + r,
                b == g * bq,
                r == g * rq,
        ;
        lemma_multiple_divides(g as int, (bq * q + rq) as int);
        lemma_multiple_divides(g as int, bq as int);
    }
}

/// A multiple `d * k` of a positive `d` has quotient `k` and remainder zero.
pub proof fn lemma_multiple_divides(d: int, k: int)
    requires
        d > 0,
    ensures
        (d * k) / d == k,
        (d * k) % d == 0,
{
    lemma_fundamental_div_mod(d * k, d);
    let q = (d * k) / d;
    let r = (d * k) % d;
    assert(q == k && r == 0) by (nonlinear_arith)
        requires
            d > 0,
            d * k == d * q + r,
            0 <= r < d,
    ;
}

/// A positive integer that divides one is one.
proof fn lemma_unit_divisor(h: int, t: int)
    requires
        h > 0,
        h * t == 1,
    ensures
        h == 1,
{
    assert(t > 0) by (nonlinear_arith)
        requires
            h * t == 1,
            h > 0,
    ;
    assert(h * t >= h) by (nonlinear_arith)
        requires
            t >= 1,
            h > 0,
    ;
}

/// Two numbers with an integer combination equal to one are coprime.
pub proof fn lemma_combination_coprime(x: nat, y: nat, u: int, v: int)
    requires
        x * u + y * v == 1,
    ensures
        coprime(x, y),
{
    assert(x > 0 || y > 0) by (nonlinear_arith)
        requires
            x * u + y * v == 1,
            x >= 0,
            y >= 0,
    ;
    let h = gcd(x, y);
    lemma_gcd_positive(x, y);
    lemma_gcd_divides(x, y);
    let x1 = x / h;
    let y1 = y / h;
    let t = x1 * u + y1 * v;
    assert(h * t == 1) by (nonlinear_arith)
        requires
            x == h * x1,
            y == h * y1,
            x * u + y * v == 1,
            t == x1 * u + y1 * v,
    ;
    lemma_unit_divisor(h as int, t);
}

/// Dividing two numbers by their greatest common divisor leaves a coprime
/// pair.
pub proof fn lemma_reduced_is_coprime(a: nat, b: nat)
    requires
        b > 0,
    ensures
        gcd(a, b) > 0,
        coprime(a / gcd(a, b), b / gcd(a, b)),
        b / gcd(a, b) > 0,
{
    let g = gcd(a, b);
    lemma_gcd_positive(a, b);
    lemma_gcd_divides(a, b);
    let a1 = a / g;
    let b1 = b / g;
    assert(b1 > 0) by (nonlinear_arith)
        requires
            b == g * b1,
            b > 0,
            g > 0,
    ;
    let (x, y) = lemma_bezout(a, b);
    assert(a1 * x + b1 * y == 1) by (nonlinear_arith)
        requires
            a == g * a1,
            b == g * b1,
            a * x + b * y == g,
            g > 0,
    ;
    lemma_combination_coprime(a1, b1, x, y);
}

/// The squares of two coprime numbers are coprime.
pub proof fn lemma_coprime_squares(x: nat, y: nat)
    requires
        coprime(x, y),
    ensures
        coprime(x * x, y * y),
{
    let (u, v) = lemma_bezout(x, y);
    let p = x * u;
    let q = y * v;
    // the cube of p + q, sorted by the squares of p and q
    assert(p * p * (p + 3 * q) + q * q * (3 * p + q) == 1) by (nonlinear_arith)
        requires
            p + q == 1,
    ;
    let xx = x * x;
    let yy = y * y;
    let uu = u * u;
    let vv = v * v;
    assert(p * p == xx * uu) by (nonlinear_arith)
        requires
            p == x * u,
            xx == x * x,
            uu == u * u,
    ;
    assert(q * q == yy * vv) by (nonlinear_arith)
        requires
            q == y * v,
            yy == y * y,
            vv == v * v,
    ;
    let s = p + 3 * q;
    let t = 3 * p + q;
    assert((xx * uu) * s == xx * (uu * s) && (yy * vv) * t == yy * (vv * t)) by (nonlinear_arith);
    lemma_combination_coprime(xx as nat, yy as nat, uu * s, vv * t);
}

/// A fraction in lowest terms is the smallest way to write its value: if
/// `n / d` is in lowest terms and `n2 / d2` is the same value, then
/// `(n2, d2)` is `(n, d)` scaled by a positive integer.
pub proof fn lemma_lowest_terms_scale(n: int, d: int, n2: int, d2: int) -> (k: int)
    requires
        d > 0,
        d2 > 0,
        coprime(magnitude(n), d as nat),
        n * d2 == n2 * d,
    ensures
        k > 0,
        d2 == d * k,
        n2 == n * k,
{
    let (x0, y) = lemma_bezout(magnitude(n), d as nat);
    let x = if n < 0 {
        -x0
    } else {
        x0
    };
    assert(n * x + d * y == 1) by (nonlinear_arith)
        requires
            magnitude(n) * x0 + d * y == 1,
            x == if n < 0 {
                -x0
            } else {
                x0
            },
            magnitude(n) == if n < 0 {
                -n
            } else {
                n
            },
    ;
    let k = n2 * x + d2 * y;
    assert(d2 == d * k) by (nonlinear_arith)
        requires
            n * x + d * y == 1,
            n * d2 == n2 * d,
            k == n2 * x + d2 * y,
    ;
    assert(k > 0) by (nonlinear_arith)
        requires
            d2 == d * k,
            d > 0,
            d2 > 0,
    ;
    assert(n2 == n * k) by (nonlinear_arith)
        requires
            d2 == d * k,
            n * d2 == n2 * d,
            d > 0,
    ;
    k
}

/// Euclid's algorithm on machine integers.
pub fn gcd_u128(a: u128, b: u128) -> (g: u128)
    ensures
        g == gcd(a as nat, b as nat),
{
    let mut x: u128 = a;
    let mut y: u128 = b;
    while y != 0
        invariant
            gcd(x as nat, y as nat) == gcd(a as nat, b as nat),
        decreases y,
    {
        let r: u128 = x % y;
        x = y;
        y = r;
    }
    x
}

} // verus!
