//! Exact rational numbers in lowest terms, on machine integers.
//!
//! A [`Rational`] stands for one real number, its view. Arithmetic is exact:
//! an operation either returns the true result or reports that the result
//! cannot be written with a 64-bit numerator and denominator.

use crate::gcd::{
    coprime,
    gcd,
    gcd_u128,
    lemma_gcd_positive,
    lemma_coprime_squares,
    lemma_gcd_divides,
    lemma_lowest_terms_scale,
    lemma_reduced_is_coprime,
    magnitude,
};
use vstd::prelude::*;

verus! {

/// The largest numerator, in absolute value, and the largest denominator.
pub const LIMIT: i64 = 9223372036854775807;

/// The real number `n / d`.
#[verifier::opaque]
pub open spec fn ratio(n: int, d: int) -> real {
    n as real / d as real
}

/// Numerator and denominator that a [`Rational`] can hold.
pub open spec fn in_range(n: int, d: int) -> bool {
    -LIMIT <= n <= LIMIT && 0 < d <= LIMIT
}

/// A real number is representable when it is a fraction of two integers that
/// a [`Rational`] can hold.
pub open spec fn representable(q: real) -> bool {
    exists|n: int, d: int| in_range(n, d) && q == #[trigger] ratio(n, d)
}

/// Two fractions are the same real number exactly when they agree after
/// cross-multiplication.
pub proof fn lemma_ratio_equal(n: int, d: int, n2: int, d2: int)
    requires
        d != 0,
        d2 != 0,
    ensures
        ratio(n, d) == ratio(n2, d2) <==> n * d2 == n2 * d,
{
    reveal(ratio);
    let nr = n as real;
    let dr = d as real;
    let n2r = n2 as real;
    let d2r = d2 as real;
    assert((n * d2) as real == nr * d2r) by (nonlinear_arith)
        requires
            nr == n as real,
            d2r == d2 as real,
    ;
    assert((n2 * d) as real == n2r * dr) by (nonlinear_arith)
        requires
            n2r == n2 as real,
            dr == d as real,
    ;
    assert(nr / dr == n2r / d2r <==> nr * d2r == n2r * dr) by (nonlinear_arith)
        requires
            dr != 0real,
            d2r != 0real,
    ;
}

/// Sum, difference, product and quotient of two fractions, as fractions.
pub proof fn lemma_ratio_arith(n: int, d: int, n2: int, d2: int)
    requires
        d != 0,
        d2 != 0,
    ensures
        d * d2 != 0,
        ratio(n, d) + ratio(n2, d2) == ratio(n * d2 + n2 * d, d * d2),
        ratio(n, d) - ratio(n2, d2) == ratio(n * d2 - n2 * d, d * d2),
        ratio(n, d) * ratio(n2, d2) == ratio(n * n2, d * d2),
        n2 != 0 ==> ratio(n, d) / ratio(n2, d2) == ratio(n * d2, d * n2),
        -ratio(n, d) == ratio(-n, d),
        ratio(n, d) == ratio(-n, -d),
{
    reveal(ratio);
    let nr = n as real;
    let dr = d as real;
    let n2r = n2 as real;
    let d2r = d2 as real;
    assert(d * d2 != 0) by (nonlinear_arith)
        requires
            d != 0,
            d2 != 0,
    ;
    assert((n * d2 + n2 * d) as real == nr * d2r + n2r * dr && (n * d2 - n2 * d) as real == nr
        * d2r - n2r * dr && (n * n2) as real == nr * n2r && (d * d2) as real == dr * d2r && (n
        * d2) as real == nr * d2r && (d * n2) as real == dr * n2r && (-n) as real == -nr && (
    -d) as real == -dr) by (nonlinear_arith)
        requires
            nr == n as real,
            dr == d as real,
            n2r == n2 as real,
            d2r == d2 as real,
    ;
    assert(nr / dr + n2r / d2r == (nr * d2r + n2r * dr) / (dr * d2r)) by (nonlinear_arith)
        requires
            dr != 0real,
            d2r != 0real,
    ;
    assert(nr / dr - n2r / d2r == (nr * d2r - n2r * dr) / (dr * d2r)) by (nonlinear_arith)
        requires
            dr != 0real,
            d2r != 0real,
    ;
    assert((nr / dr) * (n2r / d2r) == (nr * n2r) / (dr * d2r)) by (nonlinear_arith)
        requires
            dr != 0real,
            d2r != 0real,
    ;
    if n2 != 0 {
        assert((nr / dr) / (n2r / d2r) == (nr * d2r) / (dr * n2r)) by (nonlinear_arith)
            requires
                dr != 0real,
                d2r != 0real,
                n2r != 0real,
        ;
    }
    assert(-(nr / dr) == (-nr) / dr && nr / dr == (-nr) / (-dr)) by (nonlinear_arith)
        requires
            dr != 0real,
    ;
}

/// An integer is the fraction with denominator one, and a fraction is zero
/// exactly when its numerator is.
pub proof fn lemma_ratio_basics(n: int, d: int)
    requires
        d != 0,
    ensures
        ratio(n, 1) == n as real,
        ratio(n, d) == 0real <==> n == 0,
{
    reveal(ratio);
    let nr = n as real;
    let dr = d as real;
    assert(nr / 1real == nr) by (nonlinear_arith);
    assert(nr / dr == 0real <==> nr == 0real) by (nonlinear_arith)
        requires
            dr != 0real,
    ;
}

/// Every integer within the limit is representable.
pub proof fn lemma_integer_representable(n: int)
    requires
        -LIMIT <= n <= LIMIT,
    ensures
        representable(n as real),
{
    lemma_ratio_basics(n, 1);
    assert(in_range(n, 1) && n as real == ratio(n, 1));
}

/// A fraction in lowest terms that is out of range stands for a real number
/// that is not representable; one in range stands for one that is.
pub proof fn lemma_lowest_terms_decide(n: int, d: int)
    requires
        d > 0,
        coprime(magnitude(n), d as nat),
    ensures
        representable(ratio(n, d)) <==> in_range(n, d),
{
    if in_range(n, d) {
        assert(ratio(n, d) == ratio(n, d));
    } else {
        assert forall|n2: int, d2: int| in_range(n2, d2) implies ratio(n, d) != #[trigger] ratio(
            n2,
            d2,
        ) by {
            lemma_ratio_equal(n, d, n2, d2);
            if n * d2 == n2 * d {
                let k = lemma_lowest_terms_scale(n, d, n2, d2);
                assert(d2 >= d && (n >= 0 ==> n2 >= n) && (n <= 0 ==> n2 <= n))
                    by (nonlinear_arith)
                    requires
                        k >= 1,
                        d > 0,
                        d2 == d * k,
                        n2 == n * k,
                ;
            }
        }
    }
}

/// Two fractions in lowest terms are the cosine and the sine of one angle
/// exactly when they have the same denominator `b` and the squares of their
/// numerators add up to `b * b`.
pub proof fn lemma_unit_circle(a: int, b: int, c: int, d: int)
    requires
        b > 0,
        d > 0,
        coprime(magnitude(a), b as nat),
        coprime(magnitude(c), d as nat),
    ensures
        ratio(a, b) * ratio(a, b) + ratio(c, d) * ratio(c, d) == 1real <==> b == d && a * a + c
            * c == b * b,
{
    let (aa, bb, cc, dd) = (a * a, b * b, c * c, d * d);
    assert(bb > 0 && dd > 0 && aa >= 0 && cc >= 0) by (nonlinear_arith)
        requires
            b > 0,
            d > 0,
            aa == a * a,
            bb == b * b,
            cc == c * c,
            dd == d * d,
    ;
    // the equation between reals, as an equation between integers
    lemma_ratio_arith(a, b, a, b);
    lemma_ratio_arith(c, d, c, d);
    lemma_ratio_arith(aa, bb, cc, dd);
    lemma_ratio_basics(1, 1);
    lemma_ratio_equal(aa * dd + cc * bb, bb * dd, 1, 1);
    let unit = ratio(a, b) * ratio(a, b) + ratio(c, d) * ratio(c, d) == 1real;
    assert(unit <==> aa * dd + cc * bb == bb * dd);
    if b == d && aa + cc == bb {
        assert(aa * bb + cc * bb == bb * bb) by (nonlinear_arith)
            requires
                aa + cc == bb,
        ;
    }
    if unit {
        assert(magnitude(a) * magnitude(a) == aa && magnitude(c) * magnitude(c) == cc)
            by (nonlinear_arith)
            requires
                aa == a * a,
                cc == c * c,
                magnitude(a) == a || magnitude(a) == -a,
                magnitude(c) == c || magnitude(c) == -c,
        ;
        lemma_coprime_squares(magnitude(a), b as nat);
        lemma_coprime_squares(magnitude(c), d as nat);
        assert(cc * bb == (bb - aa) * dd && aa * dd == (dd - cc) * bb) by (nonlinear_arith)
            requires
                aa * dd + cc * bb == bb * dd,
        ;
        let k = lemma_lowest_terms_scale(cc, dd, bb - aa, bb);
        let j = lemma_lowest_terms_scale(aa, bb, dd - cc, dd);
        assert(k == 1) by (nonlinear_arith)
            requires
                k > 0,
                j > 0,
                bb > 0,
                bb == dd * k,
                dd == bb * j,
        ;
        assert(b == d) by (nonlinear_arith)
            requires
                b > 0,
                d > 0,
                b * b == d * d,
        ;
        assert(aa + cc == bb) by (nonlinear_arith)
            requires
                aa * bb + cc * bb == bb * bb,
                bb > 0,
        ;
    }
}

/// An exact rational number.
///
/// The fraction is kept in lowest terms with a positive denominator, so two
/// values are equal exactly when they stand for the same number.
#[derive(Clone, Copy, Debug, PartialEq, Eq, Structural)]
pub struct Rational {
    num: i64,
    den: i64,
}

impl Rational {
    /// Lowest terms, positive denominator, both within [`LIMIT`].
    #[verifier::type_invariant]
    pub closed spec fn wf(self) -> bool {
        &&& in_range(self.num as int, self.den as int)
        &&& coprime(magnitude(self.num as int), self.den as nat)
    }

    /// The real number that this value stands for.
    pub closed spec fn view(&self) -> real {
        ratio(self.num as int, self.den as int)
    }

    /// A well-formed value stands for a representable number, and no other
    /// well-formed value stands for the same one.
    pub proof fn lemma_canonical(self, other: Rational)
        requires
            self.wf(),
            other.wf(),
        ensures
            representable(self@),
            self@ == other@ <==> self == other,
    {
        assert(self@ == ratio(self.num as int, self.den as int));
        lemma_ratio_equal(self.num as int, self.den as int, other.num as int, other.den as int);
        if self@ == other@ {
            let k = lemma_lowest_terms_scale(
                self.num as int,
                self.den as int,
                other.num as int,
                other.den as int,
            );
            let j = lemma_lowest_terms_scale(
                other.num as int,
                other.den as int,
                self.num as int,
                self.den as int,
            );
            assert(k == 1) by (nonlinear_arith)
                requires
                    k > 0,
                    j > 0,
                    self.den > 0,
                    other.den == self.den * k,
                    self.den == other.den * j,
            ;
        }
    }

    /// Reduces `n / d` to lowest terms; `None` exactly when the reduced
    /// fraction is out of range.
    fn normalize(n: i128, d: i128) -> (r: Option<Rational>)
        requires
            0 < d,
            -170141183460469231731687303715884105727 <= n,
        ensures
            r is Some <==> representable(ratio(n as int, d as int)),
            r matches Some(x) ==> x@ == ratio(n as int, d as int),
    {
        let negative = n < 0;
        let m: u128 = if negative {
            (-n) as u128
        } else {
            n as u128
        };
        let g = gcd_u128(m, d as u128);
        proof {
            lemma_gcd_positive(m as nat, d as nat);
            lemma_gcd_divides(m as nat, d as nat);
            lemma_reduced_is_coprime(m as nat, d as nat);
        }
        let m1: u128 = m / g;
        let d1: u128 = d as u128 / g;
        let ghost n1: int = if negative {
            -(m1 as int)
        } else {
            m1 as int
        };
        proof {
            assert(magnitude(n1) == m1 as nat);
            assert(n as int == g * n1 && d as int == g * d1) by (nonlinear_arith)
                requires
                    m as int == g * (m1 as int),
                    d as int == g * (d1 as int),
                    n as int == if negative {
                        -(m as int)
                    } else {
                        m as int
                    },
                    n1 == if negative {
                        -(m1 as int)
                    } else {
                        m1 as int
                    },
            ;
            lemma_ratio_equal(n as int, d as int, n1, d1 as int);
            assert((n as int) * (d1 as int) == n1 * (d as int)) by (nonlinear_arith)
                requires
                    n as int == g * n1,
                    d as int == g * d1,
            ;
            lemma_lowest_terms_decide(n1, d1 as int);
        }
        if m1 > LIMIT as u128 || d1 > LIMIT as u128 {
            None
        } else {
            let num: i64 = if negative {
                -(m1 as i64)
            } else {
                m1 as i64
            };
            Some(Rational { num, den: d1 as i64 })
        }
    }

    /// The fraction `num / den`, reduced. `None` exactly when `den` is zero
    /// or the value is not representable.
    pub fn new(num: i64, den: i64) -> (r: Option<Rational>)
        ensures
            r is Some <==> den != 0 && representable(ratio(num as int, den as int)),
            r matches Some(x) ==> x@ == ratio(num as int, den as int),
    {
        if den == 0 {
            None
        } else if den < 0 {
            proof {
                lemma_ratio_arith(num as int, den as int, 1, 1);
            }
            Self::normalize(-(num as i128), -(den as i128))
        } else {
            Self::normalize(num as i128, den as i128)
        }
    }

    /// The integer `n`.
    pub fn from_i32(n: i32) -> (r: Rational)
        ensures
            r@ == n as real,
    {
        proof {
            lemma_ratio_basics(n as int, 1);
            assert(gcd(magnitude(n as int), 1) == 1) by {
                reveal_with_fuel(gcd, 3);
            }
        }
        Rational { num: n as i64, den: 1 }
    }

    /// The numerator of the fraction in lowest terms.
    pub closed spec fn numer_spec(&self) -> int {
        self.num as int
    }

    /// The denominator of the fraction in lowest terms.
    pub closed spec fn denom_spec(&self) -> int {
        self.den as int
    }

    /// Numerator and denominator of a well-formed value are in range and
    /// coprime, and their quotient is the value.
    pub proof fn lemma_lowest_terms(self)
        requires
            self.wf(),
        ensures
            in_range(self.numer_spec(), self.denom_spec()),
            coprime(magnitude(self.numer_spec()), self.denom_spec() as nat),
            self@ == ratio(self.numer_spec(), self.denom_spec()),
    {
    }

    /// The numerator of the fraction in lowest terms.
    pub fn numer(&self) -> (n: i64)
        ensures
            n == self.numer_spec(),
            in_range(n as int, self.denom_spec()),
            coprime(magnitude(n as int), self.denom_spec() as nat),
            self@ == ratio(n as int, self.denom_spec()),
    {
        proof {
            use_type_invariant(self);
        }
        self.num
    }

    /// The denominator of the fraction in lowest terms, a positive number.
    pub fn denom(&self) -> (d: i64)
        ensures
            d == self.denom_spec(),
            in_range(self.numer_spec(), d as int),
            coprime(magnitude(self.numer_spec()), d as nat),
            self@ == ratio(self.numer_spec(), d as int),
    {
        proof {
            use_type_invariant(self);
        }
        self.den
    }

    /// Whether the number is zero.
    pub fn is_zero(&self) -> (z: bool)
        ensures
            z <==> self@ == 0real,
    {
        proof {
            use_type_invariant(self);
            lemma_ratio_basics(self.num as int, self.den as int);
        }
        self.num == 0
    }

    /// The negated number. Always representable.
    pub fn neg(&self) -> (r: Rational)
        ensures
            r@ == -self@,
    {
        proof {
            use_type_invariant(self);
            lemma_ratio_arith(self.num as int, self.den as int, 1, 1);
        }
        Rational { num: -self.num, den: self.den }
    }

    /// The exact sum. `None` exactly when it is not representable.
    pub fn checked_add(&self, rhs: &Rational) -> (r: Option<Rational>)
        ensures
            r is Some <==> representable(self@ + rhs@),
            r matches Some(x) ==> x@ == self@ + rhs@,
    {
        proof {
            use_type_invariant(self);
            use_type_invariant(rhs);
            lemma_ratio_arith(self.num as int, self.den as int, rhs.num as int, rhs.den as int);
            lemma_product_bounds(self.num as int, rhs.den as int);
            lemma_product_bounds(rhs.num as int, self.den as int);
            lemma_product_bounds(self.den as int, rhs.den as int);
        }
        let n: i128 = (self.num as i128) * (rhs.den as i128) + (rhs.num as i128) * (
        self.den as i128);
        let d: i128 = (self.den as i128) * (rhs.den as i128);
        Self::normalize(n, d)
    }

    /// The exact difference. `None` exactly when it is not representable.
    pub fn checked_sub(&self, rhs: &Rational) -> (r: Option<Rational>)
        ensures
            r is Some <==> representable(self@ - rhs@),
            r matches Some(x) ==> x@ == self@ - rhs@,
    {
        proof {
            use_type_invariant(self);
            use_type_invariant(rhs);
            lemma_ratio_arith(self.num as int, self.den as int, rhs.num as int, rhs.den as int);
            lemma_product_bounds(self.num as int, rhs.den as int);
            lemma_product_bounds(rhs.num as int, self.den as int);
            lemma_product_bounds(self.den as int, rhs.den as int);
        }
        let n: i128 = (self.num as i128) * (rhs.den as i128) - (rhs.num as i128) * (
        self.den as i128);
        let d: i128 = (self.den as i128) * (rhs.den as i128);
        Self::normalize(n, d)
    }

    /// The exact product. `None` exactly when it is not representable.
    pub fn checked_mul(&self, rhs: &Rational) -> (r: Option<Rational>)
        ensures
            r is Some <==> representable(self@ * rhs@),
            r matches Some(x) ==> x@ == self@ * rhs@,
    {
        proof {
            use_type_invariant(self);
            use_type_invariant(rhs);
            lemma_ratio_arith(self.num as int, self.den as int, rhs.num as int, rhs.den as int);
            lemma_product_bounds(self.num as int, rhs.num as int);
            lemma_product_bounds(self.den as int, rhs.den as int);
        }
        let n: i128 = (self.num as i128) * (rhs.num as i128);
        let d: i128 = (self.den as i128) * (rhs.den as i128);
        Self::normalize(n, d)
    }

    /// The exact quotient. `None` exactly when the divisor is zero or the
    /// quotient is not representable.
    pub fn checked_div(&self, rhs: &Rational) -> (r: Option<Rational>)
        ensures
            r is Some <==> rhs@ != 0real && representable(self@ / rhs@),
            r matches Some(x) ==> x@ == self@ / rhs@,
    {
        proof {
            use_type_invariant(self);
            use_type_invariant(rhs);
            lemma_ratio_basics(rhs.num as int, rhs.den as int);
            lemma_ratio_arith(self.num as int, self.den as int, rhs.num as int, rhs.den as int);
            lemma_product_bounds(self.num as int, rhs.den as int);
            lemma_product_bounds(self.den as int, rhs.num as int);
        }
        if rhs.num == 0 {
            None
        } else {
            proof {
                lemma_ratio_arith(
                    (self.num * rhs.den) as int,
                    (self.den * rhs.num) as int,
                    1,
                    1,
                );
            }
            let n: i128 = (self.num as i128) * (rhs.den as i128);
            let d: i128 = (self.den as i128) * (rhs.num as i128);
            if d < 0 {
                Self::normalize(-n, -d)
            } else {
                Self::normalize(n, d)
            }
        }
    }
}

/// The product of two numbers within [`LIMIT`] is well inside a 128-bit
/// integer, and so is the sum of two such products.
pub proof fn lemma_product_bounds(x: int, y: int)
    requires
        -LIMIT <= x <= LIMIT,
        -LIMIT <= y <= LIMIT,
    ensures
        -85070591730234615847396907784232501249 <= x * y <= 85070591730234615847396907784232501249,
        x > 0 && y > 0 ==> x * y > 0,
        x != 0 && y != 0 ==> x * y != 0,
{
    assert(-85070591730234615847396907784232501249 <= x * y
        <= 85070591730234615847396907784232501249) by (nonlinear_arith)
        requires
            -9223372036854775807 <= x <= 9223372036854775807,
            -9223372036854775807 <= y <= 9223372036854775807,
    ;
    assert(x > 0 && y > 0 ==> x * y > 0) by (nonlinear_arith);
    assert(x != 0 && y != 0 ==> x * y != 0) by (nonlinear_arith);
}

} // verus!
