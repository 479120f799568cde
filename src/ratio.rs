//! An exact rational number: the raw value that every quantity carries.
use vstd::prelude::*;

verus! {

/// The value fits in an `i64`.
pub open spec fn fits(x: int) -> bool {
    i64::MIN <= x <= i64::MAX
}

/// Absolute value of a mathematical integer.
pub open spec fn abs_int(x: int) -> int {
    if x < 0 {
        -x
    } else {
        x
    }
}

/// Remainder of the division of `x` by `y` that rounds the quotient toward
/// zero: its sign is that of `x`, and its magnitude is below `|y|`.
pub open spec fn trunc_rem(x: int, y: int) -> int {
    if x >= 0 {
        x % abs_int(y)
    } else {
        -((-x) % abs_int(y))
    }
}

/// The product of two values that fit stays within the range of `i128`
/// with room for one more such product to be added.
pub proof fn lemma_product_fits_wide(a: int, b: int)
    requires
        fits(a),
        fits(b),
    ensures
        -0x4000_0000_0000_0000_0000_0000_0000_0000 <= a * b <= 0x4000_0000_0000_0000_0000_0000_0000_0000,
{
    assert(-0x4000_0000_0000_0000_0000_0000_0000_0000 <= a * b <= 0x4000_0000_0000_0000_0000_0000_0000_0000)
        by (nonlinear_arith)
        requires
            -0x8000_0000_0000_0000 <= a <= 0x8000_0000_0000_0000,
            -0x8000_0000_0000_0000 <= b <= 0x8000_0000_0000_0000,
    ;
}

/// The product of two positive numbers is positive.
pub proof fn lemma_positive_product(a: int, b: int)
    requires
        a > 0,
        b > 0,
    ensures
        a * b > 0,
{
    assert(a * b > 0) by (nonlinear_arith)
        requires
            a > 0,
            b > 0,
    ;
}

/// The product of a negative and a positive number is negative.
pub proof fn lemma_negative_product(a: int, b: int)
    requires
        a < 0,
        b > 0,
    ensures
        a * b < 0,
{
    assert(a * b < 0) by (nonlinear_arith)
        requires
            a < 0,
            b > 0,
    ;
}

/// A rational number `num / den`.
///
/// A well-formed ratio has a positive denominator. Two ratios are equal
/// under `==` when they denote the same number, whatever their
/// representation: `1/2 == 2/4`.
#[derive(Clone, Copy, Debug)]
pub struct Ratio {
    pub num: i64,
    pub den: i64,
}

impl Ratio {
    /// The numerator.
    pub open spec fn n(self) -> int {
        self.num as int
    }

    /// The denominator.
    pub open spec fn d(self) -> int {
        self.den as int
    }

    /// The denominator is positive.
    pub open spec fn wf(self) -> bool {
        self.d() > 0
    }

    /// This ratio denotes the number `n / d`.
    pub open spec fn denotes(self, n: int, d: int) -> bool {
        self.n() * d == n * self.d()
    }

    /// This ratio and `other` denote the same number.
    pub open spec fn same(self, other: Ratio) -> bool {
        self.denotes(other.n(), other.d())
    }

    /// The sign of `self - other`, computed exactly.
    pub open spec fn compare(self, other: Ratio) -> core::cmp::Ordering {
        if self.n() * other.d() < other.n() * self.d() {
            core::cmp::Ordering::Less
        } else if self.n() * other.d() == other.n() * self.d() {
            core::cmp::Ordering::Equal
        } else {
            core::cmp::Ordering::Greater
        }
    }

    /// `self + rhs` can be represented.
    pub open spec fn sum_ok(self, rhs: Ratio) -> bool {
        &&& self.wf()
        &&& rhs.wf()
        &&& fits(self.n() * rhs.d() + rhs.n() * self.d())
        &&& fits(self.d() * rhs.d())
    }

    /// The exact sum, over the product of the denominators.
    pub open spec fn sum(self, rhs: Ratio) -> Ratio {
        Ratio {
            num: (self.n() * rhs.d() + rhs.n() * self.d()) as i64,
            den: (self.d() * rhs.d()) as i64,
        }
    }

    /// `self - rhs` can be represented.
    pub open spec fn difference_ok(self, rhs: Ratio) -> bool {
        &&& self.wf()
        &&& rhs.wf()
        &&& fits(self.n() * rhs.d() - rhs.n() * self.d())
        &&& fits(self.d() * rhs.d())
    }

    /// The exact difference, over the product of the denominators.
    pub open spec fn difference(self, rhs: Ratio) -> Ratio {
        Ratio {
            num: (self.n() * rhs.d() - rhs.n() * self.d()) as i64,
            den: (self.d() * rhs.d()) as i64,
        }
    }

    /// `self * rhs` can be represented.
    pub open spec fn product_ok(self, rhs: Ratio) -> bool {
        &&& self.wf()
        &&& rhs.wf()
        &&& fits(self.n() * rhs.n())
        &&& fits(self.d() * rhs.d())
    }

    /// The exact product.
    pub open spec fn product(self, rhs: Ratio) -> Ratio {
        Ratio { num: (self.n() * rhs.n()) as i64, den: (self.d() * rhs.d()) as i64 }
    }

    /// `self / rhs` can be represented: `rhs` is not zero.
    pub open spec fn quotient_ok(self, rhs: Ratio) -> bool {
        &&& self.wf()
        &&& rhs.wf()
        &&& rhs.n() != 0
        &&& fits(self.n() * rhs.d())
        &&& fits(-(self.n() * rhs.d()))
        &&& fits(self.d() * rhs.n())
        &&& fits(-(self.d() * rhs.n()))
    }

    /// The exact quotient, with the sign moved to the numerator.
    pub open spec fn quotient(self, rhs: Ratio) -> Ratio {
        if rhs.n() < 0 {
            Ratio { num: (-(self.n() * rhs.d())) as i64, den: (-(self.d() * rhs.n())) as i64 }
        } else {
            Ratio { num: (self.n() * rhs.d()) as i64, den: (self.d() * rhs.n()) as i64 }
        }
    }

    /// `self % rhs` can be represented: `rhs` is not zero.
    pub open spec fn remainder_ok(self, rhs: Ratio) -> bool {
        &&& self.wf()
        &&& rhs.wf()
        &&& rhs.n() != 0
        &&& fits(self.n() * rhs.d())
        &&& fits(rhs.n() * self.d())
        &&& fits(self.d() * rhs.d())
    }

    /// `self - k * rhs` for the integer `k` that is `self / rhs` rounded
    /// toward zero: the sign follows `self`.
    pub open spec fn remainder(self, rhs: Ratio) -> Ratio {
        Ratio {
            num: trunc_rem(self.n() * rhs.d(), rhs.n() * self.d()) as i64,
            den: (self.d() * rhs.d()) as i64,
        }
    }

    /// `-self` can be represented.
    pub open spec fn negation_ok(self) -> bool {
        self.wf() && self.n() > i64::MIN
    }

    /// The exact negation.
    pub open spec fn negation(self) -> Ratio {
        Ratio { num: (-self.n()) as i64, den: self.den }
    }

    /// The square root of a non-negative ratio over its own denominator:
    /// `isqrt(n * d) / d`, exact whenever the value is the square of a
    /// ratio with that denominator.
    pub open spec fn root(self) -> Ratio {
        Ratio { num: isqrt(self.n() * self.d()) as i64, den: self.den }
    }

    /// The ratio `num / den`.
    pub fn new(num: i64, den: i64) -> (r: Ratio)
        requires
            den > 0,
        ensures
            r.wf(),
            r.n() == num,
            r.d() == den,
    {
        Ratio { num, den }
    }

    /// The integer `n`.
    pub fn from_int(n: i64) -> (r: Ratio)
        ensures
            r.wf(),
            r.n() == n,
            r.d() == 1,
    {
        Ratio { num: n, den: 1 }
    }

    /// Zero.
    pub fn zero() -> (r: Ratio)
        ensures
            r.wf(),
            r.n() == 0,
            r.d() == 1,
    {
        Ratio { num: 0, den: 1 }
    }

    /// Exact sum.
    pub fn plus(self, rhs: Ratio) -> (r: Ratio)
        requires
            self.sum_ok(rhs),
        ensures
            r.wf(),
            r == self.sum(rhs),
            r.n() == self.n() * rhs.d() + rhs.n() * self.d(),
            r.d() == self.d() * rhs.d(),
    {
        proof {
            lemma_product_fits_wide(self.n(), rhs.d());
            lemma_product_fits_wide(rhs.n(), self.d());
            lemma_product_fits_wide(self.d(), rhs.d());
            lemma_positive_product(self.d(), rhs.d());
        }
        let n: i128 = (self.num as i128) * (rhs.den as i128) + (rhs.num as i128) * (self.den as i128);
        let d: i128 = (self.den as i128) * (rhs.den as i128);
        Ratio { num: n as i64, den: d as i64 }
    }

    /// Exact difference.
    pub fn minus(self, rhs: Ratio) -> (r: Ratio)
        requires
            self.difference_ok(rhs),
        ensures
            r.wf(),
            r == self.difference(rhs),
            r.n() == self.n() * rhs.d() - rhs.n() * self.d(),
            r.d() == self.d() * rhs.d(),
    {
        proof {
            lemma_product_fits_wide(self.n(), rhs.d());
            lemma_product_fits_wide(rhs.n(), self.d());
            lemma_product_fits_wide(self.d(), rhs.d());
            lemma_positive_product(self.d(), rhs.d());
        }
        let n: i128 = (self.num as i128) * (rhs.den as i128) - (rhs.num as i128) * (self.den as i128);
        let d: i128 = (self.den as i128) * (rhs.den as i128);
        Ratio { num: n as i64, den: d as i64 }
    }

    /// Exact product.
    pub fn times(self, rhs: Ratio) -> (r: Ratio)
        requires
            self.product_ok(rhs),
        ensures
            r.wf(),
            r == self.product(rhs),
            r.n() == self.n() * rhs.n(),
            r.d() == self.d() * rhs.d(),
    {
        proof {
            lemma_product_fits_wide(self.n(), rhs.n());
            lemma_product_fits_wide(self.d(), rhs.d());
            lemma_positive_product(self.d(), rhs.d());
        }
        let n: i128 = (self.num as i128) * (rhs.num as i128);
        let d: i128 = (self.den as i128) * (rhs.den as i128);
        Ratio { num: n as i64, den: d as i64 }
    }

    /// Exact quotient.
    pub fn over(self, rhs: Ratio) -> (r: Ratio)
        requires
            self.quotient_ok(rhs),
        ensures
            r.wf(),
            r == self.quotient(rhs),
            r.denotes(self.n() * rhs.d(), self.d() * rhs.n()),
    {
        proof {
            lemma_product_fits_wide(self.n(), rhs.d());
            lemma_product_fits_wide(self.d(), rhs.n());
        }
        let n: i128 = (self.num as i128) * (rhs.den as i128);
        let d: i128 = (self.den as i128) * (rhs.num as i128);
        if rhs.num < 0 {
            proof {
                lemma_negative_product(rhs.n(), self.d());
                assert(self.d() * rhs.n() == rhs.n() * self.d()) by (nonlinear_arith);
                assert((-n) * d == n * (-d)) by (nonlinear_arith);
            }
            Ratio { num: (-n) as i64, den: (-d) as i64 }
        } else {
            proof {
                lemma_positive_product(self.d(), rhs.n());
                assert(n * d == n * d);
            }
            Ratio { num: n as i64, den: d as i64 }
        }
    }

    /// Remainder of the division by `rhs` rounded toward zero, as `%` on
    /// floating-point numbers computes it.
    pub fn rem_of(self, rhs: Ratio) -> (r: Ratio)
        requires
            self.remainder_ok(rhs),
        ensures
            r.wf(),
            r == self.remainder(rhs),
    {
        proof {
            lemma_product_fits_wide(self.n(), rhs.d());
            lemma_product_fits_wide(rhs.n(), self.d());
            lemma_product_fits_wide(self.d(), rhs.d());
            lemma_positive_product(self.d(), rhs.d());
        }
        let x: i128 = (self.num as i128) * (rhs.den as i128);
        let y: i128 = (rhs.num as i128) * (self.den as i128);
        let xa: u128 = if x >= 0 { x as u128 } else { (-x) as u128 };
        let ya: u128 = if y >= 0 { y as u128 } else { (-y) as u128 };
        proof {
            if y == 0 {
                lemma_product_nonzero(rhs.n(), self.d());
            }
        }
        let m: u128 = xa % ya;
        let num: i64 = if x >= 0 { m as i64 } else { -(m as i64) };
        let d: i128 = (self.den as i128) * (rhs.den as i128);
        Ratio { num, den: d as i64 }
    }

    /// The square root, as `root` states it.
    pub fn square_root(self) -> (r: Ratio)
        requires
            self.wf(),
            self.n() >= 0,
        ensures
            r.wf(),
            r == self.root(),
            is_isqrt(r.n(), self.n() * self.d()),
    {
        proof {
            lemma_product_fits_wide(self.n(), self.d());
            assert(0 <= self.n() * self.d() < 0x4000_0000_0000_0000_0000_0000_0000_0000)
                by (nonlinear_arith)
                requires
                    0 <= self.n() <= 0x7fff_ffff_ffff_ffff,
                    0 < self.d() <= 0x7fff_ffff_ffff_ffff,
            ;
        }
        let x: u128 = ((self.num as i128) * (self.den as i128)) as u128;
        let s: u64 = isqrt_u128(x);
        proof {
            let x_int = self.n() * self.d();
            assert(is_isqrt(isqrt(x_int), x_int));
            lemma_isqrt_unique(s as int, isqrt(x_int), x_int);
            assert(s * s <= x_int);
            assert(s <= 0x8000_0000_0000_0000 - 1) by (nonlinear_arith)
                requires
                    s * s <= x_int,
                    x_int < 0x4000_0000_0000_0000_0000_0000_0000_0000,
                    s >= 0,
            ;
        }
        Ratio { num: s as i64, den: self.den }
    }

    /// Exact comparison.
    pub fn cmp(&self, other: &Ratio) -> (r: core::cmp::Ordering)
        requires
            self.wf(),
            other.wf(),
        ensures
            r == self.compare(*other),
    {
        proof {
            lemma_product_fits_wide(self.n(), other.d());
            lemma_product_fits_wide(other.n(), self.d());
        }
        let a: i128 = (self.num as i128) * (other.den as i128);
        let b: i128 = (other.num as i128) * (self.den as i128);
        if a < b {
            core::cmp::Ordering::Less
        } else if a == b {
            core::cmp::Ordering::Equal
        } else {
            core::cmp::Ordering::Greater
        }
    }

    /// Exact negation.
    pub fn negate(self) -> (r: Ratio)
        requires
            self.negation_ok(),
        ensures
            r.wf(),
            r == self.negation(),
    {
        Ratio { num: -self.num, den: self.den }
    }
}

/// `r` is the integer square root of `x`: the largest integer whose square
/// does not exceed `x`.
pub open spec fn is_isqrt(r: int, x: int) -> bool {
    0 <= r && r * r <= x && x < (r + 1) * (r + 1)
}

/// The integer square root of a non-negative `x`.
pub open spec fn isqrt(x: int) -> int {
    choose|r: int| is_isqrt(r, x)
}

/// At most one integer is the integer square root of `x`.
pub proof fn lemma_isqrt_unique(r: int, s: int, x: int)
    requires
        is_isqrt(r, x),
        is_isqrt(s, x),
    ensures
        r == s,
{
    if r < s {
        assert((r + 1) * (r + 1) <= s * s) by (nonlinear_arith)
            requires
                0 <= r < s,
        ;
    } else if s < r {
        assert((s + 1) * (s + 1) <= r * r) by (nonlinear_arith)
            requires
                0 <= s < r,
        ;
    }
}

/// Integer square root by bisection.
fn isqrt_u128(x: u128) -> (r: u64)
    requires
        x < 0x4000_0000_0000_0000_0000_0000_0000_0000,
    ensures
        is_isqrt(r as int, x as int),
{
    let mut lo: u128 = 0;
    let mut hi: u128 = 0x8000_0000_0000_0000;
    assert(hi * hi == 0x4000_0000_0000_0000_0000_0000_0000_0000) by (nonlinear_arith)
        requires
            hi == 0x8000_0000_0000_0000,
    ;
    while hi - lo > 1
        invariant
            lo < hi <= 0x8000_0000_0000_0000,
            lo * lo <= x,
            x < hi * hi,
        decreases hi - lo,
    {
        let mid: u128 = lo + (hi - lo) / 2;
        assert(mid * mid <= 0x4000_0000_0000_0000_0000_0000_0000_0000) by (nonlinear_arith)
            requires
                mid <= 0x8000_0000_0000_0000,
        ;
        if mid * mid <= x {
            lo = mid;
        } else {
            hi = mid;
        }
    }
    assert(hi == lo + 1);
    lo as u64
}

impl PartialEq for Ratio {
    fn eq(&self, other: &Ratio) -> (r: bool) {
        proof {
            lemma_product_fits_wide(self.n(), other.d());
            lemma_product_fits_wide(other.n(), self.d());
        }
        (self.num as i128) * (other.den as i128) == (other.num as i128) * (self.den as i128)
    }
}

impl vstd::std_specs::cmp::PartialEqSpecImpl for Ratio {
    open spec fn obeys_eq_spec() -> bool {
        true
    }

    open spec fn eq_spec(&self, other: &Ratio) -> bool {
        self.same(*other)
    }
}

impl Eq for Ratio {
}

impl PartialOrd for Ratio {
    fn partial_cmp(&self, other: &Ratio) -> (r: Option<core::cmp::Ordering>) {
        proof {
            lemma_product_fits_wide(self.n(), other.d());
            lemma_product_fits_wide(other.n(), self.d());
        }
        let a: i128 = (self.num as i128) * (other.den as i128);
        let b: i128 = (other.num as i128) * (self.den as i128);
        if a < b {
            Some(core::cmp::Ordering::Less)
        } else if a == b {
            Some(core::cmp::Ordering::Equal)
        } else {
            Some(core::cmp::Ordering::Greater)
        }
    }
}

impl vstd::std_specs::cmp::PartialOrdSpecImpl for Ratio {
    open spec fn obeys_partial_cmp_spec() -> bool {
        true
    }

    open spec fn partial_cmp_spec(&self, other: &Ratio) -> Option<core::cmp::Ordering> {
        Some(self.compare(*other))
    }
}

/// A product of non-zero integers is non-zero.
pub proof fn lemma_product_nonzero(a: int, b: int)
    requires
        a != 0,
        b != 0,
    ensures
        a * b != 0,
{
    assert(a * b != 0) by (nonlinear_arith)
        requires
            a != 0,
            b != 0,
    ;
}

} // verus!
