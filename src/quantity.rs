//! The quantity type generator: one generic wrapper, `Quantity<U>`, gives
//! every kind of quantity `U` its own type with the whole arithmetic
//! surface, and the traits `Quotient` and `Product` declare which kinds
//! combine into which.
use vstd::prelude::*;
use crate::kind::Unitless;
use crate::ratio::{abs_int, Ratio};
use core::cmp::Ordering;
use core::marker::PhantomData;

verus! {

/// A type built from a raw value.
pub trait New: Sized {
    /// The value built from `value`.
    spec fn from_spec(value: Ratio) -> Self;

    /// Wraps `value`.
    fn new(value: Ratio) -> (r: Self)
        requires
            value.wf(),
        ensures
            r == Self::from_spec(value),
    ;
}

/// A type that wraps a single raw value.
pub trait Wrapper: Copy {
    type Inner;

    /// The wrapped value.
    spec fn inner(self) -> Self::Inner;

    /// Returns the wrapped value.
    fn value(self) -> (r: Self::Inner)
        ensures
            r == self.inner(),
    ;
}

/// Declares the relation `Self / Den = Output` among kinds of quantity.
pub trait Quotient<Den> {
    type Output: New;
}

/// Declares the relation `Self * Rhs = Output` among kinds of quantity.
pub trait Product<Rhs> {
    type Output: New;
}

/// Declares that `Self` is the square of the kind `Base`.
pub trait Root {
    type Base;
}

/// A value that has a square root.
pub trait Sqrt: Sized {
    type Output;

    /// The square root can be taken.
    spec fn sqrt_req(self) -> bool;

    /// The square root.
    spec fn sqrt_spec(self) -> Self::Output;

    /// The non-negative square root, rounded down to the precision of the
    /// operand's denominator.
    fn sqrt(self) -> (r: Self::Output)
        requires
            self.sqrt_req(),
        ensures
            r == self.sqrt_spec(),
    ;
}

/// A value that can be multiplied by itself.
pub trait Squared: Sized {
    type Output;

    /// The square can be represented.
    spec fn squared_req(self) -> bool;

    /// The square.
    spec fn squared_spec(self) -> Self::Output;

    /// `self * self`.
    fn squared(self) -> (r: Self::Output)
        requires
            self.squared_req(),
        ensures
            r == self.squared_spec(),
    ;
}

/// A kind of quantity whose values pair up into plane vectors.
pub trait Scalar: Sized {
    type Vector;

    /// The vector with components `x` and `y`.
    fn vector(x: Self, y: Self) -> Self::Vector;
}

/// A kind of quantity whose values form space vectors.
pub trait Scalar3: Sized {
    type Vector;

    /// The vector with components `x`, `y` and `z`.
    fn vector3(x: Self, y: Self, z: Self) -> Self::Vector;
}

impl New for Ratio {
    open spec fn from_spec(value: Ratio) -> Ratio {
        value
    }

    fn new(value: Ratio) -> (r: Ratio) {
        value
    }
}

impl Wrapper for Ratio {
    type Inner = Ratio;

    open spec fn inner(self) -> Ratio {
        self
    }

    fn value(self) -> (r: Ratio) {
        self
    }
}

impl Sqrt for Ratio {
    type Output = Ratio;

    open spec fn sqrt_req(self) -> bool {
        self.wf() && self.n() >= 0
    }

    open spec fn sqrt_spec(self) -> Ratio {
        self.root()
    }

    fn sqrt(self) -> (r: Ratio) {
        self.square_root()
    }
}

impl Squared for Ratio {
    type Output = Ratio;

    open spec fn squared_req(self) -> bool {
        self.product_ok(self)
    }

    open spec fn squared_spec(self) -> Ratio {
        self.product(self)
    }

    fn squared(self) -> (r: Ratio) {
        self.times(self)
    }
}

/// A physical quantity of kind `U`: a raw value that only combines with
/// values of other kinds along declared relations.
///
/// Each kind gets its type from this one definition (`Quantity<kind::Length>`
/// is `Length`), with addition and subtraction within the kind, scaling by
/// raw numbers, negation, remainder, comparison and summation. A
/// relation `N / D = R` declared with `Quotient` and `Product` adds
/// `N / D -> R`, `N / R -> D`, `R * D -> N` and `D * R -> N`. Every
/// operator takes its operands by value or by reference.
#[derive(Debug)]
pub struct Quantity<U> {
    pub value: Ratio,
    pub unit: PhantomData<U>,
}

impl<U> Clone for Quantity<U> {
    fn clone(&self) -> (r: Self)
        ensures
            r == *self,
    {
        Quantity { value: self.value, unit: PhantomData }
    }
}

impl<U> Copy for Quantity<U> {
}

impl<U> New for Quantity<U> {
    open spec fn from_spec(value: Ratio) -> Quantity<U> {
        Quantity { value, unit: PhantomData }
    }

    fn new(value: Ratio) -> (r: Quantity<U>) {
        Quantity { value, unit: PhantomData }
    }
}

impl<U> Wrapper for Quantity<U> {
    type Inner = Ratio;

    open spec fn inner(self) -> Ratio {
        self.value
    }

    fn value(self) -> (r: Ratio) {
        self.value
    }
}

impl<S: Root> Sqrt for Quantity<S> {
    type Output = Quantity<S::Base>;

    open spec fn sqrt_req(self) -> bool {
        self.value.wf() && self.value.n() >= 0
    }

    open spec fn sqrt_spec(self) -> Quantity<S::Base> {
        Quantity { value: self.value.root(), unit: PhantomData }
    }

    fn sqrt(self) -> (r: Quantity<S::Base>) {
        Quantity { value: self.value.square_root(), unit: PhantomData }
    }
}

impl<B: Product<B>> Squared for Quantity<B> {
    type Output = <B as Product<B>>::Output;

    open spec fn squared_req(self) -> bool {
        self.value.product_ok(self.value)
    }

    open spec fn squared_spec(self) -> <B as Product<B>>::Output {
        <B as Product<B>>::Output::from_spec(self.value.product(self.value))
    }

    fn squared(self) -> (r: <B as Product<B>>::Output) {
        <B as Product<B>>::Output::new(self.value.times(self.value))
    }
}

impl<U> Quantity<U> {
    /// The raw value is well formed.
    pub open spec fn wf(self) -> bool {
        self.value.wf()
    }

    /// The quantity with raw value `value`.
    pub open spec fn of(value: Ratio) -> Quantity<U> {
        Quantity { value, unit: PhantomData }
    }

    /// The quantity with raw value `value`.
    pub fn new(value: Ratio) -> (r: Self)
        requires
            value.wf(),
        ensures
            r == Self::of(value),
            r.wf(),
    {
        Quantity { value, unit: PhantomData }
    }

    /// The quantity with raw value `value`, or `None` when `value` has no
    /// positive denominator: `n / 0` stands for an infinite or undefined
    /// number, which no quantity may hold.
    pub fn try_new(value: Ratio) -> (r: Option<Self>)
        ensures
            r is Some <==> value.wf(),
            r is Some ==> r->Some_0 == Self::of(value),
    {
        if value.den > 0 {
            Some(Quantity { value, unit: PhantomData })
        } else {
            None
        }
    }

    /// The zero quantity.
    pub fn zero() -> (r: Self)
        ensures
            r.wf(),
            r.value.n() == 0,
            r.value.d() == 1,
    {
        Quantity { value: Ratio::zero(), unit: PhantomData }
    }

    /// The raw value.
    pub fn value(self) -> (r: Ratio)
        ensures
            r == self.value,
    {
        self.value
    }

    /// The quantity is zero.
    pub fn is_none(&self) -> (r: bool)
        requires
            self.wf(),
        ensures
            r == (self.value.n() == 0),
    {
        self.value.num == 0
    }

    /// The quantity is not zero.
    pub fn is_some(&self) -> (r: bool)
        requires
            self.wf(),
        ensures
            r == (self.value.n() != 0),
    {
        !self.is_none()
    }

    /// The absolute value.
    pub fn abs(self) -> (r: Self)
        requires
            self.value.negation_ok(),
        ensures
            r.wf(),
            r.value.n() == abs_int(self.value.n()),
            r.value.d() == self.value.d(),
    {
        if self.value.num < 0 {
            Quantity { value: self.value.negate(), unit: PhantomData }
        } else {
            self
        }
    }

    /// Exact comparison of the two values. Values are exact, so there is
    /// no rounding error to tolerate: two quantities compare as equal
    /// exactly when `==` holds.
    pub fn cmp(&self, other: &Self) -> (r: Ordering)
        requires
            self.wf(),
            other.wf(),
        ensures
            r == self.value.compare(other.value),
    {
        self.value.cmp(&other.value)
    }

    /// Takes up to `amount` out of `self`: all of it when `self` holds
    /// enough, else all that `self` holds. Returns what was taken.
    pub fn request(&mut self, amount: Self) -> (r: Self)
        requires
            old(self).wf(),
            amount.wf(),
            old(self).value.n() >= 0,
            amount.value.n() >= 0,
            old(self).value.difference_ok(amount.value),
            old(self).value.difference_ok(old(self).value),
        ensures
            final(self).wf(),
            r.wf(),
            amount.value.compare(old(self).value) != Ordering::Greater ==> r == amount,
            amount.value.compare(old(self).value) == Ordering::Greater ==> r == *old(self),
            final(self).value == old(self).value.difference(r.value),
    {
        let taken = match self.value.cmp(&amount.value) {
            Ordering::Less => *self,
            _ => amount,
        };
        self.value = self.value.minus(taken.value);
        taken
    }

    /// Moves all of `amount` into `self`, leaving `amount` at zero.
    pub fn give(&mut self, amount: &mut Self)
        requires
            old(self).value.sum_ok(old(amount).value),
        ensures
            final(self).wf(),
            final(self).value == old(self).value.sum(old(amount).value),
            final(amount).wf(),
            final(amount).value.n() == 0,
    {
        self.value = self.value.plus(amount.value);
        *amount = Self::zero();
    }

    /// Sets `self` to `self * a + b`.
    pub fn mul_add_assign(&mut self, a: Ratio, b: Self)
        requires
            old(self).value.product_ok(a),
            old(self).value.product(a).sum_ok(b.value),
        ensures
            final(self).wf(),
            final(self).value == old(self).value.product(a).sum(b.value),
    {
        let scaled = self.value.times(a);
        self.value = scaled.plus(b.value);
    }
}

/// Sum of two quantities of one kind.
impl<U> core::ops::Add<Quantity<U>> for Quantity<U> {
    type Output = Quantity<U>;

    fn add(self, rhs: Quantity<U>) -> (r: Quantity<U>) {
        Quantity::<U>::new(self.value.plus(rhs.value))
    }
}

impl<U> vstd::std_specs::ops::AddSpecImpl<Quantity<U>> for Quantity<U> {
    open spec fn obeys_add_spec() -> bool {
        true
    }

    open spec fn add_req(self, rhs: Quantity<U>) -> bool {
        self.value.sum_ok(rhs.value)
    }

    open spec fn add_spec(self, rhs: Quantity<U>) -> Quantity<U> {
        Quantity::<U>::from_spec(self.value.sum(rhs.value))
    }
}

/// Sum of two quantities of one kind.
impl<'a, U> core::ops::Add<&'a Quantity<U>> for Quantity<U> {
    type Output = Quantity<U>;

    fn add(self, rhs: &'a Quantity<U>) -> (r: Quantity<U>) {
        Quantity::<U>::new(self.value.plus(rhs.value))
    }
}

impl<'a, U> vstd::std_specs::ops::AddSpecImpl<&'a Quantity<U>> for Quantity<U> {
    open spec fn obeys_add_spec() -> bool {
        true
    }

    open spec fn add_req(self, rhs: &'a Quantity<U>) -> bool {
        self.value.sum_ok(rhs.value)
    }

    open spec fn add_spec(self, rhs: &'a Quantity<U>) -> Quantity<U> {
        Quantity::<U>::from_spec(self.value.sum(rhs.value))
    }
}

/// Sum of two quantities of one kind.
impl<'a, U> core::ops::Add<Quantity<U>> for &'a Quantity<U> {
    type Output = Quantity<U>;

    fn add(self, rhs: Quantity<U>) -> (r: Quantity<U>) {
        Quantity::<U>::new(self.value.plus(rhs.value))
    }
}

impl<'a, U> vstd::std_specs::ops::AddSpecImpl<Quantity<U>> for &'a Quantity<U> {
    open spec fn obeys_add_spec() -> bool {
        true
    }

    open spec fn add_req(self, rhs: Quantity<U>) -> bool {
        self.value.sum_ok(rhs.value)
    }

    open spec fn add_spec(self, rhs: Quantity<U>) -> Quantity<U> {
        Quantity::<U>::from_spec(self.value.sum(rhs.value))
    }
}

/// Sum of two quantities of one kind.
impl<'a, U> core::ops::Add<&'a Quantity<U>> for &'a Quantity<U> {
    type Output = Quantity<U>;

    fn add(self, rhs: &'a Quantity<U>) -> (r: Quantity<U>) {
        Quantity::<U>::new(self.value.plus(rhs.value))
    }
}

impl<'a, U> vstd::std_specs::ops::AddSpecImpl<&'a Quantity<U>> for &'a Quantity<U> {
    open spec fn obeys_add_spec() -> bool {
        true
    }

    open spec fn add_req(self, rhs: &'a Quantity<U>) -> bool {
        self.value.sum_ok(rhs.value)
    }

    open spec fn add_spec(self, rhs: &'a Quantity<U>) -> Quantity<U> {
        Quantity::<U>::from_spec(self.value.sum(rhs.value))
    }
}

/// Difference of two quantities of one kind.
impl<U> core::ops::Sub<Quantity<U>> for Quantity<U> {
    type Output = Quantity<U>;

    fn sub(self, rhs: Quantity<U>) -> (r: Quantity<U>) {
        Quantity::<U>::new(self.value.minus(rhs.value))
    }
}

impl<U> vstd::std_specs::ops::SubSpecImpl<Quantity<U>> for Quantity<U> {
    open spec fn obeys_sub_spec() -> bool {
        true
    }

    open spec fn sub_req(self, rhs: Quantity<U>) -> bool {
        self.value.difference_ok(rhs.value)
    }

    open spec fn sub_spec(self, rhs: Quantity<U>) -> Quantity<U> {
        Quantity::<U>::from_spec(self.value.difference(rhs.value))
    }
}

/// Difference of two quantities of one kind.
impl<'a, U> core::ops::Sub<&'a Quantity<U>> for Quantity<U> {
    type Output = Quantity<U>;

    fn sub(self, rhs: &'a Quantity<U>) -> (r: Quantity<U>) {
        Quantity::<U>::new(self.value.minus(rhs.value))
    }
}

impl<'a, U> vstd::std_specs::ops::SubSpecImpl<&'a Quantity<U>> for Quantity<U> {
    open spec fn obeys_sub_spec() -> bool {
        true
    }

    open spec fn sub_req(self, rhs: &'a Quantity<U>) -> bool {
        self.value.difference_ok(rhs.value)
    }

    open spec fn sub_spec(self, rhs: &'a Quantity<U>) -> Quantity<U> {
        Quantity::<U>::from_spec(self.value.difference(rhs.value))
    }
}

/// Difference of two quantities of one kind.
impl<'a, U> core::ops::Sub<Quantity<U>> for &'a Quantity<U> {
    type Output = Quantity<U>;

    fn sub(self, rhs: Quantity<U>) -> (r: Quantity<U>) {
        Quantity::<U>::new(self.value.minus(rhs.value))
    }
}

impl<'a, U> vstd::std_specs::ops::SubSpecImpl<Quantity<U>> for &'a Quantity<U> {
    open spec fn obeys_sub_spec() -> bool {
        true
    }

    open spec fn sub_req(self, rhs: Quantity<U>) -> bool {
        self.value.difference_ok(rhs.value)
    }

    open spec fn sub_spec(self, rhs: Quantity<U>) -> Quantity<U> {
        Quantity::<U>::from_spec(self.value.difference(rhs.value))
    }
}

/// Difference of two quantities of one kind.
impl<'a, U> core::ops::Sub<&'a Quantity<U>> for &'a Quantity<U> {
    type Output = Quantity<U>;

    fn sub(self, rhs: &'a Quantity<U>) -> (r: Quantity<U>) {
        Quantity::<U>::new(self.value.minus(rhs.value))
    }
}

impl<'a, U> vstd::std_specs::ops::SubSpecImpl<&'a Quantity<U>> for &'a Quantity<U> {
    open spec fn obeys_sub_spec() -> bool {
        true
    }

    open spec fn sub_req(self, rhs: &'a Quantity<U>) -> bool {
        self.value.difference_ok(rhs.value)
    }

    open spec fn sub_spec(self, rhs: &'a Quantity<U>) -> Quantity<U> {
        Quantity::<U>::from_spec(self.value.difference(rhs.value))
    }
}

/// A quantity scaled by a raw number.
impl<U> core::ops::Mul<Ratio> for Quantity<U> {
    type Output = Quantity<U>;

    fn mul(self, rhs: Ratio) -> (r: Quantity<U>) {
        Quantity::<U>::new(self.value.times(rhs))
    }
}

impl<U> vstd::std_specs::ops::MulSpecImpl<Ratio> for Quantity<U> {
    open spec fn obeys_mul_spec() -> bool {
        true
    }

    open spec fn mul_req(self, rhs: Ratio) -> bool {
        self.value.product_ok(rhs)
    }

    open spec fn mul_spec(self, rhs: Ratio) -> Quantity<U> {
        Quantity::<U>::from_spec(self.value.product(rhs))
    }
}

/// A quantity scaled by a raw number.
impl<'a, U> core::ops::Mul<&'a Ratio> for Quantity<U> {
    type Output = Quantity<U>;

    fn mul(self, rhs: &'a Ratio) -> (r: Quantity<U>) {
        Quantity::<U>::new(self.value.times(*rhs))
    }
}

impl<'a, U> vstd::std_specs::ops::MulSpecImpl<&'a Ratio> for Quantity<U> {
    open spec fn obeys_mul_spec() -> bool {
        true
    }

    open spec fn mul_req(self, rhs: &'a Ratio) -> bool {
        self.value.product_ok(*rhs)
    }

    open spec fn mul_spec(self, rhs: &'a Ratio) -> Quantity<U> {
        Quantity::<U>::from_spec(self.value.product(*rhs))
    }
}

/// A quantity scaled by a raw number.
impl<'a, U> core::ops::Mul<Ratio> for &'a Quantity<U> {
    type Output = Quantity<U>;

    fn mul(self, rhs: Ratio) -> (r: Quantity<U>) {
        Quantity::<U>::new(self.value.times(rhs))
    }
}

impl<'a, U> vstd::std_specs::ops::MulSpecImpl<Ratio> for &'a Quantity<U> {
    open spec fn obeys_mul_spec() -> bool {
        true
    }

    open spec fn mul_req(self, rhs: Ratio) -> bool {
        self.value.product_ok(rhs)
    }

    open spec fn mul_spec(self, rhs: Ratio) -> Quantity<U> {
        Quantity::<U>::from_spec(self.value.product(rhs))
    }
}

/// A quantity scaled by a raw number.
impl<'a, U> core::ops::Mul<&'a Ratio> for &'a Quantity<U> {
    type Output = Quantity<U>;

    fn mul(self, rhs: &'a Ratio) -> (r: Quantity<U>) {
        Quantity::<U>::new(self.value.times(*rhs))
    }
}

impl<'a, U> vstd::std_specs::ops::MulSpecImpl<&'a Ratio> for &'a Quantity<U> {
    open spec fn obeys_mul_spec() -> bool {
        true
    }

    open spec fn mul_req(self, rhs: &'a Ratio) -> bool {
        self.value.product_ok(*rhs)
    }

    open spec fn mul_spec(self, rhs: &'a Ratio) -> Quantity<U> {
        Quantity::<U>::from_spec(self.value.product(*rhs))
    }
}

/// A raw number scaling a quantity.
impl<U> core::ops::Mul<Quantity<U>> for Ratio {
    type Output = Quantity<U>;

    fn mul(self, rhs: Quantity<U>) -> (r: Quantity<U>) {
        Quantity::<U>::new(rhs.value.times(self))
    }
}

impl<U> vstd::std_specs::ops::MulSpecImpl<Quantity<U>> for Ratio {
    open spec fn obeys_mul_spec() -> bool {
        true
    }

    open spec fn mul_req(self, rhs: Quantity<U>) -> bool {
        rhs.value.product_ok(self)
    }

    open spec fn mul_spec(self, rhs: Quantity<U>) -> Quantity<U> {
        Quantity::<U>::from_spec(rhs.value.product(self))
    }
}

/// A raw number scaling a quantity.
impl<'a, U> core::ops::Mul<&'a Quantity<U>> for Ratio {
    type Output = Quantity<U>;

    fn mul(self, rhs: &'a Quantity<U>) -> (r: Quantity<U>) {
        Quantity::<U>::new(rhs.value.times(self))
    }
}

impl<'a, U> vstd::std_specs::ops::MulSpecImpl<&'a Quantity<U>> for Ratio {
    open spec fn obeys_mul_spec() -> bool {
        true
    }

    open spec fn mul_req(self, rhs: &'a Quantity<U>) -> bool {
        rhs.value.product_ok(self)
    }

    open spec fn mul_spec(self, rhs: &'a Quantity<U>) -> Quantity<U> {
        Quantity::<U>::from_spec(rhs.value.product(self))
    }
}

/// A raw number scaling a quantity.
impl<'a, U> core::ops::Mul<Quantity<U>> for &'a Ratio {
    type Output = Quantity<U>;

    fn mul(self, rhs: Quantity<U>) -> (r: Quantity<U>) {
        Quantity::<U>::new(rhs.value.times(*self))
    }
}

impl<'a, U> vstd::std_specs::ops::MulSpecImpl<Quantity<U>> for &'a Ratio {
    open spec fn obeys_mul_spec() -> bool {
        true
    }

    open spec fn mul_req(self, rhs: Quantity<U>) -> bool {
        rhs.value.product_ok(*self)
    }

    open spec fn mul_spec(self, rhs: Quantity<U>) -> Quantity<U> {
        Quantity::<U>::from_spec(rhs.value.product(*self))
    }
}

/// A raw number scaling a quantity.
impl<'a, U> core::ops::Mul<&'a Quantity<U>> for &'a Ratio {
    type Output = Quantity<U>;

    fn mul(self, rhs: &'a Quantity<U>) -> (r: Quantity<U>) {
        Quantity::<U>::new(rhs.value.times(*self))
    }
}

impl<'a, U> vstd::std_specs::ops::MulSpecImpl<&'a Quantity<U>> for &'a Ratio {
    open spec fn obeys_mul_spec() -> bool {
        true
    }

    open spec fn mul_req(self, rhs: &'a Quantity<U>) -> bool {
        rhs.value.product_ok(*self)
    }

    open spec fn mul_spec(self, rhs: &'a Quantity<U>) -> Quantity<U> {
        Quantity::<U>::from_spec(rhs.value.product(*self))
    }
}

/// A quantity divided by a raw number.
impl<U> core::ops::Div<Ratio> for Quantity<U> {
    type Output = Quantity<U>;

    fn div(self, rhs: Ratio) -> (r: Quantity<U>) {
        Quantity::<U>::new(self.value.over(rhs))
    }
}

impl<U> vstd::std_specs::ops::DivSpecImpl<Ratio> for Quantity<U> {
    open spec fn obeys_div_spec() -> bool {
        true
    }

    open spec fn div_req(self, rhs: Ratio) -> bool {
        self.value.quotient_ok(rhs)
    }

    open spec fn div_spec(self, rhs: Ratio) -> Quantity<U> {
        Quantity::<U>::from_spec(self.value.quotient(rhs))
    }
}

/// A quantity divided by a raw number.
impl<'a, U> core::ops::Div<&'a Ratio> for Quantity<U> {
    type Output = Quantity<U>;

    fn div(self, rhs: &'a Ratio) -> (r: Quantity<U>) {
        Quantity::<U>::new(self.value.over(*rhs))
    }
}

impl<'a, U> vstd::std_specs::ops::DivSpecImpl<&'a Ratio> for Quantity<U> {
    open spec fn obeys_div_spec() -> bool {
        true
    }

    open spec fn div_req(self, rhs: &'a Ratio) -> bool {
        self.value.quotient_ok(*rhs)
    }

    open spec fn div_spec(self, rhs: &'a Ratio) -> Quantity<U> {
        Quantity::<U>::from_spec(self.value.quotient(*rhs))
    }
}

/// A quantity divided by a raw number.
impl<'a, U> core::ops::Div<Ratio> for &'a Quantity<U> {
    type Output = Quantity<U>;

    fn div(self, rhs: Ratio) -> (r: Quantity<U>) {
        Quantity::<U>::new(self.value.over(rhs))
    }
}

impl<'a, U> vstd::std_specs::ops::DivSpecImpl<Ratio> for &'a Quantity<U> {
    open spec fn obeys_div_spec() -> bool {
        true
    }

    open spec fn div_req(self, rhs: Ratio) -> bool {
        self.value.quotient_ok(rhs)
    }

    open spec fn div_spec(self, rhs: Ratio) -> Quantity<U> {
        Quantity::<U>::from_spec(self.value.quotient(rhs))
    }
}

/// A quantity divided by a raw number.
impl<'a, U> core::ops::Div<&'a Ratio> for &'a Quantity<U> {
    type Output = Quantity<U>;

    fn div(self, rhs: &'a Ratio) -> (r: Quantity<U>) {
        Quantity::<U>::new(self.value.over(*rhs))
    }
}

impl<'a, U> vstd::std_specs::ops::DivSpecImpl<&'a Ratio> for &'a Quantity<U> {
    open spec fn obeys_div_spec() -> bool {
        true
    }

    open spec fn div_req(self, rhs: &'a Ratio) -> bool {
        self.value.quotient_ok(*rhs)
    }

    open spec fn div_spec(self, rhs: &'a Ratio) -> Quantity<U> {
        Quantity::<U>::from_spec(self.value.quotient(*rhs))
    }
}

/// Remainder of a quantity by another of its kind.
impl<U> core::ops::Rem<Quantity<U>> for Quantity<U> {
    type Output = Quantity<U>;

    fn rem(self, rhs: Quantity<U>) -> (r: Quantity<U>) {
        Quantity::<U>::new(self.value.rem_of(rhs.value))
    }
}

impl<U> vstd::std_specs::ops::RemSpecImpl<Quantity<U>> for Quantity<U> {
    open spec fn obeys_rem_spec() -> bool {
        true
    }

    open spec fn rem_req(self, rhs: Quantity<U>) -> bool {
        self.value.remainder_ok(rhs.value)
    }

    open spec fn rem_spec(self, rhs: Quantity<U>) -> Quantity<U> {
        Quantity::<U>::from_spec(self.value.remainder(rhs.value))
    }
}

/// Remainder of a quantity by another of its kind.
impl<'a, U> core::ops::Rem<&'a Quantity<U>> for Quantity<U> {
    type Output = Quantity<U>;

    fn rem(self, rhs: &'a Quantity<U>) -> (r: Quantity<U>) {
        Quantity::<U>::new(self.value.rem_of(rhs.value))
    }
}

impl<'a, U> vstd::std_specs::ops::RemSpecImpl<&'a Quantity<U>> for Quantity<U> {
    open spec fn obeys_rem_spec() -> bool {
        true
    }

    open spec fn rem_req(self, rhs: &'a Quantity<U>) -> bool {
        self.value.remainder_ok(rhs.value)
    }

    open spec fn rem_spec(self, rhs: &'a Quantity<U>) -> Quantity<U> {
        Quantity::<U>::from_spec(self.value.remainder(rhs.value))
    }
}

/// Remainder of a quantity by another of its kind.
impl<'a, U> core::ops::Rem<Quantity<U>> for &'a Quantity<U> {
    type Output = Quantity<U>;

    fn rem(self, rhs: Quantity<U>) -> (r: Quantity<U>) {
        Quantity::<U>::new(self.value.rem_of(rhs.value))
    }
}

impl<'a, U> vstd::std_specs::ops::RemSpecImpl<Quantity<U>> for &'a Quantity<U> {
    open spec fn obeys_rem_spec() -> bool {
        true
    }

    open spec fn rem_req(self, rhs: Quantity<U>) -> bool {
        self.value.remainder_ok(rhs.value)
    }

    open spec fn rem_spec(self, rhs: Quantity<U>) -> Quantity<U> {
        Quantity::<U>::from_spec(self.value.remainder(rhs.value))
    }
}

/// Remainder of a quantity by another of its kind.
impl<'a, U> core::ops::Rem<&'a Quantity<U>> for &'a Quantity<U> {
    type Output = Quantity<U>;

    fn rem(self, rhs: &'a Quantity<U>) -> (r: Quantity<U>) {
        Quantity::<U>::new(self.value.rem_of(rhs.value))
    }
}

impl<'a, U> vstd::std_specs::ops::RemSpecImpl<&'a Quantity<U>> for &'a Quantity<U> {
    open spec fn obeys_rem_spec() -> bool {
        true
    }

    open spec fn rem_req(self, rhs: &'a Quantity<U>) -> bool {
        self.value.remainder_ok(rhs.value)
    }

    open spec fn rem_spec(self, rhs: &'a Quantity<U>) -> Quantity<U> {
        Quantity::<U>::from_spec(self.value.remainder(rhs.value))
    }
}

/// Division along a declared relation `N / D`.
impl<N, D> core::ops::Div<Quantity<D>> for Quantity<N> where N: Quotient<D> {
    type Output = <N as Quotient<D>>::Output;

    fn div(self, rhs: Quantity<D>) -> (r: <N as Quotient<D>>::Output) {
        <N as Quotient<D>>::Output::new(self.value.over(rhs.value))
    }
}

impl<N, D> vstd::std_specs::ops::DivSpecImpl<Quantity<D>> for Quantity<N> where N: Quotient<D> {
    open spec fn obeys_div_spec() -> bool {
        true
    }

    open spec fn div_req(self, rhs: Quantity<D>) -> bool {
        self.value.quotient_ok(rhs.value)
    }

    open spec fn div_spec(self, rhs: Quantity<D>) -> <N as Quotient<D>>::Output {
        <N as Quotient<D>>::Output::from_spec(self.value.quotient(rhs.value))
    }
}

/// Division along a declared relation `N / D`.
impl<'a, N, D> core::ops::Div<&'a Quantity<D>> for Quantity<N> where N: Quotient<D> {
    type Output = <N as Quotient<D>>::Output;

    fn div(self, rhs: &'a Quantity<D>) -> (r: <N as Quotient<D>>::Output) {
        <N as Quotient<D>>::Output::new(self.value.over(rhs.value))
    }
}

impl<'a, N, D> vstd::std_specs::ops::DivSpecImpl<&'a Quantity<D>> for Quantity<N> where N: Quotient<D> {
    open spec fn obeys_div_spec() -> bool {
        true
    }

    open spec fn div_req(self, rhs: &'a Quantity<D>) -> bool {
        self.value.quotient_ok(rhs.value)
    }

    open spec fn div_spec(self, rhs: &'a Quantity<D>) -> <N as Quotient<D>>::Output {
        <N as Quotient<D>>::Output::from_spec(self.value.quotient(rhs.value))
    }
}

/// Division along a declared relation `N / D`.
impl<'a, N, D> core::ops::Div<Quantity<D>> for &'a Quantity<N> where N: Quotient<D> {
    type Output = <N as Quotient<D>>::Output;

    fn div(self, rhs: Quantity<D>) -> (r: <N as Quotient<D>>::Output) {
        <N as Quotient<D>>::Output::new(self.value.over(rhs.value))
    }
}

impl<'a, N, D> vstd::std_specs::ops::DivSpecImpl<Quantity<D>> for &'a Quantity<N> where N: Quotient<D> {
    open spec fn obeys_div_spec() -> bool {
        true
    }

    open spec fn div_req(self, rhs: Quantity<D>) -> bool {
        self.value.quotient_ok(rhs.value)
    }

    open spec fn div_spec(self, rhs: Quantity<D>) -> <N as Quotient<D>>::Output {
        <N as Quotient<D>>::Output::from_spec(self.value.quotient(rhs.value))
    }
}

/// Division along a declared relation `N / D`.
impl<'a, N, D> core::ops::Div<&'a Quantity<D>> for &'a Quantity<N> where N: Quotient<D> {
    type Output = <N as Quotient<D>>::Output;

    fn div(self, rhs: &'a Quantity<D>) -> (r: <N as Quotient<D>>::Output) {
        <N as Quotient<D>>::Output::new(self.value.over(rhs.value))
    }
}

impl<'a, N, D> vstd::std_specs::ops::DivSpecImpl<&'a Quantity<D>> for &'a Quantity<N> where N: Quotient<D> {
    open spec fn obeys_div_spec() -> bool {
        true
    }

    open spec fn div_req(self, rhs: &'a Quantity<D>) -> bool {
        self.value.quotient_ok(rhs.value)
    }

    open spec fn div_spec(self, rhs: &'a Quantity<D>) -> <N as Quotient<D>>::Output {
        <N as Quotient<D>>::Output::from_spec(self.value.quotient(rhs.value))
    }
}

/// Multiplication along a declared relation `A * B`.
impl<A, B> core::ops::Mul<Quantity<B>> for Quantity<A> where A: Product<B> {
    type Output = <A as Product<B>>::Output;

    fn mul(self, rhs: Quantity<B>) -> (r: <A as Product<B>>::Output) {
        <A as Product<B>>::Output::new(self.value.times(rhs.value))
    }
}

impl<A, B> vstd::std_specs::ops::MulSpecImpl<Quantity<B>> for Quantity<A> where A: Product<B> {
    open spec fn obeys_mul_spec() -> bool {
        true
    }

    open spec fn mul_req(self, rhs: Quantity<B>) -> bool {
        self.value.product_ok(rhs.value)
    }

    open spec fn mul_spec(self, rhs: Quantity<B>) -> <A as Product<B>>::Output {
        <A as Product<B>>::Output::from_spec(self.value.product(rhs.value))
    }
}

/// Multiplication along a declared relation `A * B`.
impl<'a, A, B> core::ops::Mul<&'a Quantity<B>> for Quantity<A> where A: Product<B> {
    type Output = <A as Product<B>>::Output;

    fn mul(self, rhs: &'a Quantity<B>) -> (r: <A as Product<B>>::Output) {
        <A as Product<B>>::Output::new(self.value.times(rhs.value))
    }
}

impl<'a, A, B> vstd::std_specs::ops::MulSpecImpl<&'a Quantity<B>> for Quantity<A> where A: Product<B> {
    open spec fn obeys_mul_spec() -> bool {
        true
    }

    open spec fn mul_req(self, rhs: &'a Quantity<B>) -> bool {
        self.value.product_ok(rhs.value)
    }

    open spec fn mul_spec(self, rhs: &'a Quantity<B>) -> <A as Product<B>>::Output {
        <A as Product<B>>::Output::from_spec(self.value.product(rhs.value))
    }
}

/// Multiplication along a declared relation `A * B`.
impl<'a, A, B> core::ops::Mul<Quantity<B>> for &'a Quantity<A> where A: Product<B> {
    type Output = <A as Product<B>>::Output;

    fn mul(self, rhs: Quantity<B>) -> (r: <A as Product<B>>::Output) {
        <A as Product<B>>::Output::new(self.value.times(rhs.value))
    }
}

impl<'a, A, B> vstd::std_specs::ops::MulSpecImpl<Quantity<B>> for &'a Quantity<A> where A: Product<B> {
    open spec fn obeys_mul_spec() -> bool {
        true
    }

    open spec fn mul_req(self, rhs: Quantity<B>) -> bool {
        self.value.product_ok(rhs.value)
    }

    open spec fn mul_spec(self, rhs: Quantity<B>) -> <A as Product<B>>::Output {
        <A as Product<B>>::Output::from_spec(self.value.product(rhs.value))
    }
}

/// Multiplication along a declared relation `A * B`.
impl<'a, A, B> core::ops::Mul<&'a Quantity<B>> for &'a Quantity<A> where A: Product<B> {
    type Output = <A as Product<B>>::Output;

    fn mul(self, rhs: &'a Quantity<B>) -> (r: <A as Product<B>>::Output) {
        <A as Product<B>>::Output::new(self.value.times(rhs.value))
    }
}

impl<'a, A, B> vstd::std_specs::ops::MulSpecImpl<&'a Quantity<B>> for &'a Quantity<A> where A: Product<B> {
    open spec fn obeys_mul_spec() -> bool {
        true
    }

    open spec fn mul_req(self, rhs: &'a Quantity<B>) -> bool {
        self.value.product_ok(rhs.value)
    }

    open spec fn mul_spec(self, rhs: &'a Quantity<B>) -> <A as Product<B>>::Output {
        <A as Product<B>>::Output::from_spec(self.value.product(rhs.value))
    }
}

/// Division of a raw number along a declared relation `Unitless / D`.
impl<D> core::ops::Div<Quantity<D>> for Ratio where Unitless: Quotient<D> {
    type Output = <Unitless as Quotient<D>>::Output;

    fn div(self, rhs: Quantity<D>) -> (r: <Unitless as Quotient<D>>::Output) {
        <Unitless as Quotient<D>>::Output::new(self.over(rhs.value))
    }
}

impl<D> vstd::std_specs::ops::DivSpecImpl<Quantity<D>> for Ratio where Unitless: Quotient<D> {
    open spec fn obeys_div_spec() -> bool {
        true
    }

    open spec fn div_req(self, rhs: Quantity<D>) -> bool {
        self.quotient_ok(rhs.value)
    }

    open spec fn div_spec(self, rhs: Quantity<D>) -> <Unitless as Quotient<D>>::Output {
        <Unitless as Quotient<D>>::Output::from_spec(self.quotient(rhs.value))
    }
}

/// Division of a raw number along a declared relation `Unitless / D`.
impl<'a, D> core::ops::Div<&'a Quantity<D>> for Ratio where Unitless: Quotient<D> {
    type Output = <Unitless as Quotient<D>>::Output;

    fn div(self, rhs: &'a Quantity<D>) -> (r: <Unitless as Quotient<D>>::Output) {
        <Unitless as Quotient<D>>::Output::new(self.over(rhs.value))
    }
}

impl<'a, D> vstd::std_specs::ops::DivSpecImpl<&'a Quantity<D>> for Ratio where Unitless: Quotient<D> {
    open spec fn obeys_div_spec() -> bool {
        true
    }

    open spec fn div_req(self, rhs: &'a Quantity<D>) -> bool {
        self.quotient_ok(rhs.value)
    }

    open spec fn div_spec(self, rhs: &'a Quantity<D>) -> <Unitless as Quotient<D>>::Output {
        <Unitless as Quotient<D>>::Output::from_spec(self.quotient(rhs.value))
    }
}

/// Division of a raw number along a declared relation `Unitless / D`.
impl<'a, D> core::ops::Div<Quantity<D>> for &'a Ratio where Unitless: Quotient<D> {
    type Output = <Unitless as Quotient<D>>::Output;

    fn div(self, rhs: Quantity<D>) -> (r: <Unitless as Quotient<D>>::Output) {
        <Unitless as Quotient<D>>::Output::new((*self).over(rhs.value))
    }
}

impl<'a, D> vstd::std_specs::ops::DivSpecImpl<Quantity<D>> for &'a Ratio where Unitless: Quotient<D> {
    open spec fn obeys_div_spec() -> bool {
        true
    }

    open spec fn div_req(self, rhs: Quantity<D>) -> bool {
        (*self).quotient_ok(rhs.value)
    }

    open spec fn div_spec(self, rhs: Quantity<D>) -> <Unitless as Quotient<D>>::Output {
        <Unitless as Quotient<D>>::Output::from_spec((*self).quotient(rhs.value))
    }
}

/// Division of a raw number along a declared relation `Unitless / D`.
impl<'a, D> core::ops::Div<&'a Quantity<D>> for &'a Ratio where Unitless: Quotient<D> {
    type Output = <Unitless as Quotient<D>>::Output;

    fn div(self, rhs: &'a Quantity<D>) -> (r: <Unitless as Quotient<D>>::Output) {
        <Unitless as Quotient<D>>::Output::new((*self).over(rhs.value))
    }
}

impl<'a, D> vstd::std_specs::ops::DivSpecImpl<&'a Quantity<D>> for &'a Ratio where Unitless: Quotient<D> {
    open spec fn obeys_div_spec() -> bool {
        true
    }

    open spec fn div_req(self, rhs: &'a Quantity<D>) -> bool {
        (*self).quotient_ok(rhs.value)
    }

    open spec fn div_spec(self, rhs: &'a Quantity<D>) -> <Unitless as Quotient<D>>::Output {
        <Unitless as Quotient<D>>::Output::from_spec((*self).quotient(rhs.value))
    }
}

/// Negation of a quantity.
impl<U> core::ops::Neg for Quantity<U> {
    type Output = Quantity<U>;

    fn neg(self) -> (r: Quantity<U>) {
        Quantity::<U>::new(self.value.negate())
    }
}

impl<U> vstd::std_specs::ops::NegSpecImpl for Quantity<U> {
    open spec fn obeys_neg_spec() -> bool {
        true
    }

    open spec fn neg_req(self) -> bool {
        self.value.negation_ok()
    }

    open spec fn neg_spec(self) -> Quantity<U> {
        Quantity::<U>::from_spec(self.value.negation())
    }
}

/// Negation of a quantity.
impl<'a, U> core::ops::Neg for &'a Quantity<U> {
    type Output = Quantity<U>;

    fn neg(self) -> (r: Quantity<U>) {
        Quantity::<U>::new(self.value.negate())
    }
}

impl<'a, U> vstd::std_specs::ops::NegSpecImpl for &'a Quantity<U> {
    open spec fn obeys_neg_spec() -> bool {
        true
    }

    open spec fn neg_req(self) -> bool {
        self.value.negation_ok()
    }

    open spec fn neg_spec(self) -> Quantity<U> {
        Quantity::<U>::from_spec(self.value.negation())
    }
}
impl<U> PartialEq for Quantity<U> {
    fn eq(&self, other: &Quantity<U>) -> (r: bool) {
        self.value == other.value
    }
}

impl<U> vstd::std_specs::cmp::PartialEqSpecImpl for Quantity<U> {
    open spec fn obeys_eq_spec() -> bool {
        true
    }

    open spec fn eq_spec(&self, other: &Quantity<U>) -> bool {
        self.value.same(other.value)
    }
}

impl<U> Eq for Quantity<U> {
}

impl<U> PartialOrd for Quantity<U> {
    fn partial_cmp(&self, other: &Quantity<U>) -> (r: Option<Ordering>) {
        self.value.partial_cmp(&other.value)
    }
}

impl<U> vstd::std_specs::cmp::PartialOrdSpecImpl for Quantity<U> {
    open spec fn obeys_partial_cmp_spec() -> bool {
        true
    }

    open spec fn partial_cmp_spec(&self, other: &Quantity<U>) -> Option<Ordering> {
        Some(self.value.compare(other.value))
    }
}

/// Adds `rhs` in place.
impl<U> core::ops::AddAssign<Quantity<U>> for Quantity<U> {
    fn add_assign(&mut self, rhs: Quantity<U>)
        requires
            old(self).value.sum_ok(rhs.value),
        ensures
            final(self).wf(),
            final(self).value == old(self).value.sum(rhs.value),
    {
        self.value = self.value.plus(rhs.value);
    }
}

/// Adds `rhs` in place.
impl<'a, U> core::ops::AddAssign<&'a Quantity<U>> for Quantity<U> {
    fn add_assign(&mut self, rhs: &'a Quantity<U>)
        requires
            old(self).value.sum_ok(rhs.value),
        ensures
            final(self).wf(),
            final(self).value == old(self).value.sum(rhs.value),
    {
        self.value = self.value.plus(rhs.value);
    }
}

/// Subtracts `rhs` in place.
impl<U> core::ops::SubAssign<Quantity<U>> for Quantity<U> {
    fn sub_assign(&mut self, rhs: Quantity<U>)
        requires
            old(self).value.difference_ok(rhs.value),
        ensures
            final(self).wf(),
            final(self).value == old(self).value.difference(rhs.value),
    {
        self.value = self.value.minus(rhs.value);
    }
}

/// Subtracts `rhs` in place.
impl<'a, U> core::ops::SubAssign<&'a Quantity<U>> for Quantity<U> {
    fn sub_assign(&mut self, rhs: &'a Quantity<U>)
        requires
            old(self).value.difference_ok(rhs.value),
        ensures
            final(self).wf(),
            final(self).value == old(self).value.difference(rhs.value),
    {
        self.value = self.value.minus(rhs.value);
    }
}

/// Scales by `rhs` in place.
impl<U> core::ops::MulAssign<Ratio> for Quantity<U> {
    fn mul_assign(&mut self, rhs: Ratio)
        requires
            old(self).value.product_ok(rhs),
        ensures
            final(self).wf(),
            final(self).value == old(self).value.product(rhs),
    {
        self.value = self.value.times(rhs);
    }
}

/// Scales by `rhs` in place.
impl<'a, U> core::ops::MulAssign<&'a Ratio> for Quantity<U> {
    fn mul_assign(&mut self, rhs: &'a Ratio)
        requires
            old(self).value.product_ok(*rhs),
        ensures
            final(self).wf(),
            final(self).value == old(self).value.product(*rhs),
    {
        self.value = self.value.times(*rhs);
    }
}

/// Divides by `rhs` in place.
impl<U> core::ops::DivAssign<Ratio> for Quantity<U> {
    fn div_assign(&mut self, rhs: Ratio)
        requires
            old(self).value.quotient_ok(rhs),
        ensures
            final(self).wf(),
            final(self).value == old(self).value.quotient(rhs),
    {
        self.value = self.value.over(rhs);
    }
}

/// Divides by `rhs` in place.
impl<'a, U> core::ops::DivAssign<&'a Ratio> for Quantity<U> {
    fn div_assign(&mut self, rhs: &'a Ratio)
        requires
            old(self).value.quotient_ok(*rhs),
        ensures
            final(self).wf(),
            final(self).value == old(self).value.quotient(*rhs),
    {
        self.value = self.value.over(*rhs);
    }
}

/// The sum of `items`, added from the first on; zero when there are none.
pub open spec fn total<U>(items: Seq<Quantity<U>>) -> Ratio
    decreases items.len(),
{
    if items.len() == 0 {
        Ratio { num: 0, den: 1 }
    } else {
        total(items.drop_last()).sum(items.last().value)
    }
}

/// Every partial sum of `items` can be represented.
pub open spec fn total_ok<U>(items: Seq<Quantity<U>>) -> bool {
    forall|i: int| 0 <= i < items.len() ==> #[trigger] total(items.take(i)).sum_ok(items[i].value)
}

impl<U> Quantity<U> {
    /// The sum of a sequence of quantities of one kind.
    pub fn sum(items: &[Quantity<U>]) -> (r: Quantity<U>)
        requires
            total_ok(items@),
        ensures
            r.wf(),
            r.value == total(items@),
    {
        let mut acc: Quantity<U> = Quantity::zero();
        let mut i: usize = 0;
        proof {
            assert(items@.take(0) =~= Seq::<Quantity<U>>::empty());
        }
        while i < items.len()
            invariant
                i <= items.len(),
                total_ok(items@),
                acc.wf(),
                acc.value == total(items@.take(i as int)),
            decreases items.len() - i,
        {
            let item = items[i];
            proof {
                assert(items@.take(i as int + 1).drop_last() =~= items@.take(i as int));
                assert(items@.take(i as int + 1).last() == items@[i as int]);
                assert(total(items@.take(i as int)).sum_ok(items@[i as int].value));
            }
            acc = Quantity::new(acc.value.plus(item.value));
            i = i + 1;
        }
        proof {
            assert(items@.take(items@.len() as int) =~= items@);
        }
        acc
    }
}

} // verus!
