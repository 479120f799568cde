//! Two- and three-dimensional vectors of quantities, and the coordinate
//! wrappers built on them.
use vstd::prelude::*;
use crate::quantity::{New, Product, Quantity, Scalar, Scalar3};
use crate::ratio::Ratio;
use crate::units::{Angle, Length};
use core::marker::PhantomData;

verus! {

/// A vector in the plane.
#[derive(Clone, Copy, Debug, PartialEq, Eq)]
pub struct Vector2<X, Y = X> {
    pub x: X,
    pub y: Y,
}

/// A vector in space.
#[derive(Clone, Copy, Debug, PartialEq, Eq)]
pub struct Vector3<X, Y = X, Z = X> {
    pub x: X,
    pub y: Y,
    pub z: Z,
}

/// A direction in the plane, given by the cosine and sine of its angle
/// measured anticlockwise from the positive x-axis.
#[derive(Clone, Copy, Debug)]
pub struct Direction {
    pub cos: Ratio,
    pub sin: Ratio,
}

impl<U> Scalar for Quantity<U> {
    type Vector = Vector2<Quantity<U>>;

    fn vector(x: Quantity<U>, y: Quantity<U>) -> (r: Vector2<Quantity<U>>) {
        Vector2 { x, y }
    }
}

impl<U> Scalar3 for Quantity<U> {
    type Vector = Vector3<Quantity<U>>;

    fn vector3(x: Quantity<U>, y: Quantity<U>, z: Quantity<U>) -> (r: Vector3<Quantity<U>>) {
        Vector3 { x, y, z }
    }
}

impl<T> Vector3<T> {
    /// The vector's projection on the xy-plane.
    pub fn project_xy(self) -> (r: Vector2<T>)
        ensures
            r.x == self.x,
            r.y == self.y,
    {
        Vector2 { x: self.x, y: self.y }
    }
}

impl<U> Vector2<Quantity<U>> {
    /// The vector of the given length in the given direction.
    pub fn from_angle_and_magnitude(angle: Direction, magnitude: Quantity<U>) -> (r: Self)
        requires
            magnitude.value.product_ok(angle.cos),
            magnitude.value.product_ok(angle.sin),
        ensures
            r.x.value == magnitude.value.product(angle.cos),
            r.y.value == magnitude.value.product(angle.sin),
    {
        Vector2 {
            x: Quantity::new(magnitude.value.times(angle.cos)),
            y: Quantity::new(magnitude.value.times(angle.sin)),
        }
    }
}

/// The sum of the squares of two raw values.
pub open spec fn sum_of_squares(x: Ratio, y: Ratio) -> Ratio {
    x.product(x).sum(y.product(y))
}

/// The sum of the squares can be represented.
pub open spec fn sum_of_squares_ok(x: Ratio, y: Ratio) -> bool {
    x.product_ok(x) && y.product_ok(y) && x.product(x).sum_ok(y.product(y))
}

impl<U> Vector2<Quantity<U>> {
    /// The length of the vector: the square root of the sum of the squares
    /// of its components, to the precision of that sum's denominator.
    pub fn magnitude(&self) -> (r: Quantity<U>)
        requires
            sum_of_squares_ok(self.x.value, self.y.value),
        ensures
            r.wf(),
            r.value == sum_of_squares(self.x.value, self.y.value).root(),
    {
        let sq = self.x.value.times(self.x.value).plus(self.y.value.times(self.y.value));
        proof {
            assert(sq.n() >= 0) by (nonlinear_arith)
                requires
                    sq.n() == self.x.value.n() * self.x.value.n() * (self.y.value.d() * self.y.value.d())
                        + self.y.value.n() * self.y.value.n() * (self.x.value.d() * self.x.value.d()),
            ;
        }
        Quantity::new(sq.square_root())
    }
}

impl<U: Product<U>> Vector2<Quantity<U>> {
    /// The square of the vector's length.
    pub fn magnitude_squared(&self) -> (r: <U as Product<U>>::Output)
        requires
            sum_of_squares_ok(self.x.value, self.y.value),
        ensures
            r == <U as Product<U>>::Output::from_spec(sum_of_squares(self.x.value, self.y.value)),
    {
        let sq = self.x.value.times(self.x.value).plus(self.y.value.times(self.y.value));
        <U as Product<U>>::Output::new(sq)
    }
}

impl<U> Vector2<Quantity<U>> {
    /// The dot product with a vector of a kind that `U` multiplies with.
    pub fn dot<V>(self, rhs: Vector2<Quantity<V>>) -> (r: <U as Product<V>>::Output) where
        U: Product<V>,
        requires
            self.x.value.product_ok(rhs.x.value),
            self.y.value.product_ok(rhs.y.value),
            self.x.value.product(rhs.x.value).sum_ok(self.y.value.product(rhs.y.value)),
        ensures
            r == <U as Product<V>>::Output::from_spec(
                self.x.value.product(rhs.x.value).sum(self.y.value.product(rhs.y.value)),
            ),
    {
        let xx = self.x.value.times(rhs.x.value);
        let yy = self.y.value.times(rhs.y.value);
        <U as Product<V>>::Output::new(xx.plus(yy))
    }
}

impl<U> From<Vector2<Quantity<U>>> for Vector3<Quantity<U>> {
    fn from(v: Vector2<Quantity<U>>) -> (r: Vector3<Quantity<U>>) {
        Vector3 { x: v.x, y: v.y, z: Quantity::zero() }
    }
}

impl<U> vstd::std_specs::convert::FromSpecImpl<Vector2<Quantity<U>>> for Vector3<Quantity<U>> {
    open spec fn obeys_from_spec() -> bool {
        true
    }

    open spec fn from_spec(v: Vector2<Quantity<U>>) -> Vector3<Quantity<U>> {
        Vector3 { x: v.x, y: v.y, z: Quantity::of(Ratio { num: 0, den: 1 }) }
    }
}

/// A displacement in the plane.
pub type Distance = Vector2<Length>;

impl Vector2<Length> {
    /// The displacement of `x` and `y` metres.
    pub fn in_m(x: Ratio, y: Ratio) -> (r: Self)
        requires
            x.wf(),
            y.wf(),
        ensures
            r.x.value == x,
            r.y.value == y,
    {
        Vector2 { x: Quantity { value: x, unit: PhantomData }, y: Quantity { value: y, unit: PhantomData } }
    }
}

/// A point in the plane, as its displacement from the origin.
#[derive(Clone, Copy, Debug, PartialEq, Eq)]
pub struct Position(pub Distance);

/// Metres in a light year.
pub const M_PER_LY: i64 = 9_460_730_472_580_800;

impl Position {
    /// The point `x` metres right of and `y` metres above the origin.
    pub fn in_m(x: Ratio, y: Ratio) -> (r: Self)
        requires
            x.wf(),
            y.wf(),
        ensures
            r.0.x.value == x,
            r.0.y.value == y,
    {
        Position(Vector2::in_m(x, y))
    }

    /// The point `x` light years right of and `y` light years above the
    /// origin.
    pub fn in_ly(x: Ratio, y: Ratio) -> (r: Self)
        requires
            x.product_ok(Ratio { num: M_PER_LY as i64, den: 1 }),
            y.product_ok(Ratio { num: M_PER_LY as i64, den: 1 }),
        ensures
            r.0.x.value == x.product(Ratio { num: M_PER_LY as i64, den: 1 }),
            r.0.y.value == y.product(Ratio { num: M_PER_LY as i64, den: 1 }),
    {
        let per: Ratio = Ratio::from_int(M_PER_LY);
        Position::in_m(x.times(per), y.times(per))
    }

    /// The point moved by `d`.
    pub fn moved(self, d: Distance) -> (r: Self)
        requires
            self.0.x.value.sum_ok(d.x.value),
            self.0.y.value.sum_ok(d.y.value),
        ensures
            r.0.x.value == self.0.x.value.sum(d.x.value),
            r.0.y.value == self.0.y.value.sum(d.y.value),
    {
        Position(Vector2 {
            x: Quantity::new(self.0.x.value.plus(d.x.value)),
            y: Quantity::new(self.0.y.value.plus(d.y.value)),
        })
    }

    /// The displacement from `other` to `self`.
    pub fn offset_from(self, other: Position) -> (r: Distance)
        requires
            self.0.x.value.difference_ok(other.0.x.value),
            self.0.y.value.difference_ok(other.0.y.value),
        ensures
            r.x.value == self.0.x.value.difference(other.0.x.value),
            r.y.value == self.0.y.value.difference(other.0.y.value),
    {
        Vector2 {
            x: Quantity::new(self.0.x.value.minus(other.0.x.value)),
            y: Quantity::new(self.0.y.value.minus(other.0.y.value)),
        }
    }
}

impl From<Distance> for Position {
    fn from(d: Distance) -> (r: Position) {
        Position(d)
    }
}

impl vstd::std_specs::convert::FromSpecImpl<Distance> for Position {
    open spec fn obeys_from_spec() -> bool {
        true
    }

    open spec fn from_spec(d: Distance) -> Position {
        Position(d)
    }
}

/// A point given by its distance from the origin and its angle.
#[derive(Clone, Copy, Debug, PartialEq, Eq)]
pub struct Polar<T> {
    pub magnitude: T,
    pub angle: Angle,
}

impl<U> Polar<Quantity<U>> {
    /// The point with its distance scaled by `s`.
    pub fn scaled(self, s: Ratio) -> (r: Self)
        requires
            self.magnitude.value.product_ok(s),
        ensures
            r.magnitude.value == self.magnitude.value.product(s),
            r.angle == self.angle,
    {
        Polar { magnitude: Quantity::new(self.magnitude.value.times(s)), angle: self.angle }
    }

    /// The point with its distance divided by `s`.
    pub fn divided(self, s: Ratio) -> (r: Self)
        requires
            self.magnitude.value.quotient_ok(s),
        ensures
            r.magnitude.value == self.magnitude.value.quotient(s),
            r.angle == self.angle,
    {
        Polar { magnitude: Quantity::new(self.magnitude.value.over(s)), angle: self.angle }
    }

    /// Distances and angles added.
    pub fn plus(self, rhs: Self) -> (r: Self)
        requires
            self.magnitude.value.sum_ok(rhs.magnitude.value),
            self.angle.value.sum_ok(rhs.angle.value),
        ensures
            r.magnitude.value == self.magnitude.value.sum(rhs.magnitude.value),
            r.angle.value == self.angle.value.sum(rhs.angle.value),
    {
        Polar {
            magnitude: Quantity::new(self.magnitude.value.plus(rhs.magnitude.value)),
            angle: Quantity::new(self.angle.value.plus(rhs.angle.value)),
        }
    }

    /// Distances and angles subtracted.
    pub fn minus(self, rhs: Self) -> (r: Self)
        requires
            self.magnitude.value.difference_ok(rhs.magnitude.value),
            self.angle.value.difference_ok(rhs.angle.value),
        ensures
            r.magnitude.value == self.magnitude.value.difference(rhs.magnitude.value),
            r.angle.value == self.angle.value.difference(rhs.angle.value),
    {
        Polar {
            magnitude: Quantity::new(self.magnitude.value.minus(rhs.magnitude.value)),
            angle: Quantity::new(self.angle.value.minus(rhs.angle.value)),
        }
    }
}

/// A point in space given by its distance from the origin, its polar
/// angle `phi` and its azimuth `theta`.
#[derive(Clone, Copy, Debug, PartialEq, Eq)]
pub struct Spherical<T> {
    pub magnitude: T,
    pub phi: Angle,
    pub theta: Angle,
}

/// Sum of two vectors, by component.
impl<U> core::ops::Add<Vector2<Quantity<U>>> for Vector2<Quantity<U>> {
    type Output = Vector2<Quantity<U>>;

    fn add(self, rhs: Vector2<Quantity<U>>) -> (r: Vector2<Quantity<U>>) {
        Vector2 { x: Quantity::new(self.x.value.plus(rhs.x.value)), y: Quantity::new(self.y.value.plus(rhs.y.value)) }
    }
}

impl<U> vstd::std_specs::ops::AddSpecImpl<Vector2<Quantity<U>>> for Vector2<Quantity<U>> {
    open spec fn obeys_add_spec() -> bool {
        true
    }

    open spec fn add_req(self, rhs: Vector2<Quantity<U>>) -> bool {
        &&& self.x.value.sum_ok(rhs.x.value)
        &&& self.y.value.sum_ok(rhs.y.value)
    }

    open spec fn add_spec(self, rhs: Vector2<Quantity<U>>) -> Vector2<Quantity<U>> {
        Vector2 { x: Quantity::of(self.x.value.sum(rhs.x.value)), y: Quantity::of(self.y.value.sum(rhs.y.value)) }
    }
}

/// Sum of two vectors, by component.
impl<'a, U> core::ops::Add<&'a Vector2<Quantity<U>>> for Vector2<Quantity<U>> {
    type Output = Vector2<Quantity<U>>;

    fn add(self, rhs: &'a Vector2<Quantity<U>>) -> (r: Vector2<Quantity<U>>) {
        Vector2 { x: Quantity::new(self.x.value.plus(rhs.x.value)), y: Quantity::new(self.y.value.plus(rhs.y.value)) }
    }
}

impl<'a, U> vstd::std_specs::ops::AddSpecImpl<&'a Vector2<Quantity<U>>> for Vector2<Quantity<U>> {
    open spec fn obeys_add_spec() -> bool {
        true
    }

    open spec fn add_req(self, rhs: &'a Vector2<Quantity<U>>) -> bool {
        &&& self.x.value.sum_ok(rhs.x.value)
        &&& self.y.value.sum_ok(rhs.y.value)
    }

    open spec fn add_spec(self, rhs: &'a Vector2<Quantity<U>>) -> Vector2<Quantity<U>> {
        Vector2 { x: Quantity::of(self.x.value.sum(rhs.x.value)), y: Quantity::of(self.y.value.sum(rhs.y.value)) }
    }
}

/// Sum of two vectors, by component.
impl<'a, U> core::ops::Add<Vector2<Quantity<U>>> for &'a Vector2<Quantity<U>> {
    type Output = Vector2<Quantity<U>>;

    fn add(self, rhs: Vector2<Quantity<U>>) -> (r: Vector2<Quantity<U>>) {
        Vector2 { x: Quantity::new(self.x.value.plus(rhs.x.value)), y: Quantity::new(self.y.value.plus(rhs.y.value)) }
    }
}

impl<'a, U> vstd::std_specs::ops::AddSpecImpl<Vector2<Quantity<U>>> for &'a Vector2<Quantity<U>> {
    open spec fn obeys_add_spec() -> bool {
        true
    }

    open spec fn add_req(self, rhs: Vector2<Quantity<U>>) -> bool {
        &&& self.x.value.sum_ok(rhs.x.value)
        &&& self.y.value.sum_ok(rhs.y.value)
    }

    open spec fn add_spec(self, rhs: Vector2<Quantity<U>>) -> Vector2<Quantity<U>> {
        Vector2 { x: Quantity::of(self.x.value.sum(rhs.x.value)), y: Quantity::of(self.y.value.sum(rhs.y.value)) }
    }
}

/// Sum of two vectors, by component.
impl<'a, U> core::ops::Add<&'a Vector2<Quantity<U>>> for &'a Vector2<Quantity<U>> {
    type Output = Vector2<Quantity<U>>;

    fn add(self, rhs: &'a Vector2<Quantity<U>>) -> (r: Vector2<Quantity<U>>) {
        Vector2 { x: Quantity::new(self.x.value.plus(rhs.x.value)), y: Quantity::new(self.y.value.plus(rhs.y.value)) }
    }
}

impl<'a, U> vstd::std_specs::ops::AddSpecImpl<&'a Vector2<Quantity<U>>> for &'a Vector2<Quantity<U>> {
    open spec fn obeys_add_spec() -> bool {
        true
    }

    open spec fn add_req(self, rhs: &'a Vector2<Quantity<U>>) -> bool {
        &&& self.x.value.sum_ok(rhs.x.value)
        &&& self.y.value.sum_ok(rhs.y.value)
    }

    open spec fn add_spec(self, rhs: &'a Vector2<Quantity<U>>) -> Vector2<Quantity<U>> {
        Vector2 { x: Quantity::of(self.x.value.sum(rhs.x.value)), y: Quantity::of(self.y.value.sum(rhs.y.value)) }
    }
}

/// Difference of two vectors, by component.
impl<U> core::ops::Sub<Vector2<Quantity<U>>> for Vector2<Quantity<U>> {
    type Output = Vector2<Quantity<U>>;

    fn sub(self, rhs: Vector2<Quantity<U>>) -> (r: Vector2<Quantity<U>>) {
        Vector2 { x: Quantity::new(self.x.value.minus(rhs.x.value)), y: Quantity::new(self.y.value.minus(rhs.y.value)) }
    }
}

impl<U> vstd::std_specs::ops::SubSpecImpl<Vector2<Quantity<U>>> for Vector2<Quantity<U>> {
    open spec fn obeys_sub_spec() -> bool {
        true
    }

    open spec fn sub_req(self, rhs: Vector2<Quantity<U>>) -> bool {
        &&& self.x.value.difference_ok(rhs.x.value)
        &&& self.y.value.difference_ok(rhs.y.value)
    }

    open spec fn sub_spec(self, rhs: Vector2<Quantity<U>>) -> Vector2<Quantity<U>> {
        Vector2 { x: Quantity::of(self.x.value.difference(rhs.x.value)), y: Quantity::of(self.y.value.difference(rhs.y.value)) }
    }
}

/// Difference of two vectors, by component.
impl<'a, U> core::ops::Sub<&'a Vector2<Quantity<U>>> for Vector2<Quantity<U>> {
    type Output = Vector2<Quantity<U>>;

    fn sub(self, rhs: &'a Vector2<Quantity<U>>) -> (r: Vector2<Quantity<U>>) {
        Vector2 { x: Quantity::new(self.x.value.minus(rhs.x.value)), y: Quantity::new(self.y.value.minus(rhs.y.value)) }
    }
}

impl<'a, U> vstd::std_specs::ops::SubSpecImpl<&'a Vector2<Quantity<U>>> for Vector2<Quantity<U>> {
    open spec fn obeys_sub_spec() -> bool {
        true
    }

    open spec fn sub_req(self, rhs: &'a Vector2<Quantity<U>>) -> bool {
        &&& self.x.value.difference_ok(rhs.x.value)
        &&& self.y.value.difference_ok(rhs.y.value)
    }

    open spec fn sub_spec(self, rhs: &'a Vector2<Quantity<U>>) -> Vector2<Quantity<U>> {
        Vector2 { x: Quantity::of(self.x.value.difference(rhs.x.value)), y: Quantity::of(self.y.value.difference(rhs.y.value)) }
    }
}

/// Difference of two vectors, by component.
impl<'a, U> core::ops::Sub<Vector2<Quantity<U>>> for &'a Vector2<Quantity<U>> {
    type Output = Vector2<Quantity<U>>;

    fn sub(self, rhs: Vector2<Quantity<U>>) -> (r: Vector2<Quantity<U>>) {
        Vector2 { x: Quantity::new(self.x.value.minus(rhs.x.value)), y: Quantity::new(self.y.value.minus(rhs.y.value)) }
    }
}

impl<'a, U> vstd::std_specs::ops::SubSpecImpl<Vector2<Quantity<U>>> for &'a Vector2<Quantity<U>> {
    open spec fn obeys_sub_spec() -> bool {
        true
    }

    open spec fn sub_req(self, rhs: Vector2<Quantity<U>>) -> bool {
        &&& self.x.value.difference_ok(rhs.x.value)
        &&& self.y.value.difference_ok(rhs.y.value)
    }

    open spec fn sub_spec(self, rhs: Vector2<Quantity<U>>) -> Vector2<Quantity<U>> {
        Vector2 { x: Quantity::of(self.x.value.difference(rhs.x.value)), y: Quantity::of(self.y.value.difference(rhs.y.value)) }
    }
}

/// Difference of two vectors, by component.
impl<'a, U> core::ops::Sub<&'a Vector2<Quantity<U>>> for &'a Vector2<Quantity<U>> {
    type Output = Vector2<Quantity<U>>;

    fn sub(self, rhs: &'a Vector2<Quantity<U>>) -> (r: Vector2<Quantity<U>>) {
        Vector2 { x: Quantity::new(self.x.value.minus(rhs.x.value)), y: Quantity::new(self.y.value.minus(rhs.y.value)) }
    }
}

impl<'a, U> vstd::std_specs::ops::SubSpecImpl<&'a Vector2<Quantity<U>>> for &'a Vector2<Quantity<U>> {
    open spec fn obeys_sub_spec() -> bool {
        true
    }

    open spec fn sub_req(self, rhs: &'a Vector2<Quantity<U>>) -> bool {
        &&& self.x.value.difference_ok(rhs.x.value)
        &&& self.y.value.difference_ok(rhs.y.value)
    }

    open spec fn sub_spec(self, rhs: &'a Vector2<Quantity<U>>) -> Vector2<Quantity<U>> {
        Vector2 { x: Quantity::of(self.x.value.difference(rhs.x.value)), y: Quantity::of(self.y.value.difference(rhs.y.value)) }
    }
}

/// A vector scaled by a raw number.
impl<U> core::ops::Mul<Ratio> for Vector2<Quantity<U>> {
    type Output = Vector2<Quantity<U>>;

    fn mul(self, rhs: Ratio) -> (r: Vector2<Quantity<U>>) {
        Vector2 { x: Quantity::new(self.x.value.times(rhs)), y: Quantity::new(self.y.value.times(rhs)) }
    }
}

impl<U> vstd::std_specs::ops::MulSpecImpl<Ratio> for Vector2<Quantity<U>> {
    open spec fn obeys_mul_spec() -> bool {
        true
    }

    open spec fn mul_req(self, rhs: Ratio) -> bool {
        &&& self.x.value.product_ok(rhs)
        &&& self.y.value.product_ok(rhs)
    }

    open spec fn mul_spec(self, rhs: Ratio) -> Vector2<Quantity<U>> {
        Vector2 { x: Quantity::of(self.x.value.product(rhs)), y: Quantity::of(self.y.value.product(rhs)) }
    }
}

/// A vector scaled by a raw number.
impl<'a, U> core::ops::Mul<&'a Ratio> for Vector2<Quantity<U>> {
    type Output = Vector2<Quantity<U>>;

    fn mul(self, rhs: &'a Ratio) -> (r: Vector2<Quantity<U>>) {
        Vector2 { x: Quantity::new(self.x.value.times(*rhs)), y: Quantity::new(self.y.value.times(*rhs)) }
    }
}

impl<'a, U> vstd::std_specs::ops::MulSpecImpl<&'a Ratio> for Vector2<Quantity<U>> {
    open spec fn obeys_mul_spec() -> bool {
        true
    }

    open spec fn mul_req(self, rhs: &'a Ratio) -> bool {
        &&& self.x.value.product_ok(*rhs)
        &&& self.y.value.product_ok(*rhs)
    }

    open spec fn mul_spec(self, rhs: &'a Ratio) -> Vector2<Quantity<U>> {
        Vector2 { x: Quantity::of(self.x.value.product(*rhs)), y: Quantity::of(self.y.value.product(*rhs)) }
    }
}

/// A vector scaled by a raw number.
impl<'a, U> core::ops::Mul<Ratio> for &'a Vector2<Quantity<U>> {
    type Output = Vector2<Quantity<U>>;

    fn mul(self, rhs: Ratio) -> (r: Vector2<Quantity<U>>) {
        Vector2 { x: Quantity::new(self.x.value.times(rhs)), y: Quantity::new(self.y.value.times(rhs)) }
    }
}

impl<'a, U> vstd::std_specs::ops::MulSpecImpl<Ratio> for &'a Vector2<Quantity<U>> {
    open spec fn obeys_mul_spec() -> bool {
        true
    }

    open spec fn mul_req(self, rhs: Ratio) -> bool {
        &&& self.x.value.product_ok(rhs)
        &&& self.y.value.product_ok(rhs)
    }

    open spec fn mul_spec(self, rhs: Ratio) -> Vector2<Quantity<U>> {
        Vector2 { x: Quantity::of(self.x.value.product(rhs)), y: Quantity::of(self.y.value.product(rhs)) }
    }
}

/// A vector scaled by a raw number.
impl<'a, U> core::ops::Mul<&'a Ratio> for &'a Vector2<Quantity<U>> {
    type Output = Vector2<Quantity<U>>;

    fn mul(self, rhs: &'a Ratio) -> (r: Vector2<Quantity<U>>) {
        Vector2 { x: Quantity::new(self.x.value.times(*rhs)), y: Quantity::new(self.y.value.times(*rhs)) }
    }
}

impl<'a, U> vstd::std_specs::ops::MulSpecImpl<&'a Ratio> for &'a Vector2<Quantity<U>> {
    open spec fn obeys_mul_spec() -> bool {
        true
    }

    open spec fn mul_req(self, rhs: &'a Ratio) -> bool {
        &&& self.x.value.product_ok(*rhs)
        &&& self.y.value.product_ok(*rhs)
    }

    open spec fn mul_spec(self, rhs: &'a Ratio) -> Vector2<Quantity<U>> {
        Vector2 { x: Quantity::of(self.x.value.product(*rhs)), y: Quantity::of(self.y.value.product(*rhs)) }
    }
}

/// A raw number scaling a vector.
impl<U> core::ops::Mul<Vector2<Quantity<U>>> for Ratio {
    type Output = Vector2<Quantity<U>>;

    fn mul(self, rhs: Vector2<Quantity<U>>) -> (r: Vector2<Quantity<U>>) {
        Vector2 { x: Quantity::new(rhs.x.value.times(self)), y: Quantity::new(rhs.y.value.times(self)) }
    }
}

impl<U> vstd::std_specs::ops::MulSpecImpl<Vector2<Quantity<U>>> for Ratio {
    open spec fn obeys_mul_spec() -> bool {
        true
    }

    open spec fn mul_req(self, rhs: Vector2<Quantity<U>>) -> bool {
        &&& rhs.x.value.product_ok(self)
        &&& rhs.y.value.product_ok(self)
    }

    open spec fn mul_spec(self, rhs: Vector2<Quantity<U>>) -> Vector2<Quantity<U>> {
        Vector2 { x: Quantity::of(rhs.x.value.product(self)), y: Quantity::of(rhs.y.value.product(self)) }
    }
}

/// A raw number scaling a vector.
impl<'a, U> core::ops::Mul<&'a Vector2<Quantity<U>>> for Ratio {
    type Output = Vector2<Quantity<U>>;

    fn mul(self, rhs: &'a Vector2<Quantity<U>>) -> (r: Vector2<Quantity<U>>) {
        Vector2 { x: Quantity::new(rhs.x.value.times(self)), y: Quantity::new(rhs.y.value.times(self)) }
    }
}

impl<'a, U> vstd::std_specs::ops::MulSpecImpl<&'a Vector2<Quantity<U>>> for Ratio {
    open spec fn obeys_mul_spec() -> bool {
        true
    }

    open spec fn mul_req(self, rhs: &'a Vector2<Quantity<U>>) -> bool {
        &&& rhs.x.value.product_ok(self)
        &&& rhs.y.value.product_ok(self)
    }

    open spec fn mul_spec(self, rhs: &'a Vector2<Quantity<U>>) -> Vector2<Quantity<U>> {
        Vector2 { x: Quantity::of(rhs.x.value.product(self)), y: Quantity::of(rhs.y.value.product(self)) }
    }
}

/// A raw number scaling a vector.
impl<'a, U> core::ops::Mul<Vector2<Quantity<U>>> for &'a Ratio {
    type Output = Vector2<Quantity<U>>;

    fn mul(self, rhs: Vector2<Quantity<U>>) -> (r: Vector2<Quantity<U>>) {
        Vector2 { x: Quantity::new(rhs.x.value.times(*self)), y: Quantity::new(rhs.y.value.times(*self)) }
    }
}

impl<'a, U> vstd::std_specs::ops::MulSpecImpl<Vector2<Quantity<U>>> for &'a Ratio {
    open spec fn obeys_mul_spec() -> bool {
        true
    }

    open spec fn mul_req(self, rhs: Vector2<Quantity<U>>) -> bool {
        &&& rhs.x.value.product_ok(*self)
        &&& rhs.y.value.product_ok(*self)
    }

    open spec fn mul_spec(self, rhs: Vector2<Quantity<U>>) -> Vector2<Quantity<U>> {
        Vector2 { x: Quantity::of(rhs.x.value.product(*self)), y: Quantity::of(rhs.y.value.product(*self)) }
    }
}

/// A raw number scaling a vector.
impl<'a, U> core::ops::Mul<&'a Vector2<Quantity<U>>> for &'a Ratio {
    type Output = Vector2<Quantity<U>>;

    fn mul(self, rhs: &'a Vector2<Quantity<U>>) -> (r: Vector2<Quantity<U>>) {
        Vector2 { x: Quantity::new(rhs.x.value.times(*self)), y: Quantity::new(rhs.y.value.times(*self)) }
    }
}

impl<'a, U> vstd::std_specs::ops::MulSpecImpl<&'a Vector2<Quantity<U>>> for &'a Ratio {
    open spec fn obeys_mul_spec() -> bool {
        true
    }

    open spec fn mul_req(self, rhs: &'a Vector2<Quantity<U>>) -> bool {
        &&& rhs.x.value.product_ok(*self)
        &&& rhs.y.value.product_ok(*self)
    }

    open spec fn mul_spec(self, rhs: &'a Vector2<Quantity<U>>) -> Vector2<Quantity<U>> {
        Vector2 { x: Quantity::of(rhs.x.value.product(*self)), y: Quantity::of(rhs.y.value.product(*self)) }
    }
}

/// A vector divided by a raw number.
impl<U> core::ops::Div<Ratio> for Vector2<Quantity<U>> {
    type Output = Vector2<Quantity<U>>;

    fn div(self, rhs: Ratio) -> (r: Vector2<Quantity<U>>) {
        Vector2 { x: Quantity::new(self.x.value.over(rhs)), y: Quantity::new(self.y.value.over(rhs)) }
    }
}

impl<U> vstd::std_specs::ops::DivSpecImpl<Ratio> for Vector2<Quantity<U>> {
    open spec fn obeys_div_spec() -> bool {
        true
    }

    open spec fn div_req(self, rhs: Ratio) -> bool {
        &&& self.x.value.quotient_ok(rhs)
        &&& self.y.value.quotient_ok(rhs)
    }

    open spec fn div_spec(self, rhs: Ratio) -> Vector2<Quantity<U>> {
        Vector2 { x: Quantity::of(self.x.value.quotient(rhs)), y: Quantity::of(self.y.value.quotient(rhs)) }
    }
}

/// A vector divided by a raw number.
impl<'a, U> core::ops::Div<&'a Ratio> for Vector2<Quantity<U>> {
    type Output = Vector2<Quantity<U>>;

    fn div(self, rhs: &'a Ratio) -> (r: Vector2<Quantity<U>>) {
        Vector2 { x: Quantity::new(self.x.value.over(*rhs)), y: Quantity::new(self.y.value.over(*rhs)) }
    }
}

impl<'a, U> vstd::std_specs::ops::DivSpecImpl<&'a Ratio> for Vector2<Quantity<U>> {
    open spec fn obeys_div_spec() -> bool {
        true
    }

    open spec fn div_req(self, rhs: &'a Ratio) -> bool {
        &&& self.x.value.quotient_ok(*rhs)
        &&& self.y.value.quotient_ok(*rhs)
    }

    open spec fn div_spec(self, rhs: &'a Ratio) -> Vector2<Quantity<U>> {
        Vector2 { x: Quantity::of(self.x.value.quotient(*rhs)), y: Quantity::of(self.y.value.quotient(*rhs)) }
    }
}

/// A vector divided by a raw number.
impl<'a, U> core::ops::Div<Ratio> for &'a Vector2<Quantity<U>> {
    type Output = Vector2<Quantity<U>>;

    fn div(self, rhs: Ratio) -> (r: Vector2<Quantity<U>>) {
        Vector2 { x: Quantity::new(self.x.value.over(rhs)), y: Quantity::new(self.y.value.over(rhs)) }
    }
}

impl<'a, U> vstd::std_specs::ops::DivSpecImpl<Ratio> for &'a Vector2<Quantity<U>> {
    open spec fn obeys_div_spec() -> bool {
        true
    }

    open spec fn div_req(self, rhs: Ratio) -> bool {
        &&& self.x.value.quotient_ok(rhs)
        &&& self.y.value.quotient_ok(rhs)
    }

    open spec fn div_spec(self, rhs: Ratio) -> Vector2<Quantity<U>> {
        Vector2 { x: Quantity::of(self.x.value.quotient(rhs)), y: Quantity::of(self.y.value.quotient(rhs)) }
    }
}

/// A vector divided by a raw number.
impl<'a, U> core::ops::Div<&'a Ratio> for &'a Vector2<Quantity<U>> {
    type Output = Vector2<Quantity<U>>;

    fn div(self, rhs: &'a Ratio) -> (r: Vector2<Quantity<U>>) {
        Vector2 { x: Quantity::new(self.x.value.over(*rhs)), y: Quantity::new(self.y.value.over(*rhs)) }
    }
}

impl<'a, U> vstd::std_specs::ops::DivSpecImpl<&'a Ratio> for &'a Vector2<Quantity<U>> {
    open spec fn obeys_div_spec() -> bool {
        true
    }

    open spec fn div_req(self, rhs: &'a Ratio) -> bool {
        &&& self.x.value.quotient_ok(*rhs)
        &&& self.y.value.quotient_ok(*rhs)
    }

    open spec fn div_spec(self, rhs: &'a Ratio) -> Vector2<Quantity<U>> {
        Vector2 { x: Quantity::of(self.x.value.quotient(*rhs)), y: Quantity::of(self.y.value.quotient(*rhs)) }
    }
}

/// The opposite vector.
impl<U> core::ops::Neg for Vector2<Quantity<U>> {
    type Output = Vector2<Quantity<U>>;

    fn neg(self) -> (r: Vector2<Quantity<U>>) {
        Vector2 { x: Quantity::new(self.x.value.negate()), y: Quantity::new(self.y.value.negate()) }
    }
}

impl<U> vstd::std_specs::ops::NegSpecImpl for Vector2<Quantity<U>> {
    open spec fn obeys_neg_spec() -> bool {
        true
    }

    open spec fn neg_req(self) -> bool {
        &&& self.x.value.negation_ok()
        &&& self.y.value.negation_ok()
    }

    open spec fn neg_spec(self) -> Vector2<Quantity<U>> {
        Vector2 { x: Quantity::of(self.x.value.negation()), y: Quantity::of(self.y.value.negation()) }
    }
}

/// The opposite vector.
impl<'a, U> core::ops::Neg for &'a Vector2<Quantity<U>> {
    type Output = Vector2<Quantity<U>>;

    fn neg(self) -> (r: Vector2<Quantity<U>>) {
        Vector2 { x: Quantity::new(self.x.value.negate()), y: Quantity::new(self.y.value.negate()) }
    }
}

impl<'a, U> vstd::std_specs::ops::NegSpecImpl for &'a Vector2<Quantity<U>> {
    open spec fn obeys_neg_spec() -> bool {
        true
    }

    open spec fn neg_req(self) -> bool {
        &&& self.x.value.negation_ok()
        &&& self.y.value.negation_ok()
    }

    open spec fn neg_spec(self) -> Vector2<Quantity<U>> {
        Vector2 { x: Quantity::of(self.x.value.negation()), y: Quantity::of(self.y.value.negation()) }
    }
}

/// Adds `rhs` in place.
impl<U> core::ops::AddAssign<Vector2<Quantity<U>>> for Vector2<Quantity<U>> {
    fn add_assign(&mut self, rhs: Vector2<Quantity<U>>)
        requires
            old(self).x.value.sum_ok(rhs.x.value),
            old(self).y.value.sum_ok(rhs.y.value),
        ensures
            final(self).x.value == old(self).x.value.sum(rhs.x.value),
            final(self).y.value == old(self).y.value.sum(rhs.y.value),
    {
        self.x.value = self.x.value.plus(rhs.x.value);
        self.y.value = self.y.value.plus(rhs.y.value);
    }
}

/// Adds `rhs` in place.
impl<'a, U> core::ops::AddAssign<&'a Vector2<Quantity<U>>> for Vector2<Quantity<U>> {
    fn add_assign(&mut self, rhs: &'a Vector2<Quantity<U>>)
        requires
            old(self).x.value.sum_ok(rhs.x.value),
            old(self).y.value.sum_ok(rhs.y.value),
        ensures
            final(self).x.value == old(self).x.value.sum(rhs.x.value),
            final(self).y.value == old(self).y.value.sum(rhs.y.value),
    {
        self.x.value = self.x.value.plus(rhs.x.value);
        self.y.value = self.y.value.plus(rhs.y.value);
    }
}

/// Subtracts `rhs` in place.
impl<U> core::ops::SubAssign<Vector2<Quantity<U>>> for Vector2<Quantity<U>> {
    fn sub_assign(&mut self, rhs: Vector2<Quantity<U>>)
        requires
            old(self).x.value.difference_ok(rhs.x.value),
            old(self).y.value.difference_ok(rhs.y.value),
        ensures
            final(self).x.value == old(self).x.value.difference(rhs.x.value),
            final(self).y.value == old(self).y.value.difference(rhs.y.value),
    {
        self.x.value = self.x.value.minus(rhs.x.value);
        self.y.value = self.y.value.minus(rhs.y.value);
    }
}

/// Subtracts `rhs` in place.
impl<'a, U> core::ops::SubAssign<&'a Vector2<Quantity<U>>> for Vector2<Quantity<U>> {
    fn sub_assign(&mut self, rhs: &'a Vector2<Quantity<U>>)
        requires
            old(self).x.value.difference_ok(rhs.x.value),
            old(self).y.value.difference_ok(rhs.y.value),
        ensures
            final(self).x.value == old(self).x.value.difference(rhs.x.value),
            final(self).y.value == old(self).y.value.difference(rhs.y.value),
    {
        self.x.value = self.x.value.minus(rhs.x.value);
        self.y.value = self.y.value.minus(rhs.y.value);
    }
}

/// Scales by `rhs` in place.
impl<U> core::ops::MulAssign<Ratio> for Vector2<Quantity<U>> {
    fn mul_assign(&mut self, rhs: Ratio)
        requires
            old(self).x.value.product_ok(rhs),
            old(self).y.value.product_ok(rhs),
        ensures
            final(self).x.value == old(self).x.value.product(rhs),
            final(self).y.value == old(self).y.value.product(rhs),
    {
        self.x.value = self.x.value.times(rhs);
        self.y.value = self.y.value.times(rhs);
    }
}

/// Scales by `rhs` in place.
impl<'a, U> core::ops::MulAssign<&'a Ratio> for Vector2<Quantity<U>> {
    fn mul_assign(&mut self, rhs: &'a Ratio)
        requires
            old(self).x.value.product_ok(*rhs),
            old(self).y.value.product_ok(*rhs),
        ensures
            final(self).x.value == old(self).x.value.product(*rhs),
            final(self).y.value == old(self).y.value.product(*rhs),
    {
        self.x.value = self.x.value.times(*rhs);
        self.y.value = self.y.value.times(*rhs);
    }
}

/// Divides by `rhs` in place.
impl<U> core::ops::DivAssign<Ratio> for Vector2<Quantity<U>> {
    fn div_assign(&mut self, rhs: Ratio)
        requires
            old(self).x.value.quotient_ok(rhs),
            old(self).y.value.quotient_ok(rhs),
        ensures
            final(self).x.value == old(self).x.value.quotient(rhs),
            final(self).y.value == old(self).y.value.quotient(rhs),
    {
        self.x.value = self.x.value.over(rhs);
        self.y.value = self.y.value.over(rhs);
    }
}

/// Divides by `rhs` in place.
impl<'a, U> core::ops::DivAssign<&'a Ratio> for Vector2<Quantity<U>> {
    fn div_assign(&mut self, rhs: &'a Ratio)
        requires
            old(self).x.value.quotient_ok(*rhs),
            old(self).y.value.quotient_ok(*rhs),
        ensures
            final(self).x.value == old(self).x.value.quotient(*rhs),
            final(self).y.value == old(self).y.value.quotient(*rhs),
    {
        self.x.value = self.x.value.over(*rhs);
        self.y.value = self.y.value.over(*rhs);
    }
}

/// Sum of two vectors, by component.
impl<U> core::ops::Add<Vector3<Quantity<U>>> for Vector3<Quantity<U>> {
    type Output = Vector3<Quantity<U>>;

    fn add(self, rhs: Vector3<Quantity<U>>) -> (r: Vector3<Quantity<U>>) {
        Vector3 { x: Quantity::new(self.x.value.plus(rhs.x.value)), y: Quantity::new(self.y.value.plus(rhs.y.value)), z: Quantity::new(self.z.value.plus(rhs.z.value)) }
    }
}

impl<U> vstd::std_specs::ops::AddSpecImpl<Vector3<Quantity<U>>> for Vector3<Quantity<U>> {
    open spec fn obeys_add_spec() -> bool {
        true
    }

    open spec fn add_req(self, rhs: Vector3<Quantity<U>>) -> bool {
        &&& self.x.value.sum_ok(rhs.x.value)
        &&& self.y.value.sum_ok(rhs.y.value)
        &&& self.z.value.sum_ok(rhs.z.value)
    }

    open spec fn add_spec(self, rhs: Vector3<Quantity<U>>) -> Vector3<Quantity<U>> {
        Vector3 { x: Quantity::of(self.x.value.sum(rhs.x.value)), y: Quantity::of(self.y.value.sum(rhs.y.value)), z: Quantity::of(self.z.value.sum(rhs.z.value)) }
    }
}

/// Sum of two vectors, by component.
impl<'a, U> core::ops::Add<&'a Vector3<Quantity<U>>> for Vector3<Quantity<U>> {
    type Output = Vector3<Quantity<U>>;

    fn add(self, rhs: &'a Vector3<Quantity<U>>) -> (r: Vector3<Quantity<U>>) {
        Vector3 { x: Quantity::new(self.x.value.plus(rhs.x.value)), y: Quantity::new(self.y.value.plus(rhs.y.value)), z: Quantity::new(self.z.value.plus(rhs.z.value)) }
    }
}

impl<'a, U> vstd::std_specs::ops::AddSpecImpl<&'a Vector3<Quantity<U>>> for Vector3<Quantity<U>> {
    open spec fn obeys_add_spec() -> bool {
        true
    }

    open spec fn add_req(self, rhs: &'a Vector3<Quantity<U>>) -> bool {
        &&& self.x.value.sum_ok(rhs.x.value)
        &&& self.y.value.sum_ok(rhs.y.value)
        &&& self.z.value.sum_ok(rhs.z.value)
    }

    open spec fn add_spec(self, rhs: &'a Vector3<Quantity<U>>) -> Vector3<Quantity<U>> {
        Vector3 { x: Quantity::of(self.x.value.sum(rhs.x.value)), y: Quantity::of(self.y.value.sum(rhs.y.value)), z: Quantity::of(self.z.value.sum(rhs.z.value)) }
    }
}

/// Sum of two vectors, by component.
impl<'a, U> core::ops::Add<Vector3<Quantity<U>>> for &'a Vector3<Quantity<U>> {
    type Output = Vector3<Quantity<U>>;

    fn add(self, rhs: Vector3<Quantity<U>>) -> (r: Vector3<Quantity<U>>) {
        Vector3 { x: Quantity::new(self.x.value.plus(rhs.x.value)), y: Quantity::new(self.y.value.plus(rhs.y.value)), z: Quantity::new(self.z.value.plus(rhs.z.value)) }
    }
}

impl<'a, U> vstd::std_specs::ops::AddSpecImpl<Vector3<Quantity<U>>> for &'a Vector3<Quantity<U>> {
    open spec fn obeys_add_spec() -> bool {
        true
    }

    open spec fn add_req(self, rhs: Vector3<Quantity<U>>) -> bool {
        &&& self.x.value.sum_ok(rhs.x.value)
        &&& self.y.value.sum_ok(rhs.y.value)
        &&& self.z.value.sum_ok(rhs.z.value)
    }

    open spec fn add_spec(self, rhs: Vector3<Quantity<U>>) -> Vector3<Quantity<U>> {
        Vector3 { x: Quantity::of(self.x.value.sum(rhs.x.value)), y: Quantity::of(self.y.value.sum(rhs.y.value)), z: Quantity::of(self.z.value.sum(rhs.z.value)) }
    }
}

/// Sum of two vectors, by component.
impl<'a, U> core::ops::Add<&'a Vector3<Quantity<U>>> for &'a Vector3<Quantity<U>> {
    type Output = Vector3<Quantity<U>>;

    fn add(self, rhs: &'a Vector3<Quantity<U>>) -> (r: Vector3<Quantity<U>>) {
        Vector3 { x: Quantity::new(self.x.value.plus(rhs.x.value)), y: Quantity::new(self.y.value.plus(rhs.y.value)), z: Quantity::new(self.z.value.plus(rhs.z.value)) }
    }
}

impl<'a, U> vstd::std_specs::ops::AddSpecImpl<&'a Vector3<Quantity<U>>> for &'a Vector3<Quantity<U>> {
    open spec fn obeys_add_spec() -> bool {
        true
    }

    open spec fn add_req(self, rhs: &'a Vector3<Quantity<U>>) -> bool {
        &&& self.x.value.sum_ok(rhs.x.value)
        &&& self.y.value.sum_ok(rhs.y.value)
        &&& self.z.value.sum_ok(rhs.z.value)
    }

    open spec fn add_spec(self, rhs: &'a Vector3<Quantity<U>>) -> Vector3<Quantity<U>> {
        Vector3 { x: Quantity::of(self.x.value.sum(rhs.x.value)), y: Quantity::of(self.y.value.sum(rhs.y.value)), z: Quantity::of(self.z.value.sum(rhs.z.value)) }
    }
}

/// Difference of two vectors, by component.
impl<U> core::ops::Sub<Vector3<Quantity<U>>> for Vector3<Quantity<U>> {
    type Output = Vector3<Quantity<U>>;

    fn sub(self, rhs: Vector3<Quantity<U>>) -> (r: Vector3<Quantity<U>>) {
        Vector3 { x: Quantity::new(self.x.value.minus(rhs.x.value)), y: Quantity::new(self.y.value.minus(rhs.y.value)), z: Quantity::new(self.z.value.minus(rhs.z.value)) }
    }
}

impl<U> vstd::std_specs::ops::SubSpecImpl<Vector3<Quantity<U>>> for Vector3<Quantity<U>> {
    open spec fn obeys_sub_spec() -> bool {
        true
    }

    open spec fn sub_req(self, rhs: Vector3<Quantity<U>>) -> bool {
        &&& self.x.value.difference_ok(rhs.x.value)
        &&& self.y.value.difference_ok(rhs.y.value)
        &&& self.z.value.difference_ok(rhs.z.value)
    }

    open spec fn sub_spec(self, rhs: Vector3<Quantity<U>>) -> Vector3<Quantity<U>> {
        Vector3 { x: Quantity::of(self.x.value.difference(rhs.x.value)), y: Quantity::of(self.y.value.difference(rhs.y.value)), z: Quantity::of(self.z.value.difference(rhs.z.value)) }
    }
}

/// Difference of two vectors, by component.
impl<'a, U> core::ops::Sub<&'a Vector3<Quantity<U>>> for Vector3<Quantity<U>> {
    type Output = Vector3<Quantity<U>>;

    fn sub(self, rhs: &'a Vector3<Quantity<U>>) -> (r: Vector3<Quantity<U>>) {
        Vector3 { x: Quantity::new(self.x.value.minus(rhs.x.value)), y: Quantity::new(self.y.value.minus(rhs.y.value)), z: Quantity::new(self.z.value.minus(rhs.z.value)) }
    }
}

impl<'a, U> vstd::std_specs::ops::SubSpecImpl<&'a Vector3<Quantity<U>>> for Vector3<Quantity<U>> {
    open spec fn obeys_sub_spec() -> bool {
        true
    }

    open spec fn sub_req(self, rhs: &'a Vector3<Quantity<U>>) -> bool {
        &&& self.x.value.difference_ok(rhs.x.value)
        &&& self.y.value.difference_ok(rhs.y.value)
        &&& self.z.value.difference_ok(rhs.z.value)
    }

    open spec fn sub_spec(self, rhs: &'a Vector3<Quantity<U>>) -> Vector3<Quantity<U>> {
        Vector3 { x: Quantity::of(self.x.value.difference(rhs.x.value)), y: Quantity::of(self.y.value.difference(rhs.y.value)), z: Quantity::of(self.z.value.difference(rhs.z.value)) }
    }
}

/// Difference of two vectors, by component.
impl<'a, U> core::ops::Sub<Vector3<Quantity<U>>> for &'a Vector3<Quantity<U>> {
    type Output = Vector3<Quantity<U>>;

    fn sub(self, rhs: Vector3<Quantity<U>>) -> (r: Vector3<Quantity<U>>) {
        Vector3 { x: Quantity::new(self.x.value.minus(rhs.x.value)), y: Quantity::new(self.y.value.minus(rhs.y.value)), z: Quantity::new(self.z.value.minus(rhs.z.value)) }
    }
}

impl<'a, U> vstd::std_specs::ops::SubSpecImpl<Vector3<Quantity<U>>> for &'a Vector3<Quantity<U>> {
    open spec fn obeys_sub_spec() -> bool {
        true
    }

    open spec fn sub_req(self, rhs: Vector3<Quantity<U>>) -> bool {
        &&& self.x.value.difference_ok(rhs.x.value)
        &&& self.y.value.difference_ok(rhs.y.value)
        &&& self.z.value.difference_ok(rhs.z.value)
    }

    open spec fn sub_spec(self, rhs: Vector3<Quantity<U>>) -> Vector3<Quantity<U>> {
        Vector3 { x: Quantity::of(self.x.value.difference(rhs.x.value)), y: Quantity::of(self.y.value.difference(rhs.y.value)), z: Quantity::of(self.z.value.difference(rhs.z.value)) }
    }
}

/// Difference of two vectors, by component.
impl<'a, U> core::ops::Sub<&'a Vector3<Quantity<U>>> for &'a Vector3<Quantity<U>> {
    type Output = Vector3<Quantity<U>>;

    fn sub(self, rhs: &'a Vector3<Quantity<U>>) -> (r: Vector3<Quantity<U>>) {
        Vector3 { x: Quantity::new(self.x.value.minus(rhs.x.value)), y: Quantity::new(self.y.value.minus(rhs.y.value)), z: Quantity::new(self.z.value.minus(rhs.z.value)) }
    }
}

impl<'a, U> vstd::std_specs::ops::SubSpecImpl<&'a Vector3<Quantity<U>>> for &'a Vector3<Quantity<U>> {
    open spec fn obeys_sub_spec() -> bool {
        true
    }

    open spec fn sub_req(self, rhs: &'a Vector3<Quantity<U>>) -> bool {
        &&& self.x.value.difference_ok(rhs.x.value)
        &&& self.y.value.difference_ok(rhs.y.value)
        &&& self.z.value.difference_ok(rhs.z.value)
    }

    open spec fn sub_spec(self, rhs: &'a Vector3<Quantity<U>>) -> Vector3<Quantity<U>> {
        Vector3 { x: Quantity::of(self.x.value.difference(rhs.x.value)), y: Quantity::of(self.y.value.difference(rhs.y.value)), z: Quantity::of(self.z.value.difference(rhs.z.value)) }
    }
}

/// A vector scaled by a raw number.
impl<U> core::ops::Mul<Ratio> for Vector3<Quantity<U>> {
    type Output = Vector3<Quantity<U>>;

    fn mul(self, rhs: Ratio) -> (r: Vector3<Quantity<U>>) {
        Vector3 { x: Quantity::new(self.x.value.times(rhs)), y: Quantity::new(self.y.value.times(rhs)), z: Quantity::new(self.z.value.times(rhs)) }
    }
}

impl<U> vstd::std_specs::ops::MulSpecImpl<Ratio> for Vector3<Quantity<U>> {
    open spec fn obeys_mul_spec() -> bool {
        true
    }

    open spec fn mul_req(self, rhs: Ratio) -> bool {
        &&& self.x.value.product_ok(rhs)
        &&& self.y.value.product_ok(rhs)
        &&& self.z.value.product_ok(rhs)
    }

    open spec fn mul_spec(self, rhs: Ratio) -> Vector3<Quantity<U>> {
        Vector3 { x: Quantity::of(self.x.value.product(rhs)), y: Quantity::of(self.y.value.product(rhs)), z: Quantity::of(self.z.value.product(rhs)) }
    }
}

/// A vector scaled by a raw number.
impl<'a, U> core::ops::Mul<&'a Ratio> for Vector3<Quantity<U>> {
    type Output = Vector3<Quantity<U>>;

    fn mul(self, rhs: &'a Ratio) -> (r: Vector3<Quantity<U>>) {
        Vector3 { x: Quantity::new(self.x.value.times(*rhs)), y: Quantity::new(self.y.value.times(*rhs)), z: Quantity::new(self.z.value.times(*rhs)) }
    }
}

impl<'a, U> vstd::std_specs::ops::MulSpecImpl<&'a Ratio> for Vector3<Quantity<U>> {
    open spec fn obeys_mul_spec() -> bool {
        true
    }

    open spec fn mul_req(self, rhs: &'a Ratio) -> bool {
        &&& self.x.value.product_ok(*rhs)
        &&& self.y.value.product_ok(*rhs)
        &&& self.z.value.product_ok(*rhs)
    }

    open spec fn mul_spec(self, rhs: &'a Ratio) -> Vector3<Quantity<U>> {
        Vector3 { x: Quantity::of(self.x.value.product(*rhs)), y: Quantity::of(self.y.value.product(*rhs)), z: Quantity::of(self.z.value.product(*rhs)) }
    }
}

/// A vector scaled by a raw number.
impl<'a, U> core::ops::Mul<Ratio> for &'a Vector3<Quantity<U>> {
    type Output = Vector3<Quantity<U>>;

    fn mul(self, rhs: Ratio) -> (r: Vector3<Quantity<U>>) {
        Vector3 { x: Quantity::new(self.x.value.times(rhs)), y: Quantity::new(self.y.value.times(rhs)), z: Quantity::new(self.z.value.times(rhs)) }
    }
}

impl<'a, U> vstd::std_specs::ops::MulSpecImpl<Ratio> for &'a Vector3<Quantity<U>> {
    open spec fn obeys_mul_spec() -> bool {
        true
    }

    open spec fn mul_req(self, rhs: Ratio) -> bool {
        &&& self.x.value.product_ok(rhs)
        &&& self.y.value.product_ok(rhs)
        &&& self.z.value.product_ok(rhs)
    }

    open spec fn mul_spec(self, rhs: Ratio) -> Vector3<Quantity<U>> {
        Vector3 { x: Quantity::of(self.x.value.product(rhs)), y: Quantity::of(self.y.value.product(rhs)), z: Quantity::of(self.z.value.product(rhs)) }
    }
}

/// A vector scaled by a raw number.
impl<'a, U> core::ops::Mul<&'a Ratio> for &'a Vector3<Quantity<U>> {
    type Output = Vector3<Quantity<U>>;

    fn mul(self, rhs: &'a Ratio) -> (r: Vector3<Quantity<U>>) {
        Vector3 { x: Quantity::new(self.x.value.times(*rhs)), y: Quantity::new(self.y.value.times(*rhs)), z: Quantity::new(self.z.value.times(*rhs)) }
    }
}

impl<'a, U> vstd::std_specs::ops::MulSpecImpl<&'a Ratio> for &'a Vector3<Quantity<U>> {
    open spec fn obeys_mul_spec() -> bool {
        true
    }

    open spec fn mul_req(self, rhs: &'a Ratio) -> bool {
        &&& self.x.value.product_ok(*rhs)
        &&& self.y.value.product_ok(*rhs)
        &&& self.z.value.product_ok(*rhs)
    }

    open spec fn mul_spec(self, rhs: &'a Ratio) -> Vector3<Quantity<U>> {
        Vector3 { x: Quantity::of(self.x.value.product(*rhs)), y: Quantity::of(self.y.value.product(*rhs)), z: Quantity::of(self.z.value.product(*rhs)) }
    }
}

/// A raw number scaling a vector.
impl<U> core::ops::Mul<Vector3<Quantity<U>>> for Ratio {
    type Output = Vector3<Quantity<U>>;

    fn mul(self, rhs: Vector3<Quantity<U>>) -> (r: Vector3<Quantity<U>>) {
        Vector3 { x: Quantity::new(rhs.x.value.times(self)), y: Quantity::new(rhs.y.value.times(self)), z: Quantity::new(rhs.z.value.times(self)) }
    }
}

impl<U> vstd::std_specs::ops::MulSpecImpl<Vector3<Quantity<U>>> for Ratio {
    open spec fn obeys_mul_spec() -> bool {
        true
    }

    open spec fn mul_req(self, rhs: Vector3<Quantity<U>>) -> bool {
        &&& rhs.x.value.product_ok(self)
        &&& rhs.y.value.product_ok(self)
        &&& rhs.z.value.product_ok(self)
    }

    open spec fn mul_spec(self, rhs: Vector3<Quantity<U>>) -> Vector3<Quantity<U>> {
        Vector3 { x: Quantity::of(rhs.x.value.product(self)), y: Quantity::of(rhs.y.value.product(self)), z: Quantity::of(rhs.z.value.product(self)) }
    }
}

/// A raw number scaling a vector.
impl<'a, U> core::ops::Mul<&'a Vector3<Quantity<U>>> for Ratio {
    type Output = Vector3<Quantity<U>>;

    fn mul(self, rhs: &'a Vector3<Quantity<U>>) -> (r: Vector3<Quantity<U>>) {
        Vector3 { x: Quantity::new(rhs.x.value.times(self)), y: Quantity::new(rhs.y.value.times(self)), z: Quantity::new(rhs.z.value.times(self)) }
    }
}

impl<'a, U> vstd::std_specs::ops::MulSpecImpl<&'a Vector3<Quantity<U>>> for Ratio {
    open spec fn obeys_mul_spec() -> bool {
        true
    }

    open spec fn mul_req(self, rhs: &'a Vector3<Quantity<U>>) -> bool {
        &&& rhs.x.value.product_ok(self)
        &&& rhs.y.value.product_ok(self)
        &&& rhs.z.value.product_ok(self)
    }

    open spec fn mul_spec(self, rhs: &'a Vector3<Quantity<U>>) -> Vector3<Quantity<U>> {
        Vector3 { x: Quantity::of(rhs.x.value.product(self)), y: Quantity::of(rhs.y.value.product(self)), z: Quantity::of(rhs.z.value.product(self)) }
    }
}

/// A raw number scaling a vector.
impl<'a, U> core::ops::Mul<Vector3<Quantity<U>>> for &'a Ratio {
    type Output = Vector3<Quantity<U>>;

    fn mul(self, rhs: Vector3<Quantity<U>>) -> (r: Vector3<Quantity<U>>) {
        Vector3 { x: Quantity::new(rhs.x.value.times(*self)), y: Quantity::new(rhs.y.value.times(*self)), z: Quantity::new(rhs.z.value.times(*self)) }
    }
}

impl<'a, U> vstd::std_specs::ops::MulSpecImpl<Vector3<Quantity<U>>> for &'a Ratio {
    open spec fn obeys_mul_spec() -> bool {
        true
    }

    open spec fn mul_req(self, rhs: Vector3<Quantity<U>>) -> bool {
        &&& rhs.x.value.product_ok(*self)
        &&& rhs.y.value.product_ok(*self)
        &&& rhs.z.value.product_ok(*self)
    }

    open spec fn mul_spec(self, rhs: Vector3<Quantity<U>>) -> Vector3<Quantity<U>> {
        Vector3 { x: Quantity::of(rhs.x.value.product(*self)), y: Quantity::of(rhs.y.value.product(*self)), z: Quantity::of(rhs.z.value.product(*self)) }
    }
}

/// A raw number scaling a vector.
impl<'a, U> core::ops::Mul<&'a Vector3<Quantity<U>>> for &'a Ratio {
    type Output = Vector3<Quantity<U>>;

    fn mul(self, rhs: &'a Vector3<Quantity<U>>) -> (r: Vector3<Quantity<U>>) {
        Vector3 { x: Quantity::new(rhs.x.value.times(*self)), y: Quantity::new(rhs.y.value.times(*self)), z: Quantity::new(rhs.z.value.times(*self)) }
    }
}

impl<'a, U> vstd::std_specs::ops::MulSpecImpl<&'a Vector3<Quantity<U>>> for &'a Ratio {
    open spec fn obeys_mul_spec() -> bool {
        true
    }

    open spec fn mul_req(self, rhs: &'a Vector3<Quantity<U>>) -> bool {
        &&& rhs.x.value.product_ok(*self)
        &&& rhs.y.value.product_ok(*self)
        &&& rhs.z.value.product_ok(*self)
    }

    open spec fn mul_spec(self, rhs: &'a Vector3<Quantity<U>>) -> Vector3<Quantity<U>> {
        Vector3 { x: Quantity::of(rhs.x.value.product(*self)), y: Quantity::of(rhs.y.value.product(*self)), z: Quantity::of(rhs.z.value.product(*self)) }
    }
}

/// A vector divided by a raw number.
impl<U> core::ops::Div<Ratio> for Vector3<Quantity<U>> {
    type Output = Vector3<Quantity<U>>;

    fn div(self, rhs: Ratio) -> (r: Vector3<Quantity<U>>) {
        Vector3 { x: Quantity::new(self.x.value.over(rhs)), y: Quantity::new(self.y.value.over(rhs)), z: Quantity::new(self.z.value.over(rhs)) }
    }
}

impl<U> vstd::std_specs::ops::DivSpecImpl<Ratio> for Vector3<Quantity<U>> {
    open spec fn obeys_div_spec() -> bool {
        true
    }

    open spec fn div_req(self, rhs: Ratio) -> bool {
        &&& self.x.value.quotient_ok(rhs)
        &&& self.y.value.quotient_ok(rhs)
        &&& self.z.value.quotient_ok(rhs)
    }

    open spec fn div_spec(self, rhs: Ratio) -> Vector3<Quantity<U>> {
        Vector3 { x: Quantity::of(self.x.value.quotient(rhs)), y: Quantity::of(self.y.value.quotient(rhs)), z: Quantity::of(self.z.value.quotient(rhs)) }
    }
}

/// A vector divided by a raw number.
impl<'a, U> core::ops::Div<&'a Ratio> for Vector3<Quantity<U>> {
    type Output = Vector3<Quantity<U>>;

    fn div(self, rhs: &'a Ratio) -> (r: Vector3<Quantity<U>>) {
        Vector3 { x: Quantity::new(self.x.value.over(*rhs)), y: Quantity::new(self.y.value.over(*rhs)), z: Quantity::new(self.z.value.over(*rhs)) }
    }
}

impl<'a, U> vstd::std_specs::ops::DivSpecImpl<&'a Ratio> for Vector3<Quantity<U>> {
    open spec fn obeys_div_spec() -> bool {
        true
    }

    open spec fn div_req(self, rhs: &'a Ratio) -> bool {
        &&& self.x.value.quotient_ok(*rhs)
        &&& self.y.value.quotient_ok(*rhs)
        &&& self.z.value.quotient_ok(*rhs)
    }

    open spec fn div_spec(self, rhs: &'a Ratio) -> Vector3<Quantity<U>> {
        Vector3 { x: Quantity::of(self.x.value.quotient(*rhs)), y: Quantity::of(self.y.value.quotient(*rhs)), z: Quantity::of(self.z.value.quotient(*rhs)) }
    }
}

/// A vector divided by a raw number.
impl<'a, U> core::ops::Div<Ratio> for &'a Vector3<Quantity<U>> {
    type Output = Vector3<Quantity<U>>;

    fn div(self, rhs: Ratio) -> (r: Vector3<Quantity<U>>) {
        Vector3 { x: Quantity::new(self.x.value.over(rhs)), y: Quantity::new(self.y.value.over(rhs)), z: Quantity::new(self.z.value.over(rhs)) }
    }
}

impl<'a, U> vstd::std_specs::ops::DivSpecImpl<Ratio> for &'a Vector3<Quantity<U>> {
    open spec fn obeys_div_spec() -> bool {
        true
    }

    open spec fn div_req(self, rhs: Ratio) -> bool {
        &&& self.x.value.quotient_ok(rhs)
        &&& self.y.value.quotient_ok(rhs)
        &&& self.z.value.quotient_ok(rhs)
    }

    open spec fn div_spec(self, rhs: Ratio) -> Vector3<Quantity<U>> {
        Vector3 { x: Quantity::of(self.x.value.quotient(rhs)), y: Quantity::of(self.y.value.quotient(rhs)), z: Quantity::of(self.z.value.quotient(rhs)) }
    }
}

/// A vector divided by a raw number.
impl<'a, U> core::ops::Div<&'a Ratio> for &'a Vector3<Quantity<U>> {
    type Output = Vector3<Quantity<U>>;

    fn div(self, rhs: &'a Ratio) -> (r: Vector3<Quantity<U>>) {
        Vector3 { x: Quantity::new(self.x.value.over(*rhs)), y: Quantity::new(self.y.value.over(*rhs)), z: Quantity::new(self.z.value.over(*rhs)) }
    }
}

impl<'a, U> vstd::std_specs::ops::DivSpecImpl<&'a Ratio> for &'a Vector3<Quantity<U>> {
    open spec fn obeys_div_spec() -> bool {
        true
    }

    open spec fn div_req(self, rhs: &'a Ratio) -> bool {
        &&& self.x.value.quotient_ok(*rhs)
        &&& self.y.value.quotient_ok(*rhs)
        &&& self.z.value.quotient_ok(*rhs)
    }

    open spec fn div_spec(self, rhs: &'a Ratio) -> Vector3<Quantity<U>> {
        Vector3 { x: Quantity::of(self.x.value.quotient(*rhs)), y: Quantity::of(self.y.value.quotient(*rhs)), z: Quantity::of(self.z.value.quotient(*rhs)) }
    }
}

/// The opposite vector.
impl<U> core::ops::Neg for Vector3<Quantity<U>> {
    type Output = Vector3<Quantity<U>>;

    fn neg(self) -> (r: Vector3<Quantity<U>>) {
        Vector3 { x: Quantity::new(self.x.value.negate()), y: Quantity::new(self.y.value.negate()), z: Quantity::new(self.z.value.negate()) }
    }
}

impl<U> vstd::std_specs::ops::NegSpecImpl for Vector3<Quantity<U>> {
    open spec fn obeys_neg_spec() -> bool {
        true
    }

    open spec fn neg_req(self) -> bool {
        &&& self.x.value.negation_ok()
        &&& self.y.value.negation_ok()
        &&& self.z.value.negation_ok()
    }

    open spec fn neg_spec(self) -> Vector3<Quantity<U>> {
        Vector3 { x: Quantity::of(self.x.value.negation()), y: Quantity::of(self.y.value.negation()), z: Quantity::of(self.z.value.negation()) }
    }
}

/// The opposite vector.
impl<'a, U> core::ops::Neg for &'a Vector3<Quantity<U>> {
    type Output = Vector3<Quantity<U>>;

    fn neg(self) -> (r: Vector3<Quantity<U>>) {
        Vector3 { x: Quantity::new(self.x.value.negate()), y: Quantity::new(self.y.value.negate()), z: Quantity::new(self.z.value.negate()) }
    }
}

impl<'a, U> vstd::std_specs::ops::NegSpecImpl for &'a Vector3<Quantity<U>> {
    open spec fn obeys_neg_spec() -> bool {
        true
    }

    open spec fn neg_req(self) -> bool {
        &&& self.x.value.negation_ok()
        &&& self.y.value.negation_ok()
        &&& self.z.value.negation_ok()
    }

    open spec fn neg_spec(self) -> Vector3<Quantity<U>> {
        Vector3 { x: Quantity::of(self.x.value.negation()), y: Quantity::of(self.y.value.negation()), z: Quantity::of(self.z.value.negation()) }
    }
}

/// Adds `rhs` in place.
impl<U> core::ops::AddAssign<Vector3<Quantity<U>>> for Vector3<Quantity<U>> {
    fn add_assign(&mut self, rhs: Vector3<Quantity<U>>)
        requires
            old(self).x.value.sum_ok(rhs.x.value),
            old(self).y.value.sum_ok(rhs.y.value),
            old(self).z.value.sum_ok(rhs.z.value),
        ensures
            final(self).x.value == old(self).x.value.sum(rhs.x.value),
            final(self).y.value == old(self).y.value.sum(rhs.y.value),
            final(self).z.value == old(self).z.value.sum(rhs.z.value),
    {
        self.x.value = self.x.value.plus(rhs.x.value);
        self.y.value = self.y.value.plus(rhs.y.value);
        self.z.value = self.z.value.plus(rhs.z.value);
    }
}

/// Adds `rhs` in place.
impl<'a, U> core::ops::AddAssign<&'a Vector3<Quantity<U>>> for Vector3<Quantity<U>> {
    fn add_assign(&mut self, rhs: &'a Vector3<Quantity<U>>)
        requires
            old(self).x.value.sum_ok(rhs.x.value),
            old(self).y.value.sum_ok(rhs.y.value),
            old(self).z.value.sum_ok(rhs.z.value),
        ensures
            final(self).x.value == old(self).x.value.sum(rhs.x.value),
            final(self).y.value == old(self).y.value.sum(rhs.y.value),
            final(self).z.value == old(self).z.value.sum(rhs.z.value),
    {
        self.x.value = self.x.value.plus(rhs.x.value);
        self.y.value = self.y.value.plus(rhs.y.value);
        self.z.value = self.z.value.plus(rhs.z.value);
    }
}

/// Subtracts `rhs` in place.
impl<U> core::ops::SubAssign<Vector3<Quantity<U>>> for Vector3<Quantity<U>> {
    fn sub_assign(&mut self, rhs: Vector3<Quantity<U>>)
        requires
            old(self).x.value.difference_ok(rhs.x.value),
            old(self).y.value.difference_ok(rhs.y.value),
            old(self).z.value.difference_ok(rhs.z.value),
        ensures
            final(self).x.value == old(self).x.value.difference(rhs.x.value),
            final(self).y.value == old(self).y.value.difference(rhs.y.value),
            final(self).z.value == old(self).z.value.difference(rhs.z.value),
    {
        self.x.value = self.x.value.minus(rhs.x.value);
        self.y.value = self.y.value.minus(rhs.y.value);
        self.z.value = self.z.value.minus(rhs.z.value);
    }
}

/// Subtracts `rhs` in place.
impl<'a, U> core::ops::SubAssign<&'a Vector3<Quantity<U>>> for Vector3<Quantity<U>> {
    fn sub_assign(&mut self, rhs: &'a Vector3<Quantity<U>>)
        requires
            old(self).x.value.difference_ok(rhs.x.value),
            old(self).y.value.difference_ok(rhs.y.value),
            old(self).z.value.difference_ok(rhs.z.value),
        ensures
            final(self).x.value == old(self).x.value.difference(rhs.x.value),
            final(self).y.value == old(self).y.value.difference(rhs.y.value),
            final(self).z.value == old(self).z.value.difference(rhs.z.value),
    {
        self.x.value = self.x.value.minus(rhs.x.value);
        self.y.value = self.y.value.minus(rhs.y.value);
        self.z.value = self.z.value.minus(rhs.z.value);
    }
}

/// Scales by `rhs` in place.
impl<U> core::ops::MulAssign<Ratio> for Vector3<Quantity<U>> {
    fn mul_assign(&mut self, rhs: Ratio)
        requires
            old(self).x.value.product_ok(rhs),
            old(self).y.value.product_ok(rhs),
            old(self).z.value.product_ok(rhs),
        ensures
            final(self).x.value == old(self).x.value.product(rhs),
            final(self).y.value == old(self).y.value.product(rhs),
            final(self).z.value == old(self).z.value.product(rhs),
    {
        self.x.value = self.x.value.times(rhs);
        self.y.value = self.y.value.times(rhs);
        self.z.value = self.z.value.times(rhs);
    }
}

/// Scales by `rhs` in place.
impl<'a, U> core::ops::MulAssign<&'a Ratio> for Vector3<Quantity<U>> {
    fn mul_assign(&mut self, rhs: &'a Ratio)
        requires
            old(self).x.value.product_ok(*rhs),
            old(self).y.value.product_ok(*rhs),
            old(self).z.value.product_ok(*rhs),
        ensures
            final(self).x.value == old(self).x.value.product(*rhs),
            final(self).y.value == old(self).y.value.product(*rhs),
            final(self).z.value == old(self).z.value.product(*rhs),
    {
        self.x.value = self.x.value.times(*rhs);
        self.y.value = self.y.value.times(*rhs);
        self.z.value = self.z.value.times(*rhs);
    }
}

/// Divides by `rhs` in place.
impl<U> core::ops::DivAssign<Ratio> for Vector3<Quantity<U>> {
    fn div_assign(&mut self, rhs: Ratio)
        requires
            old(self).x.value.quotient_ok(rhs),
            old(self).y.value.quotient_ok(rhs),
            old(self).z.value.quotient_ok(rhs),
        ensures
            final(self).x.value == old(self).x.value.quotient(rhs),
            final(self).y.value == old(self).y.value.quotient(rhs),
            final(self).z.value == old(self).z.value.quotient(rhs),
    {
        self.x.value = self.x.value.over(rhs);
        self.y.value = self.y.value.over(rhs);
        self.z.value = self.z.value.over(rhs);
    }
}

/// Divides by `rhs` in place.
impl<'a, U> core::ops::DivAssign<&'a Ratio> for Vector3<Quantity<U>> {
    fn div_assign(&mut self, rhs: &'a Ratio)
        requires
            old(self).x.value.quotient_ok(*rhs),
            old(self).y.value.quotient_ok(*rhs),
            old(self).z.value.quotient_ok(*rhs),
        ensures
            final(self).x.value == old(self).x.value.quotient(*rhs),
            final(self).y.value == old(self).y.value.quotient(*rhs),
            final(self).z.value == old(self).z.value.quotient(*rhs),
    {
        self.x.value = self.x.value.over(*rhs);
        self.y.value = self.y.value.over(*rhs);
        self.z.value = self.z.value.over(*rhs);
    }
}
} // verus!
