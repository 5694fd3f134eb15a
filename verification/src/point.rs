//! Points with integer coordinates.

use vstd::prelude::*;
use vstd::std_specs::convert::FromSpecImpl;
use vstd::std_specs::ops::AddSpecImpl;
use vstd::std_specs::ops::DivSpecImpl;
use vstd::std_specs::ops::MulSpecImpl;
use vstd::std_specs::ops::SubSpecImpl;
use crate::arith::lemma_quotient_bounds;
use crate::arith::quotient;
use crate::coordinate::Coordinate2;
use crate::scalar::ScalarConvertible;
use crate::text::pair_text;
use crate::text::pair_to_string;

verus! {

/// A point with signed 32-bit components.
#[derive(Clone, Copy, Debug, PartialEq, Eq, Structural)]
pub struct Point2(pub i32, pub i32);

impl View for Point2 {
    type V = (int, int);

    /// The two components as integers.
    open spec fn view(&self) -> (int, int) {
        (self.0 as int, self.1 as int)
    }
}

impl Point2 {
    /// The value with both components zero.
    pub fn zero() -> (r: Point2)
        ensures
            r == Point2(0, 0),
    {
        Point2(0, 0)
    }

    /// Writes the value out: the name of its type, then both components in
    /// round brackets.
    pub fn to_string(&self) -> (r: String)
        ensures
            r@ == pair_text("Point2"@, self@.0, self@.1),
    {
        pair_to_string("Point2", self.0 as i64, self.1 as i64)
    }
}

impl Coordinate2 for Point2 {
    type Element = i32;

    open spec fn spec_x(&self) -> i32 {
        self.0
    }

    open spec fn spec_y(&self) -> i32 {
        self.1
    }

    open spec fn spec_new(x: i32, y: i32) -> Point2 {
        Point2(x, y)
    }

    proof fn lemma_components_of_new(x: i32, y: i32) {
    }

    fn x(&self) -> (r: i32) {
        self.0
    }

    fn y(&self) -> (r: i32) {
        self.1
    }

    fn new(x: i32, y: i32) -> (r: Point2) {
        Point2(x, y)
    }
}

/// Multiplies both components by `other`. The products must fit the element
/// kind.
impl core::ops::Mul<i32> for Point2 {
    type Output = Point2;

    fn mul(self, other: i32) -> (r: Point2)
        ensures
            r@ == (self@.0 * other, self@.1 * other),
    {
        Point2(self.0 * other, self.1 * other)
    }
}

impl MulSpecImpl<i32> for Point2 {
    open spec fn obeys_mul_spec() -> bool {
        true
    }

    open spec fn mul_req(self, other: i32) -> bool {
        &&& i32::MIN <= self.0 * other <= i32::MAX
        &&& i32::MIN <= self.1 * other <= i32::MAX
    }

    open spec fn mul_spec(self, other: i32) -> Point2 {
        Point2((self.0 * other) as i32, (self.1 * other) as i32)
    }
}

/// Divides both components by `other`, rounding toward zero. The divisor is not
/// zero, and no quotient leaves the element kind.
impl core::ops::Div<i32> for Point2 {
    type Output = Point2;

    fn div(self, other: i32) -> (r: Point2)
        ensures
            r@ == (quotient(self@.0, other as int), quotient(self@.1, other as int)),
    {
        proof {
            lemma_quotient_bounds(self.0 as int, other as int);
            lemma_quotient_bounds(self.1 as int, other as int);
        }
        Point2(self.0 / other, self.1 / other)
    }
}

impl DivSpecImpl<i32> for Point2 {
    open spec fn obeys_div_spec() -> bool {
        true
    }

    open spec fn div_req(self, other: i32) -> bool {
        &&& other != 0
        &&& !(self.0 == i32::MIN && other == -1)
        &&& !(self.1 == i32::MIN && other == -1)
    }

    open spec fn div_spec(self, other: i32) -> Point2 {
        Point2(
            quotient(self.0 as int, other as int) as i32,
            quotient(self.1 as int, other as int) as i32,
        )
    }
}

/// Adds another two-component value, of any kind whose components convert
/// into `i32`: each component of `other` is converted first. The sums must
/// fit `i32`.
impl<T: Coordinate2> core::ops::Add<T> for Point2 where T::Element: ScalarConvertible<i32> {
    type Output = Point2;

    fn add(self, other: T) -> (r: Point2)
        ensures
            r@ == (self@.0 + other.spec_x().as_spec(), self@.1 + other.spec_y().as_spec()),
    {
        Point2(self.0 + other.x()._as(), self.1 + other.y()._as())
    }
}

impl<T: Coordinate2> AddSpecImpl<T> for Point2 where T::Element: ScalarConvertible<i32> {
    open spec fn obeys_add_spec() -> bool {
        true
    }

    open spec fn add_req(self, other: T) -> bool {
        &&& i32::MIN <= self.0 + other.spec_x().as_spec() <= i32::MAX
        &&& i32::MIN <= self.1 + other.spec_y().as_spec() <= i32::MAX
    }

    open spec fn add_spec(self, other: T) -> Point2 {
        Point2(
            (self.0 + other.spec_x().as_spec()) as i32,
            (self.1 + other.spec_y().as_spec()) as i32,
        )
    }
}

/// Subtracts another two-component value, of any kind whose components convert
/// into `i32`: each component of `other` is converted first. The differences must
/// fit `i32`.
impl<T: Coordinate2> core::ops::Sub<T> for Point2 where T::Element: ScalarConvertible<i32> {
    type Output = Point2;

    fn sub(self, other: T) -> (r: Point2)
        ensures
            r@ == (self@.0 - other.spec_x().as_spec(), self@.1 - other.spec_y().as_spec()),
    {
        Point2(self.0 - other.x()._as(), self.1 - other.y()._as())
    }
}

impl<T: Coordinate2> SubSpecImpl<T> for Point2 where T::Element: ScalarConvertible<i32> {
    open spec fn obeys_sub_spec() -> bool {
        true
    }

    open spec fn sub_req(self, other: T) -> bool {
        &&& i32::MIN <= self.0 - other.spec_x().as_spec() <= i32::MAX
        &&& i32::MIN <= self.1 - other.spec_y().as_spec() <= i32::MAX
    }

    open spec fn sub_spec(self, other: T) -> Point2 {
        Point2(
            (self.0 - other.spec_x().as_spec()) as i32,
            (self.1 - other.spec_y().as_spec()) as i32,
        )
    }
}

/// Converts component by component, as `ScalarConvertible` does.
impl From<Point2U> for Point2 {
    fn from(v: Point2U) -> (r: Point2)
        ensures
            r.0 == ScalarConvertible::<i32>::as_spec(v.0),
            r.1 == ScalarConvertible::<i32>::as_spec(v.1),
    {
        Point2::new(v.0._as(), v.1._as())
    }
}

impl FromSpecImpl<Point2U> for Point2 {
    open spec fn obeys_from_spec() -> bool {
        true
    }

    open spec fn from_spec(v: Point2U) -> Point2 {
        Point2(ScalarConvertible::<i32>::as_spec(v.0), ScalarConvertible::<i32>::as_spec(v.1))
    }
}

/// A point with unsigned 32-bit components.
#[derive(Clone, Copy, Debug, PartialEq, Eq, Structural)]
pub struct Point2U(pub u32, pub u32);

impl View for Point2U {
    type V = (int, int);

    /// The two components as integers.
    open spec fn view(&self) -> (int, int) {
        (self.0 as int, self.1 as int)
    }
}

impl Point2U {
    /// The value with both components zero.
    pub fn zero() -> (r: Point2U)
        ensures
            r == Point2U(0, 0),
    {
        Point2U(0, 0)
    }

    /// Writes the value out: the name of its type, then both components in
    /// round brackets.
    pub fn to_string(&self) -> (r: String)
        ensures
            r@ == pair_text("Point2U"@, self@.0, self@.1),
    {
        pair_to_string("Point2U", self.0 as i64, self.1 as i64)
    }
}

impl Coordinate2 for Point2U {
    type Element = u32;

    open spec fn spec_x(&self) -> u32 {
        self.0
    }

    open spec fn spec_y(&self) -> u32 {
        self.1
    }

    open spec fn spec_new(x: u32, y: u32) -> Point2U {
        Point2U(x, y)
    }

    proof fn lemma_components_of_new(x: u32, y: u32) {
    }

    fn x(&self) -> (r: u32) {
        self.0
    }

    fn y(&self) -> (r: u32) {
        self.1
    }

    fn new(x: u32, y: u32) -> (r: Point2U) {
        Point2U(x, y)
    }
}

/// Multiplies both components by `other`. The products must fit the element
/// kind.
impl core::ops::Mul<u32> for Point2U {
    type Output = Point2U;

    fn mul(self, other: u32) -> (r: Point2U)
        ensures
            r@ == (self@.0 * other, self@.1 * other),
    {
        Point2U(self.0 * other, self.1 * other)
    }
}

impl MulSpecImpl<u32> for Point2U {
    open spec fn obeys_mul_spec() -> bool {
        true
    }

    open spec fn mul_req(self, other: u32) -> bool {
        &&& u32::MIN <= self.0 * other <= u32::MAX
        &&& u32::MIN <= self.1 * other <= u32::MAX
    }

    open spec fn mul_spec(self, other: u32) -> Point2U {
        Point2U((self.0 * other) as u32, (self.1 * other) as u32)
    }
}

/// Divides both components by `other`, rounding down. The divisor is not zero.
impl core::ops::Div<u32> for Point2U {
    type Output = Point2U;

    fn div(self, other: u32) -> (r: Point2U)
        ensures
            r@ == (self@.0 / (other as int), self@.1 / (other as int)),
    {
        Point2U(self.0 / other, self.1 / other)
    }
}

impl DivSpecImpl<u32> for Point2U {
    open spec fn obeys_div_spec() -> bool {
        true
    }

    open spec fn div_req(self, other: u32) -> bool {
        other != 0
    }

    open spec fn div_spec(self, other: u32) -> Point2U {
        Point2U(self.0 / other, self.1 / other)
    }
}

/// Adds another two-component value, of any kind whose components convert
/// into `u32`: each component of `other` is converted first. The sums must
/// fit `u32`.
impl<T: Coordinate2> core::ops::Add<T> for Point2U where T::Element: ScalarConvertible<u32> {
    type Output = Point2U;

    fn add(self, other: T) -> (r: Point2U)
        ensures
            r@ == (self@.0 + other.spec_x().as_spec(), self@.1 + other.spec_y().as_spec()),
    {
        Point2U(self.0 + other.x()._as(), self.1 + other.y()._as())
    }
}

impl<T: Coordinate2> AddSpecImpl<T> for Point2U where T::Element: ScalarConvertible<u32> {
    open spec fn obeys_add_spec() -> bool {
        true
    }

    open spec fn add_req(self, other: T) -> bool {
        &&& u32::MIN <= self.0 + other.spec_x().as_spec() <= u32::MAX
        &&& u32::MIN <= self.1 + other.spec_y().as_spec() <= u32::MAX
    }

    open spec fn add_spec(self, other: T) -> Point2U {
        Point2U(
            (self.0 + other.spec_x().as_spec()) as u32,
            (self.1 + other.spec_y().as_spec()) as u32,
        )
    }
}

/// Subtracts another two-component value, of any kind whose components convert
/// into `u32`: each component of `other` is converted first. The differences must
/// fit `u32`.
impl<T: Coordinate2> core::ops::Sub<T> for Point2U where T::Element: ScalarConvertible<u32> {
    type Output = Point2U;

    fn sub(self, other: T) -> (r: Point2U)
        ensures
            r@ == (self@.0 - other.spec_x().as_spec(), self@.1 - other.spec_y().as_spec()),
    {
        Point2U(self.0 - other.x()._as(), self.1 - other.y()._as())
    }
}

impl<T: Coordinate2> SubSpecImpl<T> for Point2U where T::Element: ScalarConvertible<u32> {
    open spec fn obeys_sub_spec() -> bool {
        true
    }

    open spec fn sub_req(self, other: T) -> bool {
        &&& u32::MIN <= self.0 - other.spec_x().as_spec() <= u32::MAX
        &&& u32::MIN <= self.1 - other.spec_y().as_spec() <= u32::MAX
    }

    open spec fn sub_spec(self, other: T) -> Point2U {
        Point2U(
            (self.0 - other.spec_x().as_spec()) as u32,
            (self.1 - other.spec_y().as_spec()) as u32,
        )
    }
}

/// Converts component by component, as `ScalarConvertible` does.
impl From<Point2> for Point2U {
    fn from(v: Point2) -> (r: Point2U)
        ensures
            r.0 == ScalarConvertible::<u32>::as_spec(v.0),
            r.1 == ScalarConvertible::<u32>::as_spec(v.1),
    {
        Point2U::new(v.0._as(), v.1._as())
    }
}

impl FromSpecImpl<Point2> for Point2U {
    open spec fn obeys_from_spec() -> bool {
        true
    }

    open spec fn from_spec(v: Point2) -> Point2U {
        Point2U(ScalarConvertible::<u32>::as_spec(v.0), ScalarConvertible::<u32>::as_spec(v.1))
    }
}

} // verus!
