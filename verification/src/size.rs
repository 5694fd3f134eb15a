//! Sizes with an integer width and height.

use vstd::prelude::*;
use vstd::std_specs::convert::FromSpecImpl;
use vstd::std_specs::ops::AddSpecImpl;
use vstd::std_specs::ops::DivSpecImpl;
use vstd::std_specs::ops::MulSpecImpl;
use vstd::std_specs::ops::SubSpecImpl;
use crate::arith::lemma_quotient_bounds;
use crate::arith::quotient;
use crate::coordinate::expanded;
use crate::coordinate::shrunk;
use crate::coordinate::Coordinate2;
use crate::coordinate::Size;
use crate::scalar::ScalarConvertible;
use crate::text::pair_text;
use crate::text::pair_to_string;

verus! {

/// A size with signed 32-bit components.
#[derive(Clone, Copy, Debug, PartialEq, Eq, Structural)]
pub struct Size2(pub i32, pub i32);

impl View for Size2 {
    type V = (int, int);

    /// The two components as integers.
    open spec fn view(&self) -> (int, int) {
        (self.0 as int, self.1 as int)
    }
}

impl Size2 {
    /// The value with both components zero.
    pub fn zero() -> (r: Size2)
        ensures
            r == Size2(0, 0),
    {
        Size2(0, 0)
    }

    /// Writes the value out: the name of its type, then both components in
    /// round brackets.
    pub fn to_string(&self) -> (r: String)
        ensures
            r@ == pair_text("Size2"@, self@.0, self@.1),
    {
        pair_to_string("Size2", self.0 as i64, self.1 as i64)
    }
}

impl Coordinate2 for Size2 {
    type Element = i32;

    open spec fn spec_x(&self) -> i32 {
        self.0
    }

    open spec fn spec_y(&self) -> i32 {
        self.1
    }

    open spec fn spec_new(x: i32, y: i32) -> Size2 {
        Size2(x, y)
    }

    proof fn lemma_components_of_new(x: i32, y: i32) {
    }

    fn x(&self) -> (r: i32) {
        self.0
    }

    fn y(&self) -> (r: i32) {
        self.1
    }

    fn new(x: i32, y: i32) -> (r: Size2) {
        Size2(x, y)
    }
}

impl Size for Size2 {
}

/// Multiplies both components by `other`. The products must fit the element
/// kind.
impl core::ops::Mul<i32> for Size2 {
    type Output = Size2;

    fn mul(self, other: i32) -> (r: Size2)
        ensures
            r@ == (self@.0 * other, self@.1 * other),
    {
        Size2(self.0 * other, self.1 * other)
    }
}

impl MulSpecImpl<i32> for Size2 {
    open spec fn obeys_mul_spec() -> bool {
        true
    }

    open spec fn mul_req(self, other: i32) -> bool {
        &&& i32::MIN <= self.0 * other <= i32::MAX
        &&& i32::MIN <= self.1 * other <= i32::MAX
    }

    open spec fn mul_spec(self, other: i32) -> Size2 {
        Size2((self.0 * other) as i32, (self.1 * other) as i32)
    }
}

/// Divides both components by `other`, rounding toward zero. The divisor is not
/// zero, and no quotient leaves the element kind.
impl core::ops::Div<i32> for Size2 {
    type Output = Size2;

    fn div(self, other: i32) -> (r: Size2)
        ensures
            r@ == (quotient(self@.0, other as int), quotient(self@.1, other as int)),
    {
        proof {
            lemma_quotient_bounds(self.0 as int, other as int);
            lemma_quotient_bounds(self.1 as int, other as int);
        }
        Size2(self.0 / other, self.1 / other)
    }
}

impl DivSpecImpl<i32> for Size2 {
    open spec fn obeys_div_spec() -> bool {
        true
    }

    open spec fn div_req(self, other: i32) -> bool {
        &&& other != 0
        &&& !(self.0 == i32::MIN && other == -1)
        &&& !(self.1 == i32::MIN && other == -1)
    }

    open spec fn div_spec(self, other: i32) -> Size2 {
        Size2(
            quotient(self.0 as int, other as int) as i32,
            quotient(self.1 as int, other as int) as i32,
        )
    }
}

/// Adds another two-component value, of any kind whose components convert
/// into `i32`: each component of `other` is converted first. The sums must
/// fit `i32`.
impl<T: Coordinate2> core::ops::Add<T> for Size2 where T::Element: ScalarConvertible<i32> {
    type Output = Size2;

    fn add(self, other: T) -> (r: Size2)
        ensures
            r@ == (self@.0 + other.spec_x().as_spec(), self@.1 + other.spec_y().as_spec()),
    {
        Size2(self.0 + other.x()._as(), self.1 + other.y()._as())
    }
}

impl<T: Coordinate2> AddSpecImpl<T> for Size2 where T::Element: ScalarConvertible<i32> {
    open spec fn obeys_add_spec() -> bool {
        true
    }

    open spec fn add_req(self, other: T) -> bool {
        &&& i32::MIN <= self.0 + other.spec_x().as_spec() <= i32::MAX
        &&& i32::MIN <= self.1 + other.spec_y().as_spec() <= i32::MAX
    }

    open spec fn add_spec(self, other: T) -> Size2 {
        Size2(
            (self.0 + other.spec_x().as_spec()) as i32,
            (self.1 + other.spec_y().as_spec()) as i32,
        )
    }
}

/// Subtracts another two-component value, of any kind whose components convert
/// into `i32`: each component of `other` is converted first. The differences must
/// fit `i32`.
impl<T: Coordinate2> core::ops::Sub<T> for Size2 where T::Element: ScalarConvertible<i32> {
    type Output = Size2;

    fn sub(self, other: T) -> (r: Size2)
        ensures
            r@ == (self@.0 - other.spec_x().as_spec(), self@.1 - other.spec_y().as_spec()),
    {
        Size2(self.0 - other.x()._as(), self.1 - other.y()._as())
    }
}

impl<T: Coordinate2> SubSpecImpl<T> for Size2 where T::Element: ScalarConvertible<i32> {
    open spec fn obeys_sub_spec() -> bool {
        true
    }

    open spec fn sub_req(self, other: T) -> bool {
        &&& i32::MIN <= self.0 - other.spec_x().as_spec() <= i32::MAX
        &&& i32::MIN <= self.1 - other.spec_y().as_spec() <= i32::MAX
    }

    open spec fn sub_spec(self, other: T) -> Size2 {
        Size2(
            (self.0 - other.spec_x().as_spec()) as i32,
            (self.1 - other.spec_y().as_spec()) as i32,
        )
    }
}

/// Converts component by component, as `ScalarConvertible` does.
impl From<Size2U> for Size2 {
    fn from(v: Size2U) -> (r: Size2)
        ensures
            r.0 == ScalarConvertible::<i32>::as_spec(v.0),
            r.1 == ScalarConvertible::<i32>::as_spec(v.1),
    {
        Size2::new(v.0._as(), v.1._as())
    }
}

impl FromSpecImpl<Size2U> for Size2 {
    open spec fn obeys_from_spec() -> bool {
        true
    }

    open spec fn from_spec(v: Size2U) -> Size2 {
        Size2(ScalarConvertible::<i32>::as_spec(v.0), ScalarConvertible::<i32>::as_spec(v.1))
    }
}

/// A size with unsigned 32-bit components.
#[derive(Clone, Copy, Debug, PartialEq, Eq, Structural)]
pub struct Size2U(pub u32, pub u32);

impl View for Size2U {
    type V = (int, int);

    /// The two components as integers.
    open spec fn view(&self) -> (int, int) {
        (self.0 as int, self.1 as int)
    }
}

impl Size2U {
    /// The value with both components zero.
    pub fn zero() -> (r: Size2U)
        ensures
            r == Size2U(0, 0),
    {
        Size2U(0, 0)
    }

    /// Writes the value out: the name of its type, then both components in
    /// round brackets.
    pub fn to_string(&self) -> (r: String)
        ensures
            r@ == pair_text("Size2U"@, self@.0, self@.1),
    {
        pair_to_string("Size2U", self.0 as i64, self.1 as i64)
    }
}

impl Coordinate2 for Size2U {
    type Element = u32;

    open spec fn spec_x(&self) -> u32 {
        self.0
    }

    open spec fn spec_y(&self) -> u32 {
        self.1
    }

    open spec fn spec_new(x: u32, y: u32) -> Size2U {
        Size2U(x, y)
    }

    proof fn lemma_components_of_new(x: u32, y: u32) {
    }

    fn x(&self) -> (r: u32) {
        self.0
    }

    fn y(&self) -> (r: u32) {
        self.1
    }

    fn new(x: u32, y: u32) -> (r: Size2U) {
        Size2U(x, y)
    }
}

impl Size for Size2U {
}

/// Multiplies both components by `other`. The products must fit the element
/// kind.
impl core::ops::Mul<u32> for Size2U {
    type Output = Size2U;

    fn mul(self, other: u32) -> (r: Size2U)
        ensures
            r@ == (self@.0 * other, self@.1 * other),
    {
        Size2U(self.0 * other, self.1 * other)
    }
}

impl MulSpecImpl<u32> for Size2U {
    open spec fn obeys_mul_spec() -> bool {
        true
    }

    open spec fn mul_req(self, other: u32) -> bool {
        &&& u32::MIN <= self.0 * other <= u32::MAX
        &&& u32::MIN <= self.1 * other <= u32::MAX
    }

    open spec fn mul_spec(self, other: u32) -> Size2U {
        Size2U((self.0 * other) as u32, (self.1 * other) as u32)
    }
}

/// Divides both components by `other`, rounding down. The divisor is not zero.
impl core::ops::Div<u32> for Size2U {
    type Output = Size2U;

    fn div(self, other: u32) -> (r: Size2U)
        ensures
            r@ == (self@.0 / (other as int), self@.1 / (other as int)),
    {
        Size2U(self.0 / other, self.1 / other)
    }
}

impl DivSpecImpl<u32> for Size2U {
    open spec fn obeys_div_spec() -> bool {
        true
    }

    open spec fn div_req(self, other: u32) -> bool {
        other != 0
    }

    open spec fn div_spec(self, other: u32) -> Size2U {
        Size2U(self.0 / other, self.1 / other)
    }
}

/// Adds another two-component value, of any kind whose components convert
/// into `u32`: each component of `other` is converted first. The sums must
/// fit `u32`.
impl<T: Coordinate2> core::ops::Add<T> for Size2U where T::Element: ScalarConvertible<u32> {
    type Output = Size2U;

    fn add(self, other: T) -> (r: Size2U)
        ensures
            r@ == (self@.0 + other.spec_x().as_spec(), self@.1 + other.spec_y().as_spec()),
    {
        Size2U(self.0 + other.x()._as(), self.1 + other.y()._as())
    }
}

impl<T: Coordinate2> AddSpecImpl<T> for Size2U where T::Element: ScalarConvertible<u32> {
    open spec fn obeys_add_spec() -> bool {
        true
    }

    open spec fn add_req(self, other: T) -> bool {
        &&& u32::MIN <= self.0 + other.spec_x().as_spec() <= u32::MAX
        &&& u32::MIN <= self.1 + other.spec_y().as_spec() <= u32::MAX
    }

    open spec fn add_spec(self, other: T) -> Size2U {
        Size2U(
            (self.0 + other.spec_x().as_spec()) as u32,
            (self.1 + other.spec_y().as_spec()) as u32,
        )
    }
}

/// Subtracts another two-component value, of any kind whose components convert
/// into `u32`: each component of `other` is converted first. The differences must
/// fit `u32`.
impl<T: Coordinate2> core::ops::Sub<T> for Size2U where T::Element: ScalarConvertible<u32> {
    type Output = Size2U;

    fn sub(self, other: T) -> (r: Size2U)
        ensures
            r@ == (self@.0 - other.spec_x().as_spec(), self@.1 - other.spec_y().as_spec()),
    {
        Size2U(self.0 - other.x()._as(), self.1 - other.y()._as())
    }
}

impl<T: Coordinate2> SubSpecImpl<T> for Size2U where T::Element: ScalarConvertible<u32> {
    open spec fn obeys_sub_spec() -> bool {
        true
    }

    open spec fn sub_req(self, other: T) -> bool {
        &&& u32::MIN <= self.0 - other.spec_x().as_spec() <= u32::MAX
        &&& u32::MIN <= self.1 - other.spec_y().as_spec() <= u32::MAX
    }

    open spec fn sub_spec(self, other: T) -> Size2U {
        Size2U(
            (self.0 - other.spec_x().as_spec()) as u32,
            (self.1 - other.spec_y().as_spec()) as u32,
        )
    }
}

/// Converts component by component, as `ScalarConvertible` does.
impl From<Size2> for Size2U {
    fn from(v: Size2) -> (r: Size2U)
        ensures
            r.0 == ScalarConvertible::<u32>::as_spec(v.0),
            r.1 == ScalarConvertible::<u32>::as_spec(v.1),
    {
        Size2U::new(v.0._as(), v.1._as())
    }
}

impl FromSpecImpl<Size2> for Size2U {
    open spec fn obeys_from_spec() -> bool {
        true
    }

    open spec fn from_spec(v: Size2) -> Size2U {
        Size2U(ScalarConvertible::<u32>::as_spec(v.0), ScalarConvertible::<u32>::as_spec(v.1))
    }
}

/// Over the integers: a shrunk size has the width and height less `x` and `y`,
/// and an expanded size has them more, wherever those numbers fit `i32`.
pub proof fn lemma_shrunk_and_expanded(size: Size2, x: i32, y: i32)
    ensures
        i32::MIN <= size.0 - x <= i32::MAX ==> shrunk(size, x, y).0 == size.0 - x,
        i32::MIN <= size.1 - y <= i32::MAX ==> shrunk(size, x, y).1 == size.1 - y,
        i32::MIN <= size.0 + x <= i32::MAX ==> expanded(size, x, y).0 == size.0 + x,
        i32::MIN <= size.1 + y <= i32::MAX ==> expanded(size, x, y).1 == size.1 + y,
{
}

/// Over the integers: a shrunk size has the width and height less `x` and `y`,
/// and an expanded size has them more, wherever those numbers fit `u32`.
pub proof fn lemma_shrunk_and_expanded_unsigned(size: Size2U, x: u32, y: u32)
    ensures
        u32::MIN <= size.0 - x <= u32::MAX ==> shrunk(size, x, y).0 == size.0 - x,
        u32::MIN <= size.1 - y <= u32::MAX ==> shrunk(size, x, y).1 == size.1 - y,
        u32::MIN <= size.0 + x <= u32::MAX ==> expanded(size, x, y).0 == size.0 + x,
        u32::MIN <= size.1 + y <= u32::MAX ==> expanded(size, x, y).1 == size.1 + y,
{
}

} // verus!
