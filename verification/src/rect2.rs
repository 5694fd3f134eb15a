//! Rectangles with integer edges.

use vstd::prelude::*;
use vstd::std_specs::convert::FromSpecImpl;
use vstd::std_specs::ops::DivSpecImpl;
use vstd::std_specs::ops::MulSpecImpl;
use crate::arith::lemma_quotient_bounds;
use crate::arith::quotient;
use crate::point::Point2;
use crate::point::Point2U;
use crate::coordinate::Coordinate2;
use crate::rect::extended;
use crate::rect::extent;
use crate::rect::Rect2T;
use crate::scalar::ScalarConvertible;
use crate::size::Size2;
use crate::size::Size2U;
use crate::text::rect_text;
use crate::text::rect_to_string;

verus! {

/// A rectangle with signed 32-bit edges: left, top, right, bottom.
#[derive(Clone, Debug, PartialEq, Eq, Structural)]
pub struct Rect2(pub i32, pub i32, pub i32, pub i32);

impl View for Rect2 {
    type V = (int, int, int, int);

    /// The four edges as integers: left, top, right, bottom.
    open spec fn view(&self) -> (int, int, int, int) {
        (self.0 as int, self.1 as int, self.2 as int, self.3 as int)
    }
}

impl Rect2 {
    /// Writes the rectangle out: the name of its type, then in square brackets
    /// the left top corner, a hyphen, and the right bottom corner.
    pub fn to_string(&self) -> (r: String)
        ensures
            r@ == rect_text("Rect2"@, self@.0, self@.1, self@.2, self@.3),
    {
        rect_to_string("Rect2", self.0 as i64, self.1 as i64, self.2 as i64, self.3 as i64)
    }
}

impl Rect2T for Rect2 {
    type Element = i32;

    type SizeT = Size2;

    type OffsetT = Point2;

    open spec fn spec_left(&self) -> i32 {
        self.0
    }

    open spec fn spec_top(&self) -> i32 {
        self.1
    }

    open spec fn spec_right(&self) -> i32 {
        self.2
    }

    open spec fn spec_bottom(&self) -> i32 {
        self.3
    }

    open spec fn spec_new(left: i32, top: i32, right: i32, bottom: i32) -> Rect2 {
        Rect2(left, top, right, bottom)
    }

    proof fn lemma_edges_of_new(left: i32, top: i32, right: i32, bottom: i32) {
    }

    fn new(left: i32, top: i32, right: i32, bottom: i32) -> (r: Rect2) {
        Rect2(left, top, right, bottom)
    }

    fn left(&self) -> (r: i32) {
        self.0
    }

    fn top(&self) -> (r: i32) {
        self.1
    }

    fn right(&self) -> (r: i32) {
        self.2
    }

    fn bottom(&self) -> (r: i32) {
        self.3
    }
}

/// Multiplies all four edges by `other`. The products must fit the element kind.
impl core::ops::Mul<i32> for Rect2 {
    type Output = Rect2;

    fn mul(self, other: i32) -> (r: Rect2)
        ensures
            r@ == (self@.0 * other, self@.1 * other, self@.2 * other, self@.3 * other),
    {
        Rect2(self.0 * other, self.1 * other, self.2 * other, self.3 * other)
    }
}

impl MulSpecImpl<i32> for Rect2 {
    open spec fn obeys_mul_spec() -> bool {
        true
    }

    open spec fn mul_req(self, other: i32) -> bool {
        &&& i32::MIN <= self.0 * other <= i32::MAX
        &&& i32::MIN <= self.1 * other <= i32::MAX
        &&& i32::MIN <= self.2 * other <= i32::MAX
        &&& i32::MIN <= self.3 * other <= i32::MAX
    }

    open spec fn mul_spec(self, other: i32) -> Rect2 {
        Rect2(
            (self.0 * other) as i32,
            (self.1 * other) as i32,
            (self.2 * other) as i32,
            (self.3 * other) as i32,
        )
    }
}

/// Divides all four edges by `other`, rounding toward zero. The divisor is not
/// zero, and no quotient leaves the element kind.
impl core::ops::Div<i32> for Rect2 {
    type Output = Rect2;

    fn div(self, other: i32) -> (r: Rect2)
        ensures
            r@ == (
                quotient(self@.0, other as int),
                quotient(self@.1, other as int),
                quotient(self@.2, other as int),
                quotient(self@.3, other as int),
            ),
    {
        proof {
            lemma_quotient_bounds(self.0 as int, other as int);
            lemma_quotient_bounds(self.1 as int, other as int);
            lemma_quotient_bounds(self.2 as int, other as int);
            lemma_quotient_bounds(self.3 as int, other as int);
        }
        Rect2(self.0 / other, self.1 / other, self.2 / other, self.3 / other)
    }
}

impl DivSpecImpl<i32> for Rect2 {
    open spec fn obeys_div_spec() -> bool {
        true
    }

    open spec fn div_req(self, other: i32) -> bool {
        &&& other != 0
        &&& other == -1 ==> self.0 != i32::MIN && self.1 != i32::MIN && self.2 != i32::MIN
            && self.3 != i32::MIN
    }

    open spec fn div_spec(self, other: i32) -> Rect2 {
        Rect2(
            quotient(self.0 as int, other as int) as i32,
            quotient(self.1 as int, other as int) as i32,
            quotient(self.2 as int, other as int) as i32,
            quotient(self.3 as int, other as int) as i32,
        )
    }
}

/// Converts edge by edge, as `ScalarConvertible` does.
impl From<Rect2U> for Rect2 {
    fn from(v: Rect2U) -> (r: Rect2)
        ensures
            r.0 == ScalarConvertible::<i32>::as_spec(v.0),
            r.1 == ScalarConvertible::<i32>::as_spec(v.1),
            r.2 == ScalarConvertible::<i32>::as_spec(v.2),
            r.3 == ScalarConvertible::<i32>::as_spec(v.3),
    {
        Rect2::new(v.0._as(), v.1._as(), v.2._as(), v.3._as())
    }
}

impl FromSpecImpl<Rect2U> for Rect2 {
    open spec fn obeys_from_spec() -> bool {
        true
    }

    open spec fn from_spec(v: Rect2U) -> Rect2 {
        Rect2(
            ScalarConvertible::<i32>::as_spec(v.0),
            ScalarConvertible::<i32>::as_spec(v.1),
            ScalarConvertible::<i32>::as_spec(v.2),
            ScalarConvertible::<i32>::as_spec(v.3),
        )
    }
}

/// A rectangle with unsigned 32-bit edges: left, top, right, bottom.
#[derive(Clone, Debug, PartialEq, Eq, Structural)]
pub struct Rect2U(pub u32, pub u32, pub u32, pub u32);

impl View for Rect2U {
    type V = (int, int, int, int);

    /// The four edges as integers: left, top, right, bottom.
    open spec fn view(&self) -> (int, int, int, int) {
        (self.0 as int, self.1 as int, self.2 as int, self.3 as int)
    }
}

impl Rect2U {
    /// Writes the rectangle out: the name of its type, then in square brackets
    /// the left top corner, a hyphen, and the right bottom corner.
    pub fn to_string(&self) -> (r: String)
        ensures
            r@ == rect_text("Rect2U"@, self@.0, self@.1, self@.2, self@.3),
    {
        rect_to_string("Rect2U", self.0 as i64, self.1 as i64, self.2 as i64, self.3 as i64)
    }
}

impl Rect2T for Rect2U {
    type Element = u32;

    type SizeT = Size2U;

    type OffsetT = Point2U;

    open spec fn spec_left(&self) -> u32 {
        self.0
    }

    open spec fn spec_top(&self) -> u32 {
        self.1
    }

    open spec fn spec_right(&self) -> u32 {
        self.2
    }

    open spec fn spec_bottom(&self) -> u32 {
        self.3
    }

    open spec fn spec_new(left: u32, top: u32, right: u32, bottom: u32) -> Rect2U {
        Rect2U(left, top, right, bottom)
    }

    proof fn lemma_edges_of_new(left: u32, top: u32, right: u32, bottom: u32) {
    }

    fn new(left: u32, top: u32, right: u32, bottom: u32) -> (r: Rect2U) {
        Rect2U(left, top, right, bottom)
    }

    fn left(&self) -> (r: u32) {
        self.0
    }

    fn top(&self) -> (r: u32) {
        self.1
    }

    fn right(&self) -> (r: u32) {
        self.2
    }

    fn bottom(&self) -> (r: u32) {
        self.3
    }
}

/// Multiplies all four edges by `other`. The products must fit the element kind.
impl core::ops::Mul<u32> for Rect2U {
    type Output = Rect2U;

    fn mul(self, other: u32) -> (r: Rect2U)
        ensures
            r@ == (self@.0 * other, self@.1 * other, self@.2 * other, self@.3 * other),
    {
        Rect2U(self.0 * other, self.1 * other, self.2 * other, self.3 * other)
    }
}

impl MulSpecImpl<u32> for Rect2U {
    open spec fn obeys_mul_spec() -> bool {
        true
    }

    open spec fn mul_req(self, other: u32) -> bool {
        &&& u32::MIN <= self.0 * other <= u32::MAX
        &&& u32::MIN <= self.1 * other <= u32::MAX
        &&& u32::MIN <= self.2 * other <= u32::MAX
        &&& u32::MIN <= self.3 * other <= u32::MAX
    }

    open spec fn mul_spec(self, other: u32) -> Rect2U {
        Rect2U(
            (self.0 * other) as u32,
            (self.1 * other) as u32,
            (self.2 * other) as u32,
            (self.3 * other) as u32,
        )
    }
}

/// Divides all four edges by `other`, rounding down. The divisor is not zero.
impl core::ops::Div<u32> for Rect2U {
    type Output = Rect2U;

    fn div(self, other: u32) -> (r: Rect2U)
        ensures
            r@ == (
                self@.0 / (other as int),
                self@.1 / (other as int),
                self@.2 / (other as int),
                self@.3 / (other as int),
            ),
    {
        Rect2U(self.0 / other, self.1 / other, self.2 / other, self.3 / other)
    }
}

impl DivSpecImpl<u32> for Rect2U {
    open spec fn obeys_div_spec() -> bool {
        true
    }

    open spec fn div_req(self, other: u32) -> bool {
        other != 0
    }

    open spec fn div_spec(self, other: u32) -> Rect2U {
        Rect2U(self.0 / other, self.1 / other, self.2 / other, self.3 / other)
    }
}

/// Converts edge by edge, as `ScalarConvertible` does.
impl From<Rect2> for Rect2U {
    fn from(v: Rect2) -> (r: Rect2U)
        ensures
            r.0 == ScalarConvertible::<u32>::as_spec(v.0),
            r.1 == ScalarConvertible::<u32>::as_spec(v.1),
            r.2 == ScalarConvertible::<u32>::as_spec(v.2),
            r.3 == ScalarConvertible::<u32>::as_spec(v.3),
    {
        Rect2U::new(v.0._as(), v.1._as(), v.2._as(), v.3._as())
    }
}

impl FromSpecImpl<Rect2> for Rect2U {
    open spec fn obeys_from_spec() -> bool {
        true
    }

    open spec fn from_spec(v: Rect2) -> Rect2U {
        Rect2U(
            ScalarConvertible::<u32>::as_spec(v.0),
            ScalarConvertible::<u32>::as_spec(v.1),
            ScalarConvertible::<u32>::as_spec(v.2),
            ScalarConvertible::<u32>::as_spec(v.3),
        )
    }
}

/// Where no edge leaves `i32`, an extended rectangle has its left and top
/// edges `amount` less, and its right and bottom edges `amount` more.
pub proof fn lemma_extended_edges(rect: Rect2, amount: i32)
    requires
        i32::MIN <= rect.0 - amount <= i32::MAX,
        i32::MIN <= rect.1 - amount <= i32::MAX,
        i32::MIN <= rect.2 + amount <= i32::MAX,
        i32::MIN <= rect.3 + amount <= i32::MAX,
    ensures
        extended(rect, amount).spec_left() == rect.spec_left() - amount,
        extended(rect, amount).spec_top() == rect.spec_top() - amount,
        extended(rect, amount).spec_right() == rect.spec_right() + amount,
        extended(rect, amount).spec_bottom() == rect.spec_bottom() + amount,
{
}

/// Where no edge leaves `u32`, an extended rectangle has its left and top
/// edges `amount` less, and its right and bottom edges `amount` more.
pub proof fn lemma_extended_edges_unsigned(rect: Rect2U, amount: u32)
    requires
        rect.0 >= amount,
        rect.1 >= amount,
        rect.2 + amount <= u32::MAX,
        rect.3 + amount <= u32::MAX,
    ensures
        extended(rect, amount).spec_left() == rect.spec_left() - amount,
        extended(rect, amount).spec_top() == rect.spec_top() - amount,
        extended(rect, amount).spec_right() == rect.spec_right() + amount,
        extended(rect, amount).spec_bottom() == rect.spec_bottom() + amount,
{
}

/// Extending a rectangle by an amount and the result by the negated amount
/// gives the rectangle back, where the amount can be negated and the first
/// extension leaves no edge outside `i32`.
pub proof fn lemma_extend_round_trip(rect: Rect2, amount: i32)
    requires
        amount != i32::MIN,
        i32::MIN <= rect.0 - amount <= i32::MAX,
        i32::MIN <= rect.1 - amount <= i32::MAX,
        i32::MIN <= rect.2 + amount <= i32::MAX,
        i32::MIN <= rect.3 + amount <= i32::MAX,
    ensures
        extended(extended(rect, amount), (-amount) as i32) == rect,
{
}

/// The size of a rectangle is right less left by bottom less top, where both
/// differences fit `i32`; either may be negative.
pub proof fn lemma_extent(rect: Rect2)
    requires
        i32::MIN <= rect.2 - rect.0 <= i32::MAX,
        i32::MIN <= rect.3 - rect.1 <= i32::MAX,
    ensures
        extent(rect) == Size2((rect.2 - rect.0) as i32, (rect.3 - rect.1) as i32),
        extent(rect).0 == rect.2 - rect.0,
        extent(rect).1 == rect.3 - rect.1,
{
}

/// The size of a rectangle with unsigned edges is right less left by bottom
/// less top, where right is not before left nor bottom before top.
pub proof fn lemma_extent_unsigned(rect: Rect2U)
    requires
        rect.0 <= rect.2,
        rect.1 <= rect.3,
    ensures
        extent(rect) == Size2U((rect.2 - rect.0) as u32, (rect.3 - rect.1) as u32),
        extent(rect).0 == rect.2 - rect.0,
        extent(rect).1 == rect.3 - rect.1,
{
}

} // verus!
