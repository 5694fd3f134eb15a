//! Rectangles given by their four edges, and what every rectangle offers.

use vstd::prelude::*;
use vstd::std_specs::ops::AddSpec;
use vstd::std_specs::ops::SubSpec;
use vstd::std_specs::convert::IntoSpec;
use crate::coordinate::Coordinate2;
use crate::coordinate::Size;

verus! {

/// A rectangle with edges of one scalar kind.
///
/// Nothing orders the edges: a rectangle whose right edge lies before its left
/// edge, or whose bottom edge lies before its top edge, is a value like any
/// other, and every operation takes and gives such values.
pub trait Rect2T: Sized {
    /// The scalar kind of the four edges.
    type Element;

    /// The kind of value that holds a width and a height.
    type SizeT: Size<Element = Self::Element>;

    /// The kind of value that holds a corner.
    type OffsetT: Coordinate2<Element = Self::Element>;

    /// The left edge.
    spec fn spec_left(&self) -> Self::Element;

    /// The top edge.
    spec fn spec_top(&self) -> Self::Element;

    /// The right edge.
    spec fn spec_right(&self) -> Self::Element;

    /// The bottom edge.
    spec fn spec_bottom(&self) -> Self::Element;

    /// The rectangle with the four edges given.
    spec fn spec_new(
        left: Self::Element,
        top: Self::Element,
        right: Self::Element,
        bottom: Self::Element,
    ) -> Self;

    /// Building a rectangle and reading its edges gives the edges back.
    proof fn lemma_edges_of_new(
        left: Self::Element,
        top: Self::Element,
        right: Self::Element,
        bottom: Self::Element,
    )
        ensures
            Self::spec_new(left, top, right, bottom).spec_left() == left,
            Self::spec_new(left, top, right, bottom).spec_top() == top,
            Self::spec_new(left, top, right, bottom).spec_right() == right,
            Self::spec_new(left, top, right, bottom).spec_bottom() == bottom,
    ;

    /// Builds the rectangle with the four edges given. No order among them is
    /// asked for.
    fn new(
        left: Self::Element,
        top: Self::Element,
        right: Self::Element,
        bottom: Self::Element,
    ) -> (r: Self)
        ensures
            r == Self::spec_new(left, top, right, bottom),
    ;

    /// Builds the rectangle whose left top corner is `offs` and whose width and
    /// height are those of `size`.
    fn from_parts(offs: Self::OffsetT, size: Self::SizeT) -> (r: Self) where
        Self::Element: core::ops::Add<Self::Element, Output = Self::Element>,

        requires
            offs.spec_x().add_req(size.spec_x()),
            offs.spec_y().add_req(size.spec_y()),
        ensures
            <Self::Element as AddSpec<Self::Element>>::obeys_add_spec() ==> r == Self::spec_new(
                offs.spec_x(),
                offs.spec_y(),
                offs.spec_x().add_spec(size.spec_x()),
                offs.spec_y().add_spec(size.spec_y()),
            ),
    {
        Self::new(offs.x(), offs.y(), offs.x() + size.width(), offs.y() + size.height())
    }

    /// Builds the rectangle that starts at `offs` and has the extent `size`,
    /// each given as anything that converts into the corner kind and the size
    /// kind of this rectangle.
    ///
    /// The result is what `from_parts` builds from the converted values. What
    /// a conversion gives is for its own contract to say, so the sums must be
    /// defined for whatever the two conversions may give. With a corner and a
    /// size of the rectangle's own kinds at hand, call `from_parts`.
    fn from_offset_and_size<O: Into<Self::OffsetT> + Copy, S: Into<Self::SizeT> + Copy>(
        offs: O,
        size: S,
    ) -> (r: Self) where Self::Element: core::ops::Add<Self::Element, Output = Self::Element>
        requires
            forall|o: Self::OffsetT, s: Self::SizeT|
                call_ensures(<O as Into<Self::OffsetT>>::into, (offs,), o) && call_ensures(
                    <S as Into<Self::SizeT>>::into,
                    (size,),
                    s,
                ) ==> o.spec_x().add_req(s.spec_x()) && o.spec_y().add_req(s.spec_y()),
        ensures
            exists|o: Self::OffsetT, s: Self::SizeT|
                #![trigger
                    call_ensures(<O as Into<Self::OffsetT>>::into, (offs,), o),
                    call_ensures(<S as Into<Self::SizeT>>::into, (size,), s),
                ]
                {
                    &&& call_ensures(<O as Into<Self::OffsetT>>::into, (offs,), o)
                    &&& call_ensures(<S as Into<Self::SizeT>>::into, (size,), s)
                    &&& <Self::Element as AddSpec<Self::Element>>::obeys_add_spec() ==> r
                        == Self::spec_new(
                        o.spec_x(),
                        o.spec_y(),
                        o.spec_x().add_spec(s.spec_x()),
                        o.spec_y().add_spec(s.spec_y()),
                    )
                },
    {
        let o: Self::OffsetT = offs.into();
        let s: Self::SizeT = size.into();
        Self::from_parts(o, s)
    }

    /// The left edge.
    fn left(&self) -> (r: Self::Element)
        ensures
            r == self.spec_left(),
    ;

    /// The top edge.
    fn top(&self) -> (r: Self::Element)
        ensures
            r == self.spec_top(),
    ;

    /// The right edge.
    fn right(&self) -> (r: Self::Element)
        ensures
            r == self.spec_right(),
    ;

    /// The bottom edge.
    fn bottom(&self) -> (r: Self::Element)
        ensures
            r == self.spec_bottom(),
    ;

    /// The horizontal position: the left edge.
    fn x(&self) -> (r: Self::Element)
        ensures
            r == self.spec_left(),
    {
        self.left()
    }

    /// The vertical position: the top edge.
    fn y(&self) -> (r: Self::Element)
        ensures
            r == self.spec_top(),
    {
        self.top()
    }

    /// The width and the height: right less left, bottom less top.
    fn size(&self) -> (r: Self::SizeT) where
        Self::Element: core::ops::Sub<Self::Element, Output = Self::Element>,

        requires
            self.spec_right().sub_req(self.spec_left()),
            self.spec_bottom().sub_req(self.spec_top()),
        ensures
            <Self::Element as SubSpec<Self::Element>>::obeys_sub_spec() ==> r == <
                Self::SizeT as Coordinate2
            >::spec_new(
                self.spec_right().sub_spec(self.spec_left()),
                self.spec_bottom().sub_spec(self.spec_top()),
            ),
    {
        <Self::SizeT as Coordinate2>::new(self.right() - self.left(), self.bottom() - self.top())
    }

    /// The corner at the left and top edges.
    fn offset(&self) -> (r: Self::OffsetT)
        ensures
            r == <Self::OffsetT as Coordinate2>::spec_new(self.spec_left(), self.spec_top()),
    {
        <Self::OffsetT as Coordinate2>::new(self.left(), self.top())
    }

    /// The left top corner.
    fn lt(&self) -> (r: Self::OffsetT)
        ensures
            r == <Self::OffsetT as Coordinate2>::spec_new(self.spec_left(), self.spec_top()),
    {
        self.offset()
    }

    /// The right top corner.
    fn rt(&self) -> (r: Self::OffsetT)
        ensures
            r == <Self::OffsetT as Coordinate2>::spec_new(self.spec_right(), self.spec_top()),
    {
        <Self::OffsetT as Coordinate2>::new(self.right(), self.top())
    }

    /// The left bottom corner.
    fn lb(&self) -> (r: Self::OffsetT)
        ensures
            r == <Self::OffsetT as Coordinate2>::spec_new(self.spec_left(), self.spec_bottom()),
    {
        <Self::OffsetT as Coordinate2>::new(self.left(), self.bottom())
    }

    /// The right bottom corner.
    fn rb(&self) -> (r: Self::OffsetT)
        ensures
            r == <Self::OffsetT as Coordinate2>::spec_new(self.spec_right(), self.spec_bottom()),
    {
        <Self::OffsetT as Coordinate2>::new(self.right(), self.bottom())
    }

    /// Moves every edge outward by `amount`; a negative amount moves them
    /// inward, and may carry an edge past the one opposite.
    ///
    /// The amount is cloned for three of the edges, so the differences and sums
    /// must be defined for whatever a clone of it may be.
    fn extend(&self, amount: Self::Element) -> (r: Self) where
        Self::Element: core::ops::Sub<Self::Element, Output = Self::Element> + core::ops::Add<
            Self::Element,
            Output = Self::Element,
        > + Clone,

        requires
            forall|k: Self::Element| #[trigger]
                cloned(amount, k) ==> self.spec_left().sub_req(k) && self.spec_top().sub_req(k)
                    && self.spec_right().add_req(k) && self.spec_bottom().add_req(k),
        ensures
            <Self::Element as SubSpec<Self::Element>>::obeys_sub_spec()
                && <Self::Element as AddSpec<Self::Element>>::obeys_add_spec()
                && (forall|k: Self::Element| #[trigger] cloned(amount, k) ==> k == amount) ==> r
                == Self::spec_new(
                self.spec_left().sub_spec(amount),
                self.spec_top().sub_spec(amount),
                self.spec_right().add_spec(amount),
                self.spec_bottom().add_spec(amount),
            ),
    {
        let by_left = amount.clone();
        let by_top = amount.clone();
        let by_right = amount.clone();
        // Names each amount used as a clone of `amount`, which is what the
        // precondition speaks of.
        assert(cloned(amount, by_left) && cloned(amount, by_top) && cloned(amount, by_right)
            && cloned(amount, amount));
        Self::new(
            self.left() - by_left,
            self.top() - by_top,
            self.right() + by_right,
            self.bottom() + amount,
        )
    }
}

/// `rect` with every edge moved outward by `amount`: the value that `extend`
/// gives.
pub open spec fn extended<R: Rect2T>(rect: R, amount: R::Element) -> R where
    R::Element: core::ops::Sub<R::Element, Output = R::Element> + core::ops::Add<
        R::Element,
        Output = R::Element,
    >,
 {
    R::spec_new(
        rect.spec_left().sub_spec(amount),
        rect.spec_top().sub_spec(amount),
        rect.spec_right().add_spec(amount),
        rect.spec_bottom().add_spec(amount),
    )
}

/// The width and height of `rect`: the value that `size` gives.
pub open spec fn extent<R: Rect2T>(rect: R) -> R::SizeT where
    R::Element: core::ops::Sub<R::Element, Output = R::Element>,
 {
    <R::SizeT as Coordinate2>::spec_new(
        rect.spec_right().sub_spec(rect.spec_left()),
        rect.spec_bottom().sub_spec(rect.spec_top()),
    )
}

/// An extended rectangle has its left and top edges `amount` before those of
/// the rectangle, and its right and bottom edges `amount` after them.
pub proof fn lemma_edges_of_extended<R: Rect2T>(rect: R, amount: R::Element) where
    R::Element: core::ops::Sub<R::Element, Output = R::Element> + core::ops::Add<
        R::Element,
        Output = R::Element,
    >,

    ensures
        extended(rect, amount).spec_left() == rect.spec_left().sub_spec(amount),
        extended(rect, amount).spec_top() == rect.spec_top().sub_spec(amount),
        extended(rect, amount).spec_right() == rect.spec_right().add_spec(amount),
        extended(rect, amount).spec_bottom() == rect.spec_bottom().add_spec(amount),
{
    R::lemma_edges_of_new(
        rect.spec_left().sub_spec(amount),
        rect.spec_top().sub_spec(amount),
        rect.spec_right().add_spec(amount),
        rect.spec_bottom().add_spec(amount),
    );
}

/// The size of a rectangle has the distance from left to right as its width
/// and the distance from top to bottom as its height.
pub proof fn lemma_components_of_extent<R: Rect2T>(rect: R) where
    R::Element: core::ops::Sub<R::Element, Output = R::Element>,

    ensures
        extent(rect).spec_x() == rect.spec_right().sub_spec(rect.spec_left()),
        extent(rect).spec_y() == rect.spec_bottom().sub_spec(rect.spec_top()),
{
    <R::SizeT as Coordinate2>::lemma_components_of_new(
        rect.spec_right().sub_spec(rect.spec_left()),
        rect.spec_bottom().sub_spec(rect.spec_top()),
    );
}

} // verus!
