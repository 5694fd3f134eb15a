//! Two-component values and what every such value offers.

use vstd::prelude::*;
use vstd::std_specs::ops::AddSpec;
use vstd::std_specs::ops::SubSpec;

verus! {

/// A value made of two components of one scalar kind, `x` before `y`.
///
/// The value is described by `spec_x` and `spec_y`; `spec_new` names the value
/// built from two components. An implementor proves that the components of a
/// built value are the ones it was built from.
pub trait Coordinate2: Sized {
    /// The scalar kind of both components.
    type Element;

    /// The first component.
    spec fn spec_x(&self) -> Self::Element;

    /// The second component.
    spec fn spec_y(&self) -> Self::Element;

    /// The value whose components are `x` and `y`.
    spec fn spec_new(x: Self::Element, y: Self::Element) -> Self;

    /// Building a value and reading its components gives the components back.
    proof fn lemma_components_of_new(x: Self::Element, y: Self::Element)
        ensures
            Self::spec_new(x, y).spec_x() == x,
            Self::spec_new(x, y).spec_y() == y,
    ;

    /// The first component.
    fn x(&self) -> (r: Self::Element)
        ensures
            r == self.spec_x(),
    ;

    /// The second component.
    fn y(&self) -> (r: Self::Element)
        ensures
            r == self.spec_y(),
    ;

    /// Builds the value whose components are `x` and `y`.
    fn new(x: Self::Element, y: Self::Element) -> (r: Self)
        ensures
            r == Self::spec_new(x, y),
    ;
}

/// The value left when `x` is taken from the first component of `s` and `y`
/// from the second.
pub open spec fn shrunk<S: Coordinate2>(s: S, x: S::Element, y: S::Element) -> S where
    S::Element: core::ops::Sub<S::Element, Output = S::Element>,
 {
    S::spec_new(s.spec_x().sub_spec(x), s.spec_y().sub_spec(y))
}

/// The value reached when `x` is added to the first component of `s` and `y`
/// to the second.
pub open spec fn expanded<S: Coordinate2>(s: S, x: S::Element, y: S::Element) -> S where
    S::Element: core::ops::Add<S::Element, Output = S::Element>,
 {
    S::spec_new(s.spec_x().add_spec(x), s.spec_y().add_spec(y))
}

/// A two-component value read as an extent: `x` is the width, `y` the height.
pub trait Size: Coordinate2 {
    /// The width: the first component.
    fn width(&self) -> (r: Self::Element)
        ensures
            r == self.spec_x(),
    {
        self.x()
    }

    /// The height: the second component.
    fn height(&self) -> (r: Self::Element)
        ensures
            r == self.spec_y(),
    {
        self.y()
    }

    /// Takes `x` from the width and `y` from the height.
    fn shrink(&self, x: Self::Element, y: Self::Element) -> (r: Self) where
        Self::Element: core::ops::Sub<Self::Element, Output = Self::Element>,

        requires
            self.spec_x().sub_req(x),
            self.spec_y().sub_req(y),
        ensures
            <Self::Element as SubSpec<Self::Element>>::obeys_sub_spec() ==> r == shrunk(
                *self,
                x,
                y,
            ),
    {
        Self::new(self.width() - x, self.height() - y)
    }

    /// Adds `x` to the width and `y` to the height.
    fn expand(&self, x: Self::Element, y: Self::Element) -> (r: Self) where
        Self::Element: core::ops::Add<Self::Element, Output = Self::Element>,

        requires
            self.spec_x().add_req(x),
            self.spec_y().add_req(y),
        ensures
            <Self::Element as AddSpec<Self::Element>>::obeys_add_spec() ==> r == expanded(
                *self,
                x,
                y,
            ),
    {
        Self::new(self.width() + x, self.height() + y)
    }
}

} // verus!
