//! Plain geometry values: points and sizes of two components and rectangles
//! of four edges, over integer element kinds.
//!
//! - `scalar`: conversion between the integer kinds, with the meaning of a
//!   numeric cast; `scalar_laws` states over the integers what it gives.
//! - `coordinate`, `rect`: what every two-component value, every size and
//!   every rectangle offers, whatever its element kind.
//! - `point`, `size`, `rect2`: the values themselves, with arithmetic and
//!   conversion between the signed and the unsigned kind.
//! - `layout`: which of them are stored alike, and reading one as another.
//! - `text`: the values written out for a reader.
//!
//! No operation panics: where a sum, difference, product or quotient could
//! leave the element kind, the operation requires that it does not.

pub mod arith;
pub mod scalar;
pub mod scalar_laws;
pub mod coordinate;
pub mod rect;
pub mod point;
pub mod size;
pub mod rect2;
pub mod layout;
pub mod text;

pub use scalar::ScalarConvertible;
pub use coordinate::Coordinate2;
pub use coordinate::Size;
pub use rect::Rect2T;
pub use point::Point2;
pub use point::Point2U;
pub use size::Size2;
pub use size::Size2U;
pub use rect2::Rect2;
pub use rect2::Rect2U;
pub use layout::transmute_array;
pub use layout::transmute_safe;
pub use layout::Layout;
pub use layout::MarkForSameBits;
pub use layout::ScalarKind;
