//! Which types are stored alike, and the reading of a value of one as a value
//! of the other.
//!
//! The stored form of a value is described here as a sequence of bytes: the
//! fields in their order, without gaps, and each field as the bytes of its
//! scalar, the low byte first. Two types may be declared alike only if they
//! have the same number of fields, of the same scalar kinds, in the same order.
//! Every declaration stands at the end of this file, once for each direction,
//! and each is proved against the stored form of both types: a declaration
//! that is not true does not verify.
//!
//! Reading is by value. The result is a new value with the bytes of the one
//! read; no reference to the memory of the first is handed out.

use vstd::prelude::*;
use vstd::bytes::lemma_auto_spec_u32_to_from_le_bytes;
use vstd::bytes::spec_u32_from_le_bytes;
use vstd::bytes::spec_u32_to_le_bytes;
use vstd::bytes::u32_to_le_bytes;
use crate::point::Point2;
use crate::point::Point2U;
use crate::size::Size2;
use crate::size::Size2U;

verus! {

/// The numeric kinds a stored field can have.
#[derive(Clone, Copy, Debug, PartialEq, Eq, Structural)]
pub enum ScalarKind {
    I8,
    U8,
    I16,
    U16,
    I32,
    U32,
    I64,
    U64,
    ISize,
    USize,
    F32,
    F64,
}

/// The number of bytes that a scalar of the kind `kind` takes.
pub open spec fn kind_width(kind: ScalarKind) -> nat {
    match kind {
        ScalarKind::I8 | ScalarKind::U8 => 1,
        ScalarKind::I16 | ScalarKind::U16 => 2,
        ScalarKind::I32 | ScalarKind::U32 | ScalarKind::F32 => 4,
        ScalarKind::I64 | ScalarKind::U64 | ScalarKind::F64 => 8,
        ScalarKind::ISize | ScalarKind::USize => (usize::BITS / 8) as nat,
    }
}

/// The number of bytes that fields of the kinds `kinds` take together.
pub open spec fn stride(kinds: Seq<ScalarKind>) -> nat
    decreases kinds.len(),
{
    if kinds.len() == 0 {
        0
    } else {
        stride(kinds.drop_last()) + kind_width(kinds.last())
    }
}

/// The stored bytes of an unsigned 32-bit scalar.
pub open spec fn u32_bytes(v: u32) -> Seq<u8> {
    spec_u32_to_le_bytes(v)
}

/// The stored bytes of a signed 32-bit scalar: those of its two's complement
/// form.
pub open spec fn i32_bytes(v: i32) -> Seq<u8> {
    spec_u32_to_le_bytes(v as u32)
}

/// A type whose stored form is known.
///
/// The bytes of a value identify it, and every value of the type takes the
/// same number of bytes; an implementor proves both.
pub trait Layout: Sized {
    /// The scalar kinds of the fields, in their order.
    spec fn kinds() -> Seq<ScalarKind>;

    /// The bytes of `self` as stored.
    spec fn spec_bytes(&self) -> Seq<u8>;

    /// Every value of the type takes as many bytes as its fields do.
    proof fn lemma_stride(&self)
        ensures
            self.spec_bytes().len() == stride(Self::kinds()),
    ;

    /// A value is known by its bytes: two values stored alike are equal.
    proof fn lemma_bytes_identify(a: &Self, b: &Self)
        requires
            a.spec_bytes() == b.spec_bytes(),
        ensures
            a == b,
    ;

    /// The bytes of `self` as stored.
    fn bytes(&self) -> (r: Vec<u8>)
        ensures
            r@ == self.spec_bytes(),
    ;
}

/// Declares that a value of `Self` is stored as some value of `T` is, so that
/// it can be read as one.
///
/// The declaration is directed: to read both ways, declare both ways. An
/// implementor proves that the two types have the same fields and that the
/// value read has the bytes of the value it was read from.
pub trait MarkForSameBits<T: Layout>: Layout {
    /// Both types have the same fields: as many, of the same kinds, in the same
    /// order.
    proof fn lemma_same_fields()
        ensures
            Self::kinds() == T::kinds(),
    ;

    /// The value of `T` that is stored as `self` is.
    spec fn spec_reinterpret(&self) -> T;

    /// The value that `self` is read as has the bytes of `self`.
    proof fn lemma_same_bits(&self)
        ensures
            self.spec_reinterpret().spec_bytes() == self.spec_bytes(),
    ;

    /// Reads `self` as a value of `T`.
    fn reinterpret(&self) -> (r: T)
        ensures
            r == self.spec_reinterpret(),
    ;
}

/// Reads `input` as a value of `U`: the result is the value of `U` that has the
/// bytes of `input`.
pub fn transmute_safe<T: MarkForSameBits<U>, U: Layout>(input: &T) -> (r: U)
    ensures
        r == input.spec_reinterpret(),
        r.spec_bytes() == input.spec_bytes(),
{
    proof {
        input.lemma_same_bits();
    }
    input.reinterpret()
}

/// Reads every item of `input` as a value of `U`: as many items in the same
/// order, each with the bytes of the item it was read from.
pub fn transmute_array<T: MarkForSameBits<U>, U: Layout>(input: &[T]) -> (r: Vec<U>)
    ensures
        r@.len() == input@.len(),
        forall|i: int| 0 <= i < input@.len() ==> #[trigger] r@[i] == input@[i].spec_reinterpret(),
        forall|i: int|
            0 <= i < input@.len() ==> (#[trigger] r@[i]).spec_bytes() == input@[i].spec_bytes(),
{
    let mut out: Vec<U> = Vec::new();
    let mut i: usize = 0;
    while i < input.len()
        invariant
            i <= input@.len(),
            out@.len() == i,
            forall|j: int| 0 <= j < i ==> #[trigger] out@[j] == input@[j].spec_reinterpret(),
        decreases input@.len() - i,
    {
        out.push(input[i].reinterpret());
        i = i + 1;
    }
    proof {
        assert forall|j: int| 0 <= j < input@.len() implies (#[trigger] out@[j]).spec_bytes()
            == input@[j].spec_bytes() by {
            input@[j].lemma_same_bits();
        }
    }
    out
}

/// Reading a value as the other type and the result as the first type again
/// gives the value back.
pub proof fn lemma_reinterpret_round_trip<A: MarkForSameBits<B>, B: MarkForSameBits<A>>(value: A)
    ensures
        value.spec_reinterpret().spec_reinterpret() == value,
{
    let there = value.spec_reinterpret();
    let back = there.spec_reinterpret();
    value.lemma_same_bits();
    there.lemma_same_bits();
    A::lemma_bytes_identify(&back, &value);
}

/// Two types declared alike take the same number of bytes for every value, so
/// a sequence of the one has the item boundaries of a sequence of the other.
pub proof fn lemma_same_stride<A: MarkForSameBits<B>, B: Layout>(a: A, b: B)
    ensures
        a.spec_bytes().len() == b.spec_bytes().len(),
{
    A::lemma_same_fields();
    a.lemma_stride();
    b.lemma_stride();
}

/// A value read as another type is the one value of that type with the bytes
/// of the value read: any value of the type with those bytes is the result.
pub proof fn lemma_reinterpret_is_determined<A: MarkForSameBits<B>, B: Layout>(value: A, other: B)
    requires
        other.spec_bytes() == value.spec_bytes(),
    ensures
        other == value.spec_reinterpret(),
{
    value.lemma_same_bits();
    B::lemma_bytes_identify(&other, &value.spec_reinterpret());
}

/// Two kinds take as many bytes as the one and the other.
proof fn lemma_stride_of_two(first: ScalarKind, second: ScalarKind)
    ensures
        stride(seq![first, second]) == kind_width(first) + kind_width(second),
{
    let both = seq![first, second];
    assert(both.drop_last() =~= seq![first]);
    assert(both.drop_last().drop_last() =~= Seq::<ScalarKind>::empty());
    reveal_with_fuel(stride, 3);
}

/// Two words stored one after the other are known by the eight bytes.
proof fn lemma_two_words_identify(a0: u32, a1: u32, b0: u32, b1: u32)
    requires
        u32_bytes(a0) + u32_bytes(a1) == u32_bytes(b0) + u32_bytes(b1),
    ensures
        a0 == b0,
        a1 == b1,
{
    lemma_auto_spec_u32_to_from_le_bytes();
    let a = u32_bytes(a0) + u32_bytes(a1);
    let b = u32_bytes(b0) + u32_bytes(b1);
    assert(a.subrange(0, 4) =~= u32_bytes(a0));
    assert(b.subrange(0, 4) =~= u32_bytes(b0));
    assert(a.subrange(4, 8) =~= u32_bytes(a1));
    assert(b.subrange(4, 8) =~= u32_bytes(b1));
    assert(spec_u32_from_le_bytes(u32_bytes(a0)) == spec_u32_from_le_bytes(u32_bytes(b0)));
    assert(spec_u32_from_le_bytes(u32_bytes(a1)) == spec_u32_from_le_bytes(u32_bytes(b1)));
}

/// A signed word is known by its two's complement form.
proof fn lemma_signed_word_identify(a: i32, b: i32)
    by (bit_vector)
    requires
        a as u32 == b as u32,
    ensures
        a == b,
{
}

impl Layout for Point2 {
    open spec fn kinds() -> Seq<ScalarKind> {
        seq![ScalarKind::I32, ScalarKind::I32]
    }

    open spec fn spec_bytes(&self) -> Seq<u8> {
        i32_bytes(self.0) + i32_bytes(self.1)
    }

    proof fn lemma_stride(&self) {
        lemma_stride_of_two(ScalarKind::I32, ScalarKind::I32);
        lemma_auto_spec_u32_to_from_le_bytes();
    }

    proof fn lemma_bytes_identify(a: &Point2, b: &Point2) {
        lemma_two_words_identify(a.0 as u32, a.1 as u32, b.0 as u32, b.1 as u32);
        lemma_signed_word_identify(a.0, b.0);
        lemma_signed_word_identify(a.1, b.1);
    }

    fn bytes(&self) -> (r: Vec<u8>) {
        let mut out = u32_to_le_bytes(self.0 as u32);
        let mut rest = u32_to_le_bytes(self.1 as u32);
        out.append(&mut rest);
        out
    }
}

impl Layout for Size2 {
    open spec fn kinds() -> Seq<ScalarKind> {
        seq![ScalarKind::I32, ScalarKind::I32]
    }

    open spec fn spec_bytes(&self) -> Seq<u8> {
        i32_bytes(self.0) + i32_bytes(self.1)
    }

    proof fn lemma_stride(&self) {
        lemma_stride_of_two(ScalarKind::I32, ScalarKind::I32);
        lemma_auto_spec_u32_to_from_le_bytes();
    }

    proof fn lemma_bytes_identify(a: &Size2, b: &Size2) {
        lemma_two_words_identify(a.0 as u32, a.1 as u32, b.0 as u32, b.1 as u32);
        lemma_signed_word_identify(a.0, b.0);
        lemma_signed_word_identify(a.1, b.1);
    }

    fn bytes(&self) -> (r: Vec<u8>) {
        let mut out = u32_to_le_bytes(self.0 as u32);
        let mut rest = u32_to_le_bytes(self.1 as u32);
        out.append(&mut rest);
        out
    }
}

impl Layout for Point2U {
    open spec fn kinds() -> Seq<ScalarKind> {
        seq![ScalarKind::U32, ScalarKind::U32]
    }

    open spec fn spec_bytes(&self) -> Seq<u8> {
        u32_bytes(self.0) + u32_bytes(self.1)
    }

    proof fn lemma_stride(&self) {
        lemma_stride_of_two(ScalarKind::U32, ScalarKind::U32);
        lemma_auto_spec_u32_to_from_le_bytes();
    }

    proof fn lemma_bytes_identify(a: &Point2U, b: &Point2U) {
        lemma_two_words_identify(a.0, a.1, b.0, b.1);
    }

    fn bytes(&self) -> (r: Vec<u8>) {
        let mut out = u32_to_le_bytes(self.0);
        let mut rest = u32_to_le_bytes(self.1);
        out.append(&mut rest);
        out
    }
}

impl Layout for Size2U {
    open spec fn kinds() -> Seq<ScalarKind> {
        seq![ScalarKind::U32, ScalarKind::U32]
    }

    open spec fn spec_bytes(&self) -> Seq<u8> {
        u32_bytes(self.0) + u32_bytes(self.1)
    }

    proof fn lemma_stride(&self) {
        lemma_stride_of_two(ScalarKind::U32, ScalarKind::U32);
        lemma_auto_spec_u32_to_from_le_bytes();
    }

    proof fn lemma_bytes_identify(a: &Size2U, b: &Size2U) {
        lemma_two_words_identify(a.0, a.1, b.0, b.1);
    }

    fn bytes(&self) -> (r: Vec<u8>) {
        let mut out = u32_to_le_bytes(self.0);
        let mut rest = u32_to_le_bytes(self.1);
        out.append(&mut rest);
        out
    }
}

// The declarations: points and sizes of one element kind are stored alike.

impl MarkForSameBits<Point2> for Size2 {
    proof fn lemma_same_fields() {
    }

    open spec fn spec_reinterpret(&self) -> Point2 {
        Point2(self.0, self.1)
    }

    proof fn lemma_same_bits(&self) {
    }

    fn reinterpret(&self) -> (r: Point2) {
        Point2(self.0, self.1)
    }
}

impl MarkForSameBits<Size2> for Point2 {
    proof fn lemma_same_fields() {
    }

    open spec fn spec_reinterpret(&self) -> Size2 {
        Size2(self.0, self.1)
    }

    proof fn lemma_same_bits(&self) {
    }

    fn reinterpret(&self) -> (r: Size2) {
        Size2(self.0, self.1)
    }
}

impl MarkForSameBits<Point2U> for Size2U {
    proof fn lemma_same_fields() {
    }

    open spec fn spec_reinterpret(&self) -> Point2U {
        Point2U(self.0, self.1)
    }

    proof fn lemma_same_bits(&self) {
    }

    fn reinterpret(&self) -> (r: Point2U) {
        Point2U(self.0, self.1)
    }
}

impl MarkForSameBits<Size2U> for Point2U {
    proof fn lemma_same_fields() {
    }

    open spec fn spec_reinterpret(&self) -> Size2U {
        Size2U(self.0, self.1)
    }

    proof fn lemma_same_bits(&self) {
    }

    fn reinterpret(&self) -> (r: Size2U) {
        Size2U(self.0, self.1)
    }
}

} // verus!
