use vstd::prelude::*;

use crate::sealed::Sealed;

verus! {

/// A signed, copyable numeric representation that a vector's components may use.
///
/// Each value stands for the integer `value()`. The arithmetic methods are exact: each one
/// asks that its result be representable and returns precisely that integer.
pub trait SignedUnified: Sized + Copy + Sealed {
    /// The integer that this value stands for.
    spec fn value(self) -> int;

    /// Whether the integer `v` has a value of this representation.
    spec fn representable(v: int) -> bool;

    /// The value that stands for `v`, where `v` is representable.
    spec fn from_value(v: int) -> Self;

    proof fn lemma_value_representable(x: Self)
        ensures
            Self::representable(x.value()),
    ;

    proof fn lemma_value_injective(x: Self, y: Self)
        ensures
            x.value() == y.value() ==> x == y,
    ;

    proof fn lemma_from_value(v: int)
        requires
            Self::representable(v),
        ensures
            Self::from_value(v).value() == v,
    ;

    /// The same integer as an `i128`, which holds every value of every representation here.
    fn to_wide(self) -> (r: i128)
        ensures
            r as int == self.value(),
    ;

    /// The value of this representation that stands for `v`, if there is one.
    fn from_wide(v: i128) -> (r: Option<Self>)
        ensures
            r is Some <==> Self::representable(v as int),
            r is Some ==> r->0.value() == v as int,
    ;

    /// The additive identity.
    fn zero() -> (r: Self)
        ensures
            r.value() == 0,
    ;

    fn plus(self, rhs: Self) -> (r: Self)
        requires
            Self::representable(self.value() + rhs.value()),
        ensures
            r.value() == self.value() + rhs.value(),
    ;

    fn minus(self, rhs: Self) -> (r: Self)
        requires
            Self::representable(self.value() - rhs.value()),
        ensures
            r.value() == self.value() - rhs.value(),
    ;

    fn times(self, rhs: Self) -> (r: Self)
        requires
            Self::representable(self.value() * rhs.value()),
        ensures
            r.value() == self.value() * rhs.value(),
    ;

    fn negated(self) -> (r: Self)
        requires
            Self::representable(-self.value()),
        ensures
            r.value() == -self.value(),
    ;
}

impl SignedUnified for i8 {
    open spec fn value(self) -> int {
        self as int
    }

    open spec fn representable(v: int) -> bool {
        i8::MIN <= v <= i8::MAX
    }

    open spec fn from_value(v: int) -> Self {
        v as i8
    }

    proof fn lemma_value_representable(x: Self) {
    }

    proof fn lemma_value_injective(x: Self, y: Self) {
    }

    proof fn lemma_from_value(v: int) {
    }

    fn to_wide(self) -> (r: i128) {
        self as i128
    }

    fn from_wide(v: i128) -> (r: Option<Self>) {
        i8_from_wide(v)
    }

    fn zero() -> (r: Self) {
        0
    }

    fn plus(self, rhs: Self) -> (r: Self) {
        self + rhs
    }

    fn minus(self, rhs: Self) -> (r: Self) {
        self - rhs
    }

    fn times(self, rhs: Self) -> (r: Self) {
        self * rhs
    }

    fn negated(self) -> (r: Self) {
        -self
    }
}

impl SignedUnified for i16 {
    open spec fn value(self) -> int {
        self as int
    }

    open spec fn representable(v: int) -> bool {
        i16::MIN <= v <= i16::MAX
    }

    open spec fn from_value(v: int) -> Self {
        v as i16
    }

    proof fn lemma_value_representable(x: Self) {
    }

    proof fn lemma_value_injective(x: Self, y: Self) {
    }

    proof fn lemma_from_value(v: int) {
    }

    fn to_wide(self) -> (r: i128) {
        self as i128
    }

    fn from_wide(v: i128) -> (r: Option<Self>) {
        i16_from_wide(v)
    }

    fn zero() -> (r: Self) {
        0
    }

    fn plus(self, rhs: Self) -> (r: Self) {
        self + rhs
    }

    fn minus(self, rhs: Self) -> (r: Self) {
        self - rhs
    }

    fn times(self, rhs: Self) -> (r: Self) {
        self * rhs
    }

    fn negated(self) -> (r: Self) {
        -self
    }
}

impl SignedUnified for i32 {
    open spec fn value(self) -> int {
        self as int
    }

    open spec fn representable(v: int) -> bool {
        i32::MIN <= v <= i32::MAX
    }

    open spec fn from_value(v: int) -> Self {
        v as i32
    }

    proof fn lemma_value_representable(x: Self) {
    }

    proof fn lemma_value_injective(x: Self, y: Self) {
    }

    proof fn lemma_from_value(v: int) {
    }

    fn to_wide(self) -> (r: i128) {
        self as i128
    }

    fn from_wide(v: i128) -> (r: Option<Self>) {
        i32_from_wide(v)
    }

    fn zero() -> (r: Self) {
        0
    }

    fn plus(self, rhs: Self) -> (r: Self) {
        self + rhs
    }

    fn minus(self, rhs: Self) -> (r: Self) {
        self - rhs
    }

    fn times(self, rhs: Self) -> (r: Self) {
        self * rhs
    }

    fn negated(self) -> (r: Self) {
        -self
    }
}

impl SignedUnified for i64 {
    open spec fn value(self) -> int {
        self as int
    }

    open spec fn representable(v: int) -> bool {
        i64::MIN <= v <= i64::MAX
    }

    open spec fn from_value(v: int) -> Self {
        v as i64
    }

    proof fn lemma_value_representable(x: Self) {
    }

    proof fn lemma_value_injective(x: Self, y: Self) {
    }

    proof fn lemma_from_value(v: int) {
    }

    fn to_wide(self) -> (r: i128) {
        self as i128
    }

    fn from_wide(v: i128) -> (r: Option<Self>) {
        i64_from_wide(v)
    }

    fn zero() -> (r: Self) {
        0
    }

    fn plus(self, rhs: Self) -> (r: Self) {
        self + rhs
    }

    fn minus(self, rhs: Self) -> (r: Self) {
        self - rhs
    }

    fn times(self, rhs: Self) -> (r: Self) {
        self * rhs
    }

    fn negated(self) -> (r: Self) {
        -self
    }
}

impl SignedUnified for i128 {
    open spec fn value(self) -> int {
        self as int
    }

    open spec fn representable(v: int) -> bool {
        i128::MIN <= v <= i128::MAX
    }

    open spec fn from_value(v: int) -> Self {
        v as i128
    }

    proof fn lemma_value_representable(x: Self) {
    }

    proof fn lemma_value_injective(x: Self, y: Self) {
    }

    proof fn lemma_from_value(v: int) {
    }

    fn to_wide(self) -> (r: i128) {
        self as i128
    }

    fn from_wide(v: i128) -> (r: Option<Self>) {
        i128_from_wide(v)
    }

    fn zero() -> (r: Self) {
        0
    }

    fn plus(self, rhs: Self) -> (r: Self) {
        self + rhs
    }

    fn minus(self, rhs: Self) -> (r: Self) {
        self - rhs
    }

    fn times(self, rhs: Self) -> (r: Self) {
        self * rhs
    }

    fn negated(self) -> (r: Self) {
        -self
    }
}

impl SignedUnified for isize {
    open spec fn value(self) -> int {
        self as int
    }

    open spec fn representable(v: int) -> bool {
        isize::MIN <= v <= isize::MAX
    }

    open spec fn from_value(v: int) -> Self {
        v as isize
    }

    proof fn lemma_value_representable(x: Self) {
    }

    proof fn lemma_value_injective(x: Self, y: Self) {
    }

    proof fn lemma_from_value(v: int) {
    }

    fn to_wide(self) -> (r: i128) {
        self as i128
    }

    fn from_wide(v: i128) -> (r: Option<Self>) {
        isize_from_wide(v)
    }

    fn zero() -> (r: Self) {
        0
    }

    fn plus(self, rhs: Self) -> (r: Self) {
        self + rhs
    }

    fn minus(self, rhs: Self) -> (r: Self) {
        self - rhs
    }

    fn times(self, rhs: Self) -> (r: Self) {
        self * rhs
    }

    fn negated(self) -> (r: Self) {
        -self
    }
}

/// Relies on `num::NumCast::from` for `i8` on an `i128`: `Some` of the same number exactly when
/// it lies between `i8::MIN` and `i8::MAX`, `None` otherwise.
#[verifier::external_body]
fn i8_from_wide(v: i128) -> (r: Option<i8>)
    ensures
        r is Some <==> i8::MIN <= v <= i8::MAX,
        r is Some ==> r->0 == v,
{
    <i8 as num::NumCast>::from(v)
}

/// Relies on `num::NumCast::from` for `i16` on an `i128`: `Some` of the same number exactly when
/// it lies between `i16::MIN` and `i16::MAX`, `None` otherwise.
#[verifier::external_body]
fn i16_from_wide(v: i128) -> (r: Option<i16>)
    ensures
        r is Some <==> i16::MIN <= v <= i16::MAX,
        r is Some ==> r->0 == v,
{
    <i16 as num::NumCast>::from(v)
}

/// Relies on `num::NumCast::from` for `i32` on an `i128`: `Some` of the same number exactly when
/// it lies between `i32::MIN` and `i32::MAX`, `None` otherwise.
#[verifier::external_body]
fn i32_from_wide(v: i128) -> (r: Option<i32>)
    ensures
        r is Some <==> i32::MIN <= v <= i32::MAX,
        r is Some ==> r->0 == v,
{
    <i32 as num::NumCast>::from(v)
}

/// Relies on `num::NumCast::from` for `i64` on an `i128`: `Some` of the same number exactly when
/// it lies between `i64::MIN` and `i64::MAX`, `None` otherwise.
#[verifier::external_body]
fn i64_from_wide(v: i128) -> (r: Option<i64>)
    ensures
        r is Some <==> i64::MIN <= v <= i64::MAX,
        r is Some ==> r->0 == v,
{
    <i64 as num::NumCast>::from(v)
}

/// Relies on `num::NumCast::from` for `i128` on an `i128`: `Some` of the same number exactly when
/// it lies between `i128::MIN` and `i128::MAX`, `None` otherwise.
#[verifier::external_body]
fn i128_from_wide(v: i128) -> (r: Option<i128>)
    ensures
        r is Some <==> i128::MIN <= v <= i128::MAX,
        r is Some ==> r->0 == v,
{
    <i128 as num::NumCast>::from(v)
}

/// Relies on `num::NumCast::from` for `isize` on an `i128`: `Some` of the same number exactly when
/// it lies between `isize::MIN` and `isize::MAX`, `None` otherwise.
#[verifier::external_body]
fn isize_from_wide(v: i128) -> (r: Option<isize>)
    ensures
        r is Some <==> isize::MIN <= v <= isize::MAX,
        r is Some ==> r->0 == v,
{
    <isize as num::NumCast>::from(v)
}

/// Casts `u` to representation `T`: `Some` of the same number when `T` can represent it.
pub fn cast<T: SignedUnified, U: SignedUnified>(u: U) -> (r: Option<T>)
    ensures
        r is Some <==> T::representable(u.value()),
        r is Some ==> r->0.value() == u.value(),
{
    T::from_wide(u.to_wide())
}

} // verus!
