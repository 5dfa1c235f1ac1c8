use vstd::array::*;
use vstd::prelude::*;
use vstd::std_specs::ops::{AddSpec, MulSpec, NegSpec, SubSpec};

use crate::scalar::{cast, SignedUnified};

verus! {

broadcast use vstd::array::group_array_axioms;

/// A vector of exactly `N` components of representation `T`.
#[derive(Debug, Clone, Copy, PartialEq, Eq)]
pub struct Vector<const N: usize, T: SignedUnified>(pub [T; N]);

impl<const N: usize, T: SignedUnified> View for Vector<N, T> {
    type V = Seq<int>;

    /// The integers that the components stand for, in order.
    open spec fn view(&self) -> Seq<int> {
        self.0@.map_values(|x: T| x.value())
    }
}

/// Componentwise sum.
pub open spec fn sum_of(a: Seq<int>, b: Seq<int>) -> Seq<int> {
    Seq::new(a.len(), |i: int| a[i] + b[i])
}

/// Componentwise difference.
pub open spec fn difference_of(a: Seq<int>, b: Seq<int>) -> Seq<int> {
    Seq::new(a.len(), |i: int| a[i] - b[i])
}

/// Every component shifted by `s`.
pub open spec fn shifted(a: Seq<int>, s: int) -> Seq<int> {
    Seq::new(a.len(), |i: int| a[i] + s)
}

/// Every component multiplied by `s`.
pub open spec fn scaled(a: Seq<int>, s: int) -> Seq<int> {
    Seq::new(a.len(), |i: int| a[i] * s)
}

/// Every component negated.
pub open spec fn negation_of(a: Seq<int>) -> Seq<int> {
    Seq::new(a.len(), |i: int| -a[i])
}

/// Every component of `s` is an integer that representation `T` holds.
pub open spec fn all_representable<T: SignedUnified>(s: Seq<int>) -> bool {
    forall|i: int| 0 <= i < s.len() ==> T::representable(#[trigger] s[i])
}

/// The first `k` components set from `s`, the others zero.
spec fn array_of<T: SignedUnified, const N: usize>(s: Seq<int>, k: nat) -> [T; N]
    decreases k,
{
    if k == 0 {
        spec_array_fill_for_copy_type::<T, N>(T::from_value(0))
    } else {
        spec_array_update(array_of::<T, N>(s, (k - 1) as nat), k - 1, T::from_value(s[k - 1]))
    }
}

proof fn lemma_array_of<T: SignedUnified, const N: usize>(s: Seq<int>, k: nat)
    requires
        k <= N,
    ensures
        array_of::<T, N>(s, k)@.len() == N,
        forall|j: int| 0 <= j < k ==> #[trigger] array_of::<T, N>(s, k)@[j] == T::from_value(s[j]),
    decreases k,
{
    if k > 0 {
        let prev = array_of::<T, N>(s, (k - 1) as nat);
        lemma_array_of::<T, N>(s, (k - 1) as nat);
        assert(array_of::<T, N>(s, k)@ == prev@.update(k - 1, T::from_value(s[k - 1])));
    }
}

impl<const N: usize, T: SignedUnified> Vector<N, T> {
    /// The vector whose view is `s`, where `s` has `N` representable components.
    pub closed spec fn from_view(s: Seq<int>) -> Self {
        Vector(array_of::<T, N>(s, N as nat))
    }

    /// A vector is determined by its view.
    pub proof fn lemma_view_injective(a: Self, b: Self)
        requires
            a@ == b@,
        ensures
            a == b,
    {
        assert(a.0@.len() == N && b.0@.len() == N);
        assert forall|i: int| 0 <= i < N implies a.0@[i] == b.0@[i] by {
            assert(a@[i] == a.0@[i].value());
            assert(b@[i] == b.0@[i].value());
            assert(a@[i] == b@[i]);
            T::lemma_value_injective(a.0@[i], b.0@[i]);
        }
        assert(a.0 =~= b.0);
    }

    /// `from_view` inverts the view.
    pub proof fn lemma_from_view(s: Seq<int>)
        requires
            s.len() == N,
            all_representable::<T>(s),
        ensures
            Self::from_view(s)@ == s,
    {
        lemma_array_of::<T, N>(s, N as nat);
        let v = Self::from_view(s);
        assert forall|i: int| 0 <= i < N implies v@[i] == s[i] by {
            T::lemma_from_value(s[i]);
        }
        assert(v@ =~= s);
    }

    /// The only vector whose view is `s`.
    pub proof fn lemma_from_view_unique(v: Self, s: Seq<int>)
        requires
            v@ == s,
        ensures
            Self::from_view(s) == v,
    {
        assert forall|i: int| 0 <= i < s.len() implies T::representable(s[i]) by {
            T::lemma_value_representable(v.0[i]);
        }
        Self::lemma_from_view(s);
        Self::lemma_view_injective(Self::from_view(s), v);
    }

    /// The zero vector: every component is zero.
    pub fn new() -> (r: Vector<N, T>)
        ensures
            r@ == Seq::new(N as nat, |i: int| 0int),
    {
        let r = Vector([T::zero(); N]);
        assert(r@ =~= Seq::new(N as nat, |i: int| 0int));
        r
    }
}

impl<const N: usize, T: SignedUnified> Default for Vector<N, T> {
    fn default() -> (r: Self)
        ensures
            r@ == Seq::new(N as nat, |i: int| 0int),
    {
        Self::new()
    }
}

impl<const N: usize, T: SignedUnified, U: SignedUnified> vstd::std_specs::ops::AddSpecImpl<Vector<N, U>> for Vector<N, T> {
    open spec fn obeys_add_spec() -> bool {
        true
    }

    /// Every component of `rhs` fits in `T`, and so does every sum.
    open spec fn add_req(self, rhs: Vector<N, U>) -> bool {
        all_representable::<T>(rhs@) && all_representable::<T>(sum_of(self@, rhs@))
    }

    open spec fn add_spec(self, rhs: Vector<N, U>) -> Self {
        Self::from_view(sum_of(self@, rhs@))
    }
}

impl<const N: usize, T: SignedUnified, U: SignedUnified> std::ops::Add<Vector<N, U>> for Vector<N, T> {
    type Output = Self;

    /// Componentwise sum, each component of `rhs` cast to `T` before it is added.
    fn add(self, rhs: Vector<N, U>) -> (r: Self)
        ensures
            r@ == sum_of(self@, rhs@),
    {
        let mut out = self.0;
        let mut i: usize = 0;
        while i < N
            invariant
                i <= N,
                all_representable::<T>(rhs@),
                all_representable::<T>(sum_of(self@, rhs@)),
                out@.len() == N,
                forall|j: int| 0 <= j < i ==> #[trigger] out@[j].value() == self@[j] + rhs@[j],
                forall|j: int| i <= j < N ==> #[trigger] out@[j] == self.0@[j],
            decreases N - i,
        {
            assert(T::representable(rhs@[i as int]));
            assert(T::representable(sum_of(self@, rhs@)[i as int]));
            let c = cast::<T, U>(rhs.0[i]).unwrap();
            let x = out[i].plus(c);
            out[i] = x;
            i += 1;
        }
        let r = Vector(out);
        proof {
            assert(r@ =~= sum_of(self@, rhs@));
            Self::lemma_from_view_unique(r, sum_of(self@, rhs@));
        }
        r
    }
}

impl<const N: usize, T: SignedUnified, U: SignedUnified> std::ops::AddAssign<Vector<N, U>> for Vector<N, T> {
    /// Adds `rhs` in place: the result is the one that `+` returns.
    fn add_assign(&mut self, rhs: Vector<N, U>)
        requires
            old(self).add_req(rhs),
        ensures
            *final(self) == old(self).add_spec(rhs),
            final(self)@ == sum_of(old(self)@, rhs@),
    {
        *self = *self + rhs;
    }
}

impl<const N: usize, T: SignedUnified, U: SignedUnified> vstd::std_specs::ops::AddSpecImpl<U> for Vector<N, T> {
    open spec fn obeys_add_spec() -> bool {
        true
    }

    /// `rhs` fits in `T`, and so does every component plus it.
    open spec fn add_req(self, rhs: U) -> bool {
        T::representable(rhs.value()) && all_representable::<T>(shifted(self@, rhs.value()))
    }

    open spec fn add_spec(self, rhs: U) -> Self {
        Self::from_view(shifted(self@, rhs.value()))
    }
}

impl<const N: usize, T: SignedUnified, U: SignedUnified> std::ops::Add<U> for Vector<N, T> {
    type Output = Self;

    /// Adds `rhs`, cast once to `T`, to every component.
    fn add(self, rhs: U) -> (r: Self)
        ensures
            r@ == shifted(self@, rhs.value()),
    {
        let c = cast::<T, U>(rhs).unwrap();
        let mut out = self.0;
        let mut i: usize = 0;
        while i < N
            invariant
                i <= N,
                T::representable(rhs.value()),
                all_representable::<T>(shifted(self@, rhs.value())),
                c.value() == rhs.value(),
                out@.len() == N,
                forall|j: int| 0 <= j < i ==> #[trigger] out@[j].value() == shifted(self@, rhs.value())[j],
                forall|j: int| i <= j < N ==> #[trigger] out@[j] == self.0@[j],
            decreases N - i,
        {
            assert(T::representable(shifted(self@, rhs.value())[i as int]));
            let x = out[i].plus(c);
            out[i] = x;
            i += 1;
        }
        let r = Vector(out);
        proof {
            assert(r@ =~= shifted(self@, rhs.value()));
            Self::lemma_from_view_unique(r, shifted(self@, rhs.value()));
        }
        r
    }
}

impl<const N: usize, T: SignedUnified, U: SignedUnified> std::ops::AddAssign<U> for Vector<N, T> {
    /// Adds `rhs` to every component in place: the result is the one that `+` returns.
    fn add_assign(&mut self, rhs: U)
        requires
            old(self).add_req(rhs),
        ensures
            *final(self) == old(self).add_spec(rhs),
            final(self)@ == shifted(old(self)@, rhs.value()),
    {
        *self = *self + rhs;
    }
}

impl<const N: usize, T: SignedUnified, U: SignedUnified> vstd::std_specs::ops::SubSpecImpl<Vector<N, U>> for Vector<N, T> {
    open spec fn obeys_sub_spec() -> bool {
        true
    }

    /// Every component of `rhs` fits in `T`, and so does every difference.
    open spec fn sub_req(self, rhs: Vector<N, U>) -> bool {
        all_representable::<T>(rhs@) && all_representable::<T>(difference_of(self@, rhs@))
    }

    open spec fn sub_spec(self, rhs: Vector<N, U>) -> Self {
        Self::from_view(difference_of(self@, rhs@))
    }
}

impl<const N: usize, T: SignedUnified, U: SignedUnified> std::ops::Sub<Vector<N, U>> for Vector<N, T> {
    type Output = Self;

    /// Componentwise difference, each component of `rhs` cast to `T` before it is subtracted.
    fn sub(self, rhs: Vector<N, U>) -> (r: Self)
        ensures
            r@ == difference_of(self@, rhs@),
    {
        let mut out = self.0;
        let mut i: usize = 0;
        while i < N
            invariant
                i <= N,
                all_representable::<T>(rhs@),
                all_representable::<T>(difference_of(self@, rhs@)),
                out@.len() == N,
                forall|j: int| 0 <= j < i ==> #[trigger] out@[j].value() == difference_of(self@, rhs@)[j],
                forall|j: int| i <= j < N ==> #[trigger] out@[j] == self.0@[j],
            decreases N - i,
        {
            assert(T::representable(rhs@[i as int]));
            let c = cast::<T, U>(rhs.0[i]).unwrap();
            assert(T::representable(difference_of(self@, rhs@)[i as int]));
            let x = out[i].minus(c);
            out[i] = x;
            i += 1;
        }
        let r = Vector(out);
        proof {
            assert(r@ =~= difference_of(self@, rhs@));
            Self::lemma_from_view_unique(r, difference_of(self@, rhs@));
        }
        r
    }
}

impl<const N: usize, T: SignedUnified, U: SignedUnified> std::ops::SubAssign<Vector<N, U>> for Vector<N, T> {
    /// Subtracts `rhs` in place: the result is the one that `-` returns.
    fn sub_assign(&mut self, rhs: Vector<N, U>)
        requires
            old(self).sub_req(rhs),
        ensures
            *final(self) == old(self).sub_spec(rhs),
            final(self)@ == difference_of(old(self)@, rhs@),
    {
        *self = *self - rhs;
    }
}

impl<const N: usize, T: SignedUnified, U: SignedUnified> vstd::std_specs::ops::SubSpecImpl<U> for Vector<N, T> {
    open spec fn obeys_sub_spec() -> bool {
        true
    }

    /// `rhs` fits in `T`, and so does every component minus it.
    open spec fn sub_req(self, rhs: U) -> bool {
        T::representable(rhs.value()) && all_representable::<T>(shifted(self@, -rhs.value()))
    }

    open spec fn sub_spec(self, rhs: U) -> Self {
        Self::from_view(shifted(self@, -rhs.value()))
    }
}

impl<const N: usize, T: SignedUnified, U: SignedUnified> std::ops::Sub<U> for Vector<N, T> {
    type Output = Self;

    /// Subtracts `rhs`, cast once to `T`, from every component.
    fn sub(self, rhs: U) -> (r: Self)
        ensures
            r@ == shifted(self@, -rhs.value()),
    {
        let c = cast::<T, U>(rhs).unwrap();
        let mut out = self.0;
        let mut i: usize = 0;
        while i < N
            invariant
                i <= N,
                T::representable(rhs.value()),
                all_representable::<T>(shifted(self@, -rhs.value())),
                c.value() == rhs.value(),
                out@.len() == N,
                forall|j: int| 0 <= j < i ==> #[trigger] out@[j].value() == shifted(self@, -rhs.value())[j],
                forall|j: int| i <= j < N ==> #[trigger] out@[j] == self.0@[j],
            decreases N - i,
        {
            assert(T::representable(shifted(self@, -rhs.value())[i as int]));
            let x = out[i].minus(c);
            out[i] = x;
            i += 1;
        }
        let r = Vector(out);
        proof {
            assert(r@ =~= shifted(self@, -rhs.value()));
            Self::lemma_from_view_unique(r, shifted(self@, -rhs.value()));
        }
        r
    }
}

impl<const N: usize, T: SignedUnified, U: SignedUnified> std::ops::SubAssign<U> for Vector<N, T> {
    /// Subtracts `rhs` from every component in place: the result is the one that `-` returns.
    fn sub_assign(&mut self, rhs: U)
        requires
            old(self).sub_req(rhs),
        ensures
            *final(self) == old(self).sub_spec(rhs),
            final(self)@ == shifted(old(self)@, -rhs.value()),
    {
        *self = *self - rhs;
    }
}

impl<const N: usize, T: SignedUnified, U: SignedUnified> vstd::std_specs::ops::MulSpecImpl<U> for Vector<N, T> {
    open spec fn obeys_mul_spec() -> bool {
        true
    }

    /// `rhs` fits in `T`, and so does every component times it.
    open spec fn mul_req(self, rhs: U) -> bool {
        T::representable(rhs.value()) && all_representable::<T>(scaled(self@, rhs.value()))
    }

    open spec fn mul_spec(self, rhs: U) -> Self {
        Self::from_view(scaled(self@, rhs.value()))
    }
}

impl<const N: usize, T: SignedUnified, U: SignedUnified> std::ops::Mul<U> for Vector<N, T> {
    type Output = Self;

    /// Multiplies every component by `rhs`, cast once to `T`.
    fn mul(self, rhs: U) -> (r: Self)
        ensures
            r@ == scaled(self@, rhs.value()),
    {
        let c = cast::<T, U>(rhs).unwrap();
        let mut out = self.0;
        let mut i: usize = 0;
        while i < N
            invariant
                i <= N,
                T::representable(rhs.value()),
                all_representable::<T>(scaled(self@, rhs.value())),
                c.value() == rhs.value(),
                out@.len() == N,
                forall|j: int| 0 <= j < i ==> #[trigger] out@[j].value() == scaled(self@, rhs.value())[j],
                forall|j: int| i <= j < N ==> #[trigger] out@[j] == self.0@[j],
            decreases N - i,
        {
            assert(T::representable(scaled(self@, rhs.value())[i as int]));
            let x = out[i].times(c);
            out[i] = x;
            i += 1;
        }
        let r = Vector(out);
        proof {
            assert(r@ =~= scaled(self@, rhs.value()));
            Self::lemma_from_view_unique(r, scaled(self@, rhs.value()));
        }
        r
    }
}

impl<const N: usize, T: SignedUnified, U: SignedUnified> std::ops::MulAssign<U> for Vector<N, T> {
    /// Multiplies every component by `rhs` in place: the result is the one that `*` returns.
    fn mul_assign(&mut self, rhs: U)
        requires
            old(self).mul_req(rhs),
        ensures
            *final(self) == old(self).mul_spec(rhs),
            final(self)@ == scaled(old(self)@, rhs.value()),
    {
        *self = *self * rhs;
    }
}

impl<const N: usize, T: SignedUnified> vstd::std_specs::ops::NegSpecImpl for Vector<N, T> {
    open spec fn obeys_neg_spec() -> bool {
        true
    }

    /// Every negated component fits in `T`.
    open spec fn neg_req(self) -> bool {
        all_representable::<T>(negation_of(self@))
    }

    open spec fn neg_spec(self) -> Self {
        Self::from_view(negation_of(self@))
    }
}

impl<const N: usize, T: SignedUnified> std::ops::Neg for Vector<N, T> {
    type Output = Self;

    /// Negates every component.
    fn neg(self) -> (r: Self)
        ensures
            r@ == negation_of(self@),
    {
        let mut out = self.0;
        let mut i: usize = 0;
        while i < N
            invariant
                i <= N,
                all_representable::<T>(negation_of(self@)),
                out@.len() == N,
                forall|j: int| 0 <= j < i ==> #[trigger] out@[j].value() == negation_of(self@)[j],
                forall|j: int| i <= j < N ==> #[trigger] out@[j] == self.0@[j],
            decreases N - i,
        {
            assert(T::representable(negation_of(self@)[i as int]));
            let x = out[i].negated();
            out[i] = x;
            i += 1;
        }
        let r = Vector(out);
        proof {
            assert(r@ =~= negation_of(self@));
            Self::lemma_from_view_unique(r, negation_of(self@));
        }
        r
    }
}

impl<const N: usize> vstd::std_specs::ops::AddSpecImpl<Vector<N, i8>> for i8 {
    open spec fn obeys_add_spec() -> bool {
        true
    }

    /// Every component of `rhs` plus the scalar fits in `i8`.
    open spec fn add_req(self, rhs: Vector<N, i8>) -> bool {
        all_representable::<i8>(shifted(rhs@, self as int))
    }

    open spec fn add_spec(self, rhs: Vector<N, i8>) -> Vector<N, i8> {
        Vector::<N, i8>::from_view(shifted(rhs@, self as int))
    }
}

impl<const N: usize> std::ops::Add<Vector<N, i8>> for i8 {
    type Output = Vector<N, i8>;

    /// Adds the scalar to every component of `rhs`: the same vector as `rhs + self`.
    fn add(self, rhs: Vector<N, i8>) -> (r: Vector<N, i8>)
        ensures
            r@ == shifted(rhs@, self as int),
            r == rhs.add_spec(self),
    {
        rhs + self
    }
}

impl<const N: usize> vstd::std_specs::ops::AddSpecImpl<Vector<N, i16>> for i16 {
    open spec fn obeys_add_spec() -> bool {
        true
    }

    /// Every component of `rhs` plus the scalar fits in `i16`.
    open spec fn add_req(self, rhs: Vector<N, i16>) -> bool {
        all_representable::<i16>(shifted(rhs@, self as int))
    }

    open spec fn add_spec(self, rhs: Vector<N, i16>) -> Vector<N, i16> {
        Vector::<N, i16>::from_view(shifted(rhs@, self as int))
    }
}

impl<const N: usize> std::ops::Add<Vector<N, i16>> for i16 {
    type Output = Vector<N, i16>;

    /// Adds the scalar to every component of `rhs`: the same vector as `rhs + self`.
    fn add(self, rhs: Vector<N, i16>) -> (r: Vector<N, i16>)
        ensures
            r@ == shifted(rhs@, self as int),
            r == rhs.add_spec(self),
    {
        rhs + self
    }
}

impl<const N: usize> vstd::std_specs::ops::AddSpecImpl<Vector<N, i32>> for i32 {
    open spec fn obeys_add_spec() -> bool {
        true
    }

    /// Every component of `rhs` plus the scalar fits in `i32`.
    open spec fn add_req(self, rhs: Vector<N, i32>) -> bool {
        all_representable::<i32>(shifted(rhs@, self as int))
    }

    open spec fn add_spec(self, rhs: Vector<N, i32>) -> Vector<N, i32> {
        Vector::<N, i32>::from_view(shifted(rhs@, self as int))
    }
}

impl<const N: usize> std::ops::Add<Vector<N, i32>> for i32 {
    type Output = Vector<N, i32>;

    /// Adds the scalar to every component of `rhs`: the same vector as `rhs + self`.
    fn add(self, rhs: Vector<N, i32>) -> (r: Vector<N, i32>)
        ensures
            r@ == shifted(rhs@, self as int),
            r == rhs.add_spec(self),
    {
        rhs + self
    }
}

impl<const N: usize> vstd::std_specs::ops::AddSpecImpl<Vector<N, i64>> for i64 {
    open spec fn obeys_add_spec() -> bool {
        true
    }

    /// Every component of `rhs` plus the scalar fits in `i64`.
    open spec fn add_req(self, rhs: Vector<N, i64>) -> bool {
        all_representable::<i64>(shifted(rhs@, self as int))
    }

    open spec fn add_spec(self, rhs: Vector<N, i64>) -> Vector<N, i64> {
        Vector::<N, i64>::from_view(shifted(rhs@, self as int))
    }
}

impl<const N: usize> std::ops::Add<Vector<N, i64>> for i64 {
    type Output = Vector<N, i64>;

    /// Adds the scalar to every component of `rhs`: the same vector as `rhs + self`.
    fn add(self, rhs: Vector<N, i64>) -> (r: Vector<N, i64>)
        ensures
            r@ == shifted(rhs@, self as int),
            r == rhs.add_spec(self),
    {
        rhs + self
    }
}

impl<const N: usize> vstd::std_specs::ops::AddSpecImpl<Vector<N, i128>> for i128 {
    open spec fn obeys_add_spec() -> bool {
        true
    }

    /// Every component of `rhs` plus the scalar fits in `i128`.
    open spec fn add_req(self, rhs: Vector<N, i128>) -> bool {
        all_representable::<i128>(shifted(rhs@, self as int))
    }

    open spec fn add_spec(self, rhs: Vector<N, i128>) -> Vector<N, i128> {
        Vector::<N, i128>::from_view(shifted(rhs@, self as int))
    }
}

impl<const N: usize> std::ops::Add<Vector<N, i128>> for i128 {
    type Output = Vector<N, i128>;

    /// Adds the scalar to every component of `rhs`: the same vector as `rhs + self`.
    fn add(self, rhs: Vector<N, i128>) -> (r: Vector<N, i128>)
        ensures
            r@ == shifted(rhs@, self as int),
            r == rhs.add_spec(self),
    {
        rhs + self
    }
}

impl<const N: usize> vstd::std_specs::ops::AddSpecImpl<Vector<N, isize>> for isize {
    open spec fn obeys_add_spec() -> bool {
        true
    }

    /// Every component of `rhs` plus the scalar fits in `isize`.
    open spec fn add_req(self, rhs: Vector<N, isize>) -> bool {
        all_representable::<isize>(shifted(rhs@, self as int))
    }

    open spec fn add_spec(self, rhs: Vector<N, isize>) -> Vector<N, isize> {
        Vector::<N, isize>::from_view(shifted(rhs@, self as int))
    }
}

impl<const N: usize> std::ops::Add<Vector<N, isize>> for isize {
    type Output = Vector<N, isize>;

    /// Adds the scalar to every component of `rhs`: the same vector as `rhs + self`.
    fn add(self, rhs: Vector<N, isize>) -> (r: Vector<N, isize>)
        ensures
            r@ == shifted(rhs@, self as int),
            r == rhs.add_spec(self),
    {
        rhs + self
    }
}

/// Negating twice gives back the vector: `-(-a) == a`, wherever `-a` is defined.
pub proof fn lemma_double_negation<const N: usize, T: SignedUnified>(a: Vector<N, T>)
    requires
        a.neg_req(),
    ensures
        a.neg_spec().neg_req(),
        a.neg_spec().neg_spec() == a,
        a.neg_spec()@ == negation_of(a@),
{
    Vector::<N, T>::lemma_from_view(negation_of(a@));
    let n = a.neg_spec();
    assert forall|i: int| 0 <= i < N implies T::representable(#[trigger] negation_of(n@)[i]) by {
        assert(a.0@.len() == N);
        T::lemma_value_representable(a.0@[i]);
    }
    assert(negation_of(n@) =~= a@);
    Vector::<N, T>::lemma_from_view_unique(a, a@);
}

} // verus!
