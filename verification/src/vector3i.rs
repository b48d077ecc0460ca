//! Three `i32` components stored in a register of four lanes.
//!
//! The fourth lane is padding. Every constructor and every operation of this
//! module leaves it zero: operations that could put another value there clear
//! it before they return, and the others are proved to keep a zero lane zero.

use crate::lanes;
use crate::lanes::{
    all_nonzero, differences, gathered, indices_within, magnitudes, maxima, minima, negations,
    products, quotients, remainders, splat_lanes, sums,
};
use crate::vector2i::Vector2i;
use crate::vector4i::Vector4i;
use vstd::prelude::*;
use vstd::std_specs::cmp::PartialEqSpecImpl;
use vstd::std_specs::convert::FromSpecImpl;
use vstd::std_specs::ops::{
    AddSpecImpl, DivSpecImpl, MulSpecImpl, NegSpecImpl, RemSpecImpl, SubSpecImpl,
};

verus! {

/// `<i32 as Hash>::hash` of std, which feeds a value to a hasher. Nothing is claimed of
/// what the hasher holds afterwards.
pub assume_specification<H: core::hash::Hasher>[ <i32 as core::hash::Hash>::hash ](
    value: &i32,
    state: &mut H,
);

/// `<[E]>::first_chunk` of std: the first `N` items of a slice as an array, or `None` where
/// the slice holds fewer than `N` items.
pub assume_specification<E, const N: usize>[ <[E]>::first_chunk::<N> ](s: &[E]) -> (r: Option<
    &[E; N],
>)
    ensures
        s@.len() < N ==> r.is_none(),
        s@.len() >= N ==> r.is_some() && r.unwrap()@ == s@.take(N as int),
;

/// `<[E]>::first_chunk_mut` of std: the first `N` items of a slice as a mutable array, or
/// `None` where the slice holds fewer than `N` items. What is written through the array
/// replaces those items; the items behind them stay.
pub assume_specification<E, const N: usize>[ <[E]>::first_chunk_mut::<N> ](s: &mut [E]) -> (r:
    Option<&mut [E; N]>)
    ensures
        old(s)@.len() < N ==> r.is_none() && final(s)@ == old(s)@,
        old(s)@.len() >= N ==> r.is_some() && r.unwrap()@ == old(s)@.take(N as int),
        old(s)@.len() >= N ==> final(s)@ == final(r.unwrap())@ + old(s)@.skip(N as int),
;

/// A vector with 3 `i32` components.
#[derive(Clone, Copy)]
pub struct Vector3i([i32; 4]);

impl View for Vector3i {
    type V = Seq<i32>;

    /// The 3 components, in order.
    closed spec fn view(&self) -> Seq<i32> {
        self.0@.take(3)
    }
}

impl Vector3i {
    /// What the fourth lane of the register holds.
    pub closed spec fn padding(&self) -> i32 {
        self.0[3]
    }

    /// The padding lane is zero.
    pub open spec fn wf(&self) -> bool {
        self.padding() == 0
    }

    /// The vector whose register holds the given lanes.
    closed spec fn of_lanes(lanes: Seq<i32>) -> Self {
        Vector3i([lanes[0], lanes[1], lanes[2], lanes[3]])
    }

    /// A vector has exactly 3 components.
    pub broadcast proof fn lemma_len(self)
        ensures
            #[trigger] self@.len() == 3,
    {
    }

    proof fn lemma_of_lanes(self)
        ensures
            self == Self::of_lanes(self.0@),
    {
        assert(self.0 =~= Self::of_lanes(self.0@).0);
    }

    /// The vector (0, 0, 0).
    pub fn zero() -> (r: Self)
        ensures
            r@ == splat_lanes(0i32, 3),
            r.wf(),
    {
        let r = Vector3i([0, 0, 0, 0]);
        assert(r@ =~= splat_lanes(0i32, 3));
        r
    }

    /// The x component of the vector.
    pub fn x(&self) -> (r: i32)
        ensures
            r == self@[0],
    {
        self.0[0]
    }

    /// The x component of the vector, to write through.
    pub fn x_mut(&mut self) -> (r: &mut i32)
        ensures
            *r == old(self)@[0],
            final(self)@ == old(self)@.update(0, *final(r)),
            final(self).padding() == old(self).padding(),
    {
        &mut self.0[0]
    }

    /// The y component of the vector.
    pub fn y(&self) -> (r: i32)
        ensures
            r == self@[1],
    {
        self.0[1]
    }

    /// The y component of the vector, to write through.
    pub fn y_mut(&mut self) -> (r: &mut i32)
        ensures
            *r == old(self)@[1],
            final(self)@ == old(self)@.update(1, *final(r)),
            final(self).padding() == old(self).padding(),
    {
        &mut self.0[1]
    }

    /// The z component of the vector.
    pub fn z(&self) -> (r: i32)
        ensures
            r == self@[2],
    {
        self.0[2]
    }

    /// The z component of the vector, to write through.
    pub fn z_mut(&mut self) -> (r: &mut i32)
        ensures
            *r == old(self)@[2],
            final(self)@ == old(self)@.update(2, *final(r)),
            final(self).padding() == old(self).padding(),
    {
        &mut self.0[2]
    }

    /// Creates a new vector from the given components.
    pub fn new(x: i32, y: i32, z: i32) -> (r: Self)
        ensures
            r@ == seq![x, y, z],
            r.wf(),
    {
        let r = Vector3i([x, y, z, 0]);
        assert(r@ =~= seq![x, y, z]);
        r
    }

    /// Creates a new vector by setting all components to the given scalar.
    pub fn from_scalar(scalar: i32) -> (r: Self)
        ensures
            r@ == splat_lanes(scalar, 3),
            r.wf(),
    {
        let r = Vector3i([scalar, scalar, scalar, 0]);
        assert(r@ =~= splat_lanes(scalar, 3));
        r
    }

    /// Creates a new vector from the given array.
    pub fn from_array(array: [i32; 3]) -> (r: Self)
        ensures
            r@ == array@,
            r.wf(),
    {
        let r = Vector3i([array[0], array[1], array[2], 0]);
        assert(r@ =~= array@);
        r
    }

    /// Creates a new vector from the given 2-component vector.
    pub fn from_v2i(v: Vector2i, z: i32) -> (r: Self)
        ensures
            r@ == v@ + seq![z],
            r.wf(),
    {
        proof {
            v.lemma_len();
        }
        let r = Vector3i([v.x(), v.y(), z, 0]);
        assert(r@ =~= v@ + seq![z]);
        r
    }

    /// Converts the vector into an array.
    pub fn to_array(&self) -> (r: [i32; 3])
        ensures
            r@ == self@,
    {
        let r = [self.0[0], self.0[1], self.0[2]];
        assert(r@ =~= self@);
        r
    }

    /// Returns an array reference to the vector.
    pub fn as_array(&self) -> (r: &[i32; 3])
        ensures
            r@ == self@,
    {
        let lanes: &[i32] = &self.0;
        lanes.first_chunk::<3>().unwrap()
    }

    /// Returns a mutable array reference to the vector.
    pub fn as_mut_array(&mut self) -> (r: &mut [i32; 3])
        ensures
            r@ == old(self)@,
            final(self)@ == final(r)@,
            final(self).padding() == old(self).padding(),
    {
        let lanes: &mut [i32] = &mut self.0;
        lanes.first_chunk_mut::<3>().unwrap()
    }

    /// Takes a register as it comes out of a lane operation and clears the padding lane.
    pub(crate) fn from_simd_truncate(simd_vec: [i32; 4]) -> (r: Self)
        ensures
            r@ == simd_vec@.take(3),
            r.wf(),
    {
        let zero = lanes::splat(0i32);
        let mask = [true, true, true, false];
        let r = Vector3i(lanes::select(mask, simd_vec, zero));
        assert(r@ =~= simd_vec@.take(3));
        r
    }

    /// The padding lane, as stored.
    pub fn padding_lane(&self) -> (r: i32)
        ensures
            r == self.padding(),
    {
        self.0[3]
    }

    /// The divisor register for a lane by lane division: the three components, and one
    /// in the padding lane, which no division reads afterwards.
    fn divisor_lanes(&self) -> (r: [i32; 4])
        ensures
            r@ == self@.push(1),
    {
        let mask = [true, true, true, false];
        let r = lanes::select(mask, self.0, lanes::splat(1i32));
        assert(r@ =~= self@.push(1));
        r
    }

    /// Returns a vector with each component set to the absolute value of the corresponding
    /// component in this vector.
    pub fn abs(self) -> (r: Self)
        ensures
            r@ == magnitudes(self@),
            self.wf() ==> r.wf(),
    {
        // A zero padding lane stays zero: nothing is to clear.
        let r = Vector3i(lanes::wrapping_abs(self.0));
        assert(r@ =~= magnitudes(self@));
        r
    }

    /// Returns a vector with each component set to the minimum of the corresponding components
    /// between this vector and rhs.
    pub fn min(self, rhs: Self) -> (r: Self)
        ensures
            r@ == minima(self@, rhs@),
            self.wf() && rhs.wf() ==> r.wf(),
    {
        // Zero padding lanes give a zero padding lane: nothing is to clear.
        let r = Vector3i(lanes::simd_min(self.0, rhs.0));
        assert(r@ =~= minima(self@, rhs@));
        r
    }

    /// Returns a vector with each component set to the maximum of the corresponding components
    /// between this vector and rhs.
    pub fn max(self, rhs: Self) -> (r: Self)
        ensures
            r@ == maxima(self@, rhs@),
            self.wf() && rhs.wf() ==> r.wf(),
    {
        // Zero padding lanes give a zero padding lane: nothing is to clear.
        let r = Vector3i(lanes::simd_max(self.0, rhs.0));
        assert(r@ =~= maxima(self@, rhs@));
        r
    }

    /// The vector whose components are the components of this one that `indices` names,
    /// in that order. A component may be named more than once.
    pub fn swizzle2(&self, indices: [usize; 2]) -> (r: Vector2i)
        requires
            indices_within(indices@, 3),
        ensures
            r@ == gathered(self@, indices@),
    {
        let picks = [indices[0], indices[1]];
        let picked: [i32; 2] = lanes::swizzle(self.0, picks);
        let r = Vector2i::from_simd_truncate(picked);
        proof {
            r.lemma_len();
            assert(r@ =~= gathered(self@, indices@));
        }
        r
    }

    /// The vector whose components are the components of this one that `indices` names,
    /// in that order. A component may be named more than once.
    pub fn swizzle3(&self, indices: [usize; 3]) -> (r: Vector3i)
        requires
            indices_within(indices@, 3),
        ensures
            r@ == gathered(self@, indices@),
            r.wf(),
    {
        // The register of the result has one more lane than the selection: it gathers
        // lane 0, and the truncation clears it.
        let picks = [indices[0], indices[1], indices[2], 0];
        let picked: [i32; 4] = lanes::swizzle(self.0, picks);
        let r = Vector3i::from_simd_truncate(picked);
        proof {
            r.lemma_len();
            assert(r@ =~= gathered(self@, indices@));
        }
        r
    }

    /// The vector whose components are the components of this one that `indices` names,
    /// in that order. A component may be named more than once.
    pub fn swizzle4(&self, indices: [usize; 4]) -> (r: Vector4i)
        requires
            indices_within(indices@, 3),
        ensures
            r@ == gathered(self@, indices@),
    {
        let picks = [indices[0], indices[1], indices[2], indices[3]];
        let picked: [i32; 4] = lanes::swizzle(self.0, picks);
        let r = Vector4i::from_simd_truncate(picked);
        proof {
            r.lemma_len();
            assert(r@ =~= gathered(self@, indices@));
        }
        r
    }

    /// The components x, y, in that order.
    pub fn xy(&self) -> (r: Vector2i)
        ensures
            r@ == seq![self@[0], self@[1]],
    {
        let r = self.swizzle2([0, 1]);
        proof {
            self.lemma_len();
            assert(r@ =~= seq![self@[0], self@[1]]);
        }
        r
    }

    /// The components x, y, z, in that order.
    pub fn xyz(&self) -> (r: Vector3i)
        ensures
            r@ == seq![self@[0], self@[1], self@[2]],
            r.wf(),
    {
        let r = self.swizzle3([0, 1, 2]);
        proof {
            self.lemma_len();
            assert(r@ =~= seq![self@[0], self@[1], self@[2]]);
        }
        r
    }

    /// The components z, y, x, in that order.
    pub fn zyx(&self) -> (r: Vector3i)
        ensures
            r@ == seq![self@[2], self@[1], self@[0]],
            r.wf(),
    {
        let r = self.swizzle3([2, 1, 0]);
        proof {
            self.lemma_len();
            assert(r@ =~= seq![self@[2], self@[1], self@[0]]);
        }
        r
    }

    /// The component at the given position, to write through.
    pub fn index_mut(&mut self, index: usize) -> (r: &mut i32)
        requires
            index < 3,
        ensures
            *r == old(self)@[index as int],
            final(self)@ == old(self)@.update(index as int, *final(r)),
            final(self).padding() == old(self).padding(),
    {
        &mut self.0[index]
    }

    /// Divides this vector by rhs, component by component, in place.
    pub fn div_assign(&mut self, rhs: Self)
        requires
            all_nonzero(rhs@),
        ensures
            final(self)@ == quotients(old(self)@, rhs@),
            final(self).wf(),
    {
        *self = *self / rhs;
    }

    /// Divides every component of this vector by the scalar rhs, in place.
    pub fn div_assign_scalar(&mut self, rhs: i32)
        requires
            rhs != 0,
        ensures
            final(self)@ == quotients(old(self)@, splat_lanes(rhs, 3)),
            final(self).wf(),
    {
        *self = *self / rhs;
    }

    /// Reduces this vector by rhs, component by component, in place.
    pub fn rem_assign(&mut self, rhs: Self)
        requires
            all_nonzero(rhs@),
        ensures
            final(self)@ == remainders(old(self)@, rhs@),
            final(self).wf(),
    {
        *self = *self % rhs;
    }

    /// Reduces every component of this vector by the scalar rhs, in place.
    pub fn rem_assign_scalar(&mut self, rhs: i32)
        requires
            rhs != 0,
        ensures
            final(self)@ == remainders(old(self)@, splat_lanes(rhs, 3)),
            final(self).wf(),
    {
        *self = *self % rhs;
    }

}

impl core::fmt::Debug for Vector3i {
    /// The name of the type and the components, in parentheses, through `write!` of std.
    /// Nothing is claimed of what the formatter holds afterwards.
    /// The padding lane is not read.
    #[verifier::external_body]
    fn fmt(&self, f: &mut core::fmt::Formatter<'_>) -> (r: Result<(), core::fmt::Error>) {
        write!(f, "Vector3i({}, {}, {})", self.0[0], self.0[1], self.0[2])
    }
}

impl core::fmt::Display for Vector3i {
    /// The components, in parentheses, through `write!` of std.
    /// Nothing is claimed of what the formatter holds afterwards.
    /// The padding lane is not read.
    #[verifier::external_body]
    fn fmt(&self, f: &mut core::fmt::Formatter<'_>) -> (r: Result<(), core::fmt::Error>) {
        write!(f, "({}, {}, {})", self.0[0], self.0[1], self.0[2])
    }
}

impl PartialEq for Vector3i {
    /// Whether the two vectors have the same components.
    fn eq(&self, other: &Self) -> (r: bool) {
        proof {
            if self@ == other@ {
                assert(self@[0] == other@[0]);
                assert(self@[1] == other@[1]);
                assert(self@[2] == other@[2]);
            } else {
                assert(!(self@ =~= other@));
            }
        }
        self.0[0] == other.0[0]
            && self.0[1] == other.0[1]
            && self.0[2] == other.0[2]
    }
}

impl Eq for Vector3i {

}

impl PartialEqSpecImpl for Vector3i {
    open spec fn obeys_eq_spec() -> bool {
        true
    }

    /// Two vectors are equal where their components are; the padding lane is not read.
    open spec fn eq_spec(&self, other: &Self) -> bool {
        self@ == other@
    }
}

impl core::hash::Hash for Vector3i {
    /// Feeds the three components to the hasher; the padding lane is not read.
    fn hash<H: core::hash::Hasher>(&self, state: &mut H) {
        self.0[0].hash(state);
        self.0[1].hash(state);
        self.0[2].hash(state);
    }
}

impl core::ops::Add for Vector3i {
    type Output = Self;

    /// The sum of this vector and rhs, component by component, wrapping on overflow.
    fn add(self, rhs: Self) -> (r: Self)
        ensures
            r@ == sums(self@, rhs@),
            self.wf() && rhs.wf() ==> r.wf(),
    {
        // Zero padding lanes give a zero padding lane: nothing is to clear.
        let r = Vector3i(lanes::wrapping_add(self.0, rhs.0));
        proof {
            assert(r@ =~= sums(self@, rhs@));
            r.lemma_of_lanes();
            assert(r.0@ =~= sums(self.0@, rhs.0@));
        }
        r
    }
}

impl AddSpecImpl for Vector3i {
    open spec fn obeys_add_spec() -> bool {
        true
    }

    open spec fn add_req(self, rhs: Self) -> bool {
        true
    }

    closed spec fn add_spec(self, rhs: Self) -> Self {
        Self::of_lanes(sums(self.0@, rhs.0@))
    }
}

impl core::ops::Add<i32> for Vector3i {
    type Output = Self;

    /// This vector with the scalar rhs added to every component, wrapping on overflow.
    fn add(self, rhs: i32) -> (r: Self)
        ensures
            r@ == sums(self@, splat_lanes(rhs, 3)),
            r.wf(),
    {
        // The scalar reaches the padding lane too: the truncation clears it.
        let r = Self::from_simd_truncate(lanes::wrapping_add(self.0, lanes::splat(rhs)));
        proof {
            assert(r@ =~= sums(self@, splat_lanes(rhs, 3)));
            r.lemma_of_lanes();
            assert(r.0@ =~= sums(self@, splat_lanes(rhs, 3)).push(0));
        }
        r
    }
}

impl AddSpecImpl<i32> for Vector3i {
    open spec fn obeys_add_spec() -> bool {
        true
    }

    open spec fn add_req(self, rhs: i32) -> bool {
        true
    }

    closed spec fn add_spec(self, rhs: i32) -> Self {
        Self::of_lanes(sums(self@, splat_lanes(rhs, 3)).push(0))
    }
}

impl core::ops::AddAssign for Vector3i {
    /// Replaces this vector by what `+` gives for it and rhs.
    fn add_assign(&mut self, rhs: Self)
        ensures
            final(self)@ == sums(old(self)@, rhs@),
            old(self).wf() && rhs.wf() ==> final(self).wf(),
    {
        *self = *self + rhs;
    }
}

impl core::ops::AddAssign<i32> for Vector3i {
    /// Replaces this vector by what `+` gives for it and the scalar rhs.
    fn add_assign(&mut self, rhs: i32)
        ensures
            final(self)@ == sums(old(self)@, splat_lanes(rhs, 3)),
            final(self).wf(),
    {
        *self = *self + rhs;
    }
}

impl core::ops::Sub for Vector3i {
    type Output = Self;

    /// The difference of this vector and rhs, component by component, wrapping on overflow.
    fn sub(self, rhs: Self) -> (r: Self)
        ensures
            r@ == differences(self@, rhs@),
            self.wf() && rhs.wf() ==> r.wf(),
    {
        // Zero padding lanes give a zero padding lane: nothing is to clear.
        let r = Vector3i(lanes::wrapping_sub(self.0, rhs.0));
        proof {
            assert(r@ =~= differences(self@, rhs@));
            r.lemma_of_lanes();
            assert(r.0@ =~= differences(self.0@, rhs.0@));
        }
        r
    }
}

impl SubSpecImpl for Vector3i {
    open spec fn obeys_sub_spec() -> bool {
        true
    }

    open spec fn sub_req(self, rhs: Self) -> bool {
        true
    }

    closed spec fn sub_spec(self, rhs: Self) -> Self {
        Self::of_lanes(differences(self.0@, rhs.0@))
    }
}

impl core::ops::Sub<i32> for Vector3i {
    type Output = Self;

    /// This vector with the scalar rhs subtracted from every component, wrapping on overflow.
    fn sub(self, rhs: i32) -> (r: Self)
        ensures
            r@ == differences(self@, splat_lanes(rhs, 3)),
            r.wf(),
    {
        // The scalar reaches the padding lane too: the truncation clears it.
        let r = Self::from_simd_truncate(lanes::wrapping_sub(self.0, lanes::splat(rhs)));
        proof {
            assert(r@ =~= differences(self@, splat_lanes(rhs, 3)));
            r.lemma_of_lanes();
            assert(r.0@ =~= differences(self@, splat_lanes(rhs, 3)).push(0));
        }
        r
    }
}

impl SubSpecImpl<i32> for Vector3i {
    open spec fn obeys_sub_spec() -> bool {
        true
    }

    open spec fn sub_req(self, rhs: i32) -> bool {
        true
    }

    closed spec fn sub_spec(self, rhs: i32) -> Self {
        Self::of_lanes(differences(self@, splat_lanes(rhs, 3)).push(0))
    }
}

impl core::ops::SubAssign for Vector3i {
    /// Replaces this vector by what `-` gives for it and rhs.
    fn sub_assign(&mut self, rhs: Self)
        ensures
            final(self)@ == differences(old(self)@, rhs@),
            old(self).wf() && rhs.wf() ==> final(self).wf(),
    {
        *self = *self - rhs;
    }
}

impl core::ops::SubAssign<i32> for Vector3i {
    /// Replaces this vector by what `-` gives for it and the scalar rhs.
    fn sub_assign(&mut self, rhs: i32)
        ensures
            final(self)@ == differences(old(self)@, splat_lanes(rhs, 3)),
            final(self).wf(),
    {
        *self = *self - rhs;
    }
}

impl core::ops::Mul for Vector3i {
    type Output = Self;

    /// The product of this vector and rhs, component by component, wrapping on overflow.
    fn mul(self, rhs: Self) -> (r: Self)
        ensures
            r@ == products(self@, rhs@),
            self.wf() && rhs.wf() ==> r.wf(),
    {
        // Zero padding lanes give a zero padding lane: nothing is to clear.
        let r = Vector3i(lanes::wrapping_mul(self.0, rhs.0));
        proof {
            assert(r@ =~= products(self@, rhs@));
            r.lemma_of_lanes();
            assert(r.0@ =~= products(self.0@, rhs.0@));
        }
        r
    }
}

impl MulSpecImpl for Vector3i {
    open spec fn obeys_mul_spec() -> bool {
        true
    }

    open spec fn mul_req(self, rhs: Self) -> bool {
        true
    }

    closed spec fn mul_spec(self, rhs: Self) -> Self {
        Self::of_lanes(products(self.0@, rhs.0@))
    }
}

impl core::ops::Mul<i32> for Vector3i {
    type Output = Self;

    /// This vector with every component multiplied by the scalar rhs, wrapping on overflow.
    fn mul(self, rhs: i32) -> (r: Self)
        ensures
            r@ == products(self@, splat_lanes(rhs, 3)),
            r.wf(),
    {
        // The scalar reaches the padding lane too: the truncation clears it.
        let r = Self::from_simd_truncate(lanes::wrapping_mul(self.0, lanes::splat(rhs)));
        proof {
            assert(r@ =~= products(self@, splat_lanes(rhs, 3)));
            r.lemma_of_lanes();
            assert(r.0@ =~= products(self@, splat_lanes(rhs, 3)).push(0));
        }
        r
    }
}

impl MulSpecImpl<i32> for Vector3i {
    open spec fn obeys_mul_spec() -> bool {
        true
    }

    open spec fn mul_req(self, rhs: i32) -> bool {
        true
    }

    closed spec fn mul_spec(self, rhs: i32) -> Self {
        Self::of_lanes(products(self@, splat_lanes(rhs, 3)).push(0))
    }
}

impl core::ops::MulAssign for Vector3i {
    /// Replaces this vector by what `*` gives for it and rhs.
    fn mul_assign(&mut self, rhs: Self)
        ensures
            final(self)@ == products(old(self)@, rhs@),
            old(self).wf() && rhs.wf() ==> final(self).wf(),
    {
        *self = *self * rhs;
    }
}

impl core::ops::MulAssign<i32> for Vector3i {
    /// Replaces this vector by what `*` gives for it and the scalar rhs.
    fn mul_assign(&mut self, rhs: i32)
        ensures
            final(self)@ == products(old(self)@, splat_lanes(rhs, 3)),
            final(self).wf(),
    {
        *self = *self * rhs;
    }
}

impl core::ops::Div for Vector3i {
    type Output = Self;

    /// The quotient of this vector by rhs, component by component, rounded toward zero.
    /// No component of rhs may be zero.
    fn div(self, rhs: Self) -> (r: Self)
        ensures
            r@ == quotients(self@, rhs@),
            r.wf(),
    {
        let register = lanes::wrapping_div(self.0, rhs.divisor_lanes());
        let r = Self::from_simd_truncate(register);
        proof {
            assert(r@ =~= quotients(self@, rhs@));
            r.lemma_of_lanes();
            assert(r.0@ =~= quotients(self@, rhs@).push(0));
        }
        r
    }
}

impl DivSpecImpl for Vector3i {
    open spec fn obeys_div_spec() -> bool {
        true
    }

    open spec fn div_req(self, rhs: Self) -> bool {
        all_nonzero(rhs@)
    }

    closed spec fn div_spec(self, rhs: Self) -> Self {
        Self::of_lanes(quotients(self@, rhs@).push(0))
    }
}

impl core::ops::Div<i32> for Vector3i {
    type Output = Self;

    /// This vector with every component divided by the scalar rhs, rounded toward zero.
    /// The scalar may not be zero.
    fn div(self, rhs: i32) -> (r: Self)
        ensures
            r@ == quotients(self@, splat_lanes(rhs, 3)),
            r.wf(),
    {
        let divisor: [i32; 4] = lanes::splat(rhs);
        proof {
            assert(all_nonzero(divisor@));
        }
        let r = Self::from_simd_truncate(lanes::wrapping_div(self.0, divisor));
        proof {
            assert(r@ =~= quotients(self@, splat_lanes(rhs, 3)));
            r.lemma_of_lanes();
            assert(r.0@ =~= quotients(self@, splat_lanes(rhs, 3)).push(0));
        }
        r
    }
}

impl DivSpecImpl<i32> for Vector3i {
    open spec fn obeys_div_spec() -> bool {
        true
    }

    open spec fn div_req(self, rhs: i32) -> bool {
        rhs != 0
    }

    closed spec fn div_spec(self, rhs: i32) -> Self {
        Self::of_lanes(quotients(self@, splat_lanes(rhs, 3)).push(0))
    }
}

impl core::ops::Rem for Vector3i {
    type Output = Self;

    /// The remainder of this vector by rhs, component by component, with the sign of the
    /// dividend. No component of rhs may be zero.
    fn rem(self, rhs: Self) -> (r: Self)
        ensures
            r@ == remainders(self@, rhs@),
            r.wf(),
    {
        let register = lanes::wrapping_rem(self.0, rhs.divisor_lanes());
        let r = Self::from_simd_truncate(register);
        proof {
            assert(r@ =~= remainders(self@, rhs@));
            r.lemma_of_lanes();
            assert(r.0@ =~= remainders(self@, rhs@).push(0));
        }
        r
    }
}

impl RemSpecImpl for Vector3i {
    open spec fn obeys_rem_spec() -> bool {
        true
    }

    open spec fn rem_req(self, rhs: Self) -> bool {
        all_nonzero(rhs@)
    }

    closed spec fn rem_spec(self, rhs: Self) -> Self {
        Self::of_lanes(remainders(self@, rhs@).push(0))
    }
}

impl core::ops::Rem<i32> for Vector3i {
    type Output = Self;

    /// The remainder of every component of this vector by the scalar rhs, with the sign of
    /// the dividend. The scalar may not be zero.
    fn rem(self, rhs: i32) -> (r: Self)
        ensures
            r@ == remainders(self@, splat_lanes(rhs, 3)),
            r.wf(),
    {
        let divisor: [i32; 4] = lanes::splat(rhs);
        proof {
            assert(all_nonzero(divisor@));
        }
        let r = Self::from_simd_truncate(lanes::wrapping_rem(self.0, divisor));
        proof {
            assert(r@ =~= remainders(self@, splat_lanes(rhs, 3)));
            r.lemma_of_lanes();
            assert(r.0@ =~= remainders(self@, splat_lanes(rhs, 3)).push(0));
        }
        r
    }
}

impl RemSpecImpl<i32> for Vector3i {
    open spec fn obeys_rem_spec() -> bool {
        true
    }

    open spec fn rem_req(self, rhs: i32) -> bool {
        rhs != 0
    }

    closed spec fn rem_spec(self, rhs: i32) -> Self {
        Self::of_lanes(remainders(self@, splat_lanes(rhs, 3)).push(0))
    }
}

impl core::ops::Neg for Vector3i {
    type Output = Self;

    /// This vector with every component negated, wrapping on overflow.
    fn neg(self) -> (r: Self)
        ensures
            r@ == negations(self@),
            self.wf() ==> r.wf(),
    {
        // A zero padding lane stays zero: nothing is to clear.
        let r = Vector3i(lanes::wrapping_neg(self.0));
        proof {
            assert(r@ =~= negations(self@));
            r.lemma_of_lanes();
        }
        r
    }
}

impl NegSpecImpl for Vector3i {
    open spec fn obeys_neg_spec() -> bool {
        true
    }

    open spec fn neg_req(self) -> bool {
        true
    }

    closed spec fn neg_spec(self) -> Self {
        Self::of_lanes(negations(self.0@))
    }
}

impl core::ops::Index<usize> for Vector3i {
    type Output = i32;

    /// The component at the given position.
    fn index(&self, index: usize) -> (r: &i32)
        ensures
            *r == self@[index as int],
    {
        &self.0[index]
    }
}

impl vstd::std_specs::core::IndexSpecImpl<usize> for Vector3i {
    /// Only the 3 components can be indexed.
    open spec fn index_req(&self, index: &usize) -> bool {
        *index < 3
    }
}

impl From<[i32; 3]> for Vector3i {
    /// Creates a new vector from the given array.
    fn from(a: [i32; 3]) -> (r: Self)
        ensures
            r@ == a@,
            r.wf(),
    {
        let r = Self::from_array(a);
        proof {
            r.lemma_of_lanes();
            assert(r.0@ =~= a@.push(0));
        }
        r
    }
}

impl FromSpecImpl<[i32; 3]> for Vector3i {
    open spec fn obeys_from_spec() -> bool {
        true
    }

    closed spec fn from_spec(a: [i32; 3]) -> Self {
        Self::of_lanes(a@.push(0))
    }
}

impl From<Vector3i> for [i32; 3] {
    /// Converts the vector into an array.
    fn from(v: Vector3i) -> (r: [i32; 3])
        ensures
            r@ == v@,
    {
        let r = v.to_array();
        proof {
            assert(r =~= [v@[0], v@[1], v@[2]]);
        }
        r
    }
}

impl FromSpecImpl<Vector3i> for [i32; 3] {
    open spec fn obeys_from_spec() -> bool {
        true
    }

    open spec fn from_spec(v: Vector3i) -> [i32; 3] {
        [v@[0], v@[1], v@[2]]
    }
}

impl AsRef<[i32; 3]> for Vector3i {
    /// Returns an array reference to the vector.
    fn as_ref(&self) -> (r: &[i32; 3])
        ensures
            r@ == self@,
    {
        self.as_array()
    }
}

impl AsMut<[i32; 3]> for Vector3i {
    /// Returns a mutable array reference to the vector.
    fn as_mut(&mut self) -> (r: &mut [i32; 3])
        ensures
            r@ == old(self)@,
            final(self)@ == final(r)@,
            final(self).padding() == old(self).padding(),
    {
        self.as_mut_array()
    }
}

impl core::borrow::Borrow<[i32; 3]> for Vector3i {
    /// Returns an array reference to the vector.
    fn borrow(&self) -> (r: &[i32; 3])
        ensures
            vstd::array::array_view(*r) == self@,
    {
        self.as_array()
    }
}

impl core::borrow::BorrowMut<[i32; 3]> for Vector3i {
    /// Returns a mutable array reference to the vector.
    fn borrow_mut(&mut self) -> (r: &mut [i32; 3])
        ensures
            vstd::array::array_view(*r) == old(self)@,
            final(self)@ == vstd::array::array_view(*final(r)),
            final(self).padding() == old(self).padding(),
    {
        self.as_mut_array()
    }
}

} // verus!
