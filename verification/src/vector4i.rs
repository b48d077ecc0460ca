//! Four `i32` components stored in a register of four lanes.

use crate::lanes;
use crate::lanes::{
    all_nonzero, differences, gathered, indices_within, magnitudes, maxima, minima, negations,
    products, quotients, remainders, splat_lanes, sums,
};
use crate::vector2i::Vector2i;
use crate::vector3i::Vector3i;
use vstd::prelude::*;
use vstd::std_specs::cmp::PartialEqSpecImpl;
use vstd::std_specs::convert::FromSpecImpl;
use vstd::std_specs::ops::{
    AddSpecImpl, DivSpecImpl, MulSpecImpl, NegSpecImpl, RemSpecImpl, SubSpecImpl,
};

verus! {

/// A vector with 4 `i32` components.
#[derive(Clone, Copy, Hash)]
pub struct Vector4i([i32; 4]);

impl View for Vector4i {
    type V = Seq<i32>;

    /// The 4 components, in order.
    closed spec fn view(&self) -> Seq<i32> {
        self.0@
    }
}

impl Vector4i {
    /// The vector whose register holds the given lanes.
    closed spec fn of_lanes(lanes: Seq<i32>) -> Self {
        Vector4i([lanes[0], lanes[1], lanes[2], lanes[3]])
    }

    /// A vector has exactly 4 components.
    pub broadcast proof fn lemma_len(self)
        ensures
            #[trigger] self@.len() == 4,
    {
    }

    proof fn lemma_of_lanes(self)
        ensures
            self == Self::of_lanes(self.0@),
    {
        assert(self.0 =~= Self::of_lanes(self.0@).0);
    }

    /// The vector (0, 0, 0, 0).
    pub fn zero() -> (r: Self)
        ensures
            r@ == splat_lanes(0i32, 4),
    {
        let r = Vector4i([0, 0, 0, 0]);
        assert(r@ =~= splat_lanes(0i32, 4));
        r
    }

    /// The x component of the vector.
    pub fn x(&self) -> (r: i32)
        ensures
            r == self@[0],
    {
        self.0[0]
    }

    /// The x component of the vector, to write through.
    pub fn x_mut(&mut self) -> (r: &mut i32)
        ensures
            *r == old(self)@[0],
            final(self)@ == old(self)@.update(0, *final(r)),
    {
        &mut self.0[0]
    }

    /// The y component of the vector.
    pub fn y(&self) -> (r: i32)
        ensures
            r == self@[1],
    {
        self.0[1]
    }

    /// The y component of the vector, to write through.
    pub fn y_mut(&mut self) -> (r: &mut i32)
        ensures
            *r == old(self)@[1],
            final(self)@ == old(self)@.update(1, *final(r)),
    {
        &mut self.0[1]
    }

    /// The z component of the vector.
    pub fn z(&self) -> (r: i32)
        ensures
            r == self@[2],
    {
        self.0[2]
    }

    /// The z component of the vector, to write through.
    pub fn z_mut(&mut self) -> (r: &mut i32)
        ensures
            *r == old(self)@[2],
            final(self)@ == old(self)@.update(2, *final(r)),
    {
        &mut self.0[2]
    }

    /// The w component of the vector.
    pub fn w(&self) -> (r: i32)
        ensures
            r == self@[3],
    {
        self.0[3]
    }

    /// The w component of the vector, to write through.
    pub fn w_mut(&mut self) -> (r: &mut i32)
        ensures
            *r == old(self)@[3],
            final(self)@ == old(self)@.update(3, *final(r)),
    {
        &mut self.0[3]
    }

    /// Creates a new vector from the given components.
    pub fn new(x: i32, y: i32, z: i32, w: i32) -> (r: Self)
        ensures
            r@ == seq![x, y, z, w],
    {
        let r = Vector4i([x, y, z, w]);
        assert(r@ =~= seq![x, y, z, w]);
        r
    }

    /// Creates a new vector by setting all components to the given scalar.
    pub fn from_scalar(scalar: i32) -> (r: Self)
        ensures
            r@ == splat_lanes(scalar, 4),
    {
        let r = Vector4i([scalar, scalar, scalar, scalar]);
        assert(r@ =~= splat_lanes(scalar, 4));
        r
    }

    /// Creates a new vector from the given array.
    pub fn from_array(array: [i32; 4]) -> (r: Self)
        ensures
            r@ == array@,
    {
        let r = Vector4i(array);
        assert(r@ =~= array@);
        r
    }

    /// Creates a new vector from the given 2-component vector.
    pub fn from_v2i(v: Vector2i, z: i32, w: i32) -> (r: Self)
        ensures
            r@ == v@ + seq![z, w],
    {
        proof {
            v.lemma_len();
        }
        let r = Vector4i([v.x(), v.y(), z, w]);
        assert(r@ =~= v@ + seq![z, w]);
        r
    }

    /// Creates a new vector from the given 3-component vector.
    pub fn from_v3i(v: Vector3i, w: i32) -> (r: Self)
        ensures
            r@ == v@.push(w),
    {
        proof {
            v.lemma_len();
        }
        let r = Vector4i([v.x(), v.y(), v.z(), w]);
        assert(r@ =~= v@.push(w));
        r
    }

    /// Converts the vector into an array.
    pub fn to_array(&self) -> (r: [i32; 4])
        ensures
            r@ == self@,
    {
        let r = self.0;
        assert(r@ =~= self@);
        r
    }

    /// Returns an array reference to the vector.
    pub fn as_array(&self) -> (r: &[i32; 4])
        ensures
            r@ == self@,
    {
        &self.0
    }

    /// Returns a mutable array reference to the vector.
    pub fn as_mut_array(&mut self) -> (r: &mut [i32; 4])
        ensures
            r@ == old(self)@,
            final(self)@ == final(r)@,
    {
        &mut self.0
    }

    /// Takes a register as it comes out of a lane operation. Every lane is a component.
    pub(crate) fn from_simd_truncate(simd_vec: [i32; 4]) -> (r: Self)
        ensures
            r@ == simd_vec@,
    {
        Vector4i(simd_vec)
    }

    /// Returns a vector with each component set to the absolute value of the corresponding
    /// component in this vector.
    pub fn abs(self) -> (r: Self)
        ensures
            r@ == magnitudes(self@),
    {
        let r = Vector4i(lanes::wrapping_abs(self.0));
        assert(r@ =~= magnitudes(self@));
        r
    }

    /// Returns a vector with each component set to the minimum of the corresponding components
    /// between this vector and rhs.
    pub fn min(self, rhs: Self) -> (r: Self)
        ensures
            r@ == minima(self@, rhs@),
    {
        let r = Vector4i(lanes::simd_min(self.0, rhs.0));
        assert(r@ =~= minima(self@, rhs@));
        r
    }

    /// Returns a vector with each component set to the maximum of the corresponding components
    /// between this vector and rhs.
    pub fn max(self, rhs: Self) -> (r: Self)
        ensures
            r@ == maxima(self@, rhs@),
    {
        let r = Vector4i(lanes::simd_max(self.0, rhs.0));
        assert(r@ =~= maxima(self@, rhs@));
        r
    }

    /// The vector whose components are the components of this one that `indices` names,
    /// in that order. A component may be named more than once.
    pub fn swizzle2(&self, indices: [usize; 2]) -> (r: Vector2i)
        requires
            indices_within(indices@, 4),
        ensures
            r@ == gathered(self@, indices@),
    {
        let picks = [indices[0], indices[1]];
        let picked: [i32; 2] = lanes::swizzle(self.0, picks);
        let r = Vector2i::from_simd_truncate(picked);
        proof {
            r.lemma_len();
            assert(r@ =~= gathered(self@, indices@));
        }
        r
    }

    /// The vector whose components are the components of this one that `indices` names,
    /// in that order. A component may be named more than once.
    pub fn swizzle3(&self, indices: [usize; 3]) -> (r: Vector3i)
        requires
            indices_within(indices@, 4),
        ensures
            r@ == gathered(self@, indices@),
            r.wf(),
    {
        // The register of the result has one more lane than the selection: it gathers
        // lane 0, and the truncation clears it.
        let picks = [indices[0], indices[1], indices[2], 0];
        let picked: [i32; 4] = lanes::swizzle(self.0, picks);
        let r = Vector3i::from_simd_truncate(picked);
        proof {
            r.lemma_len();
            assert(r@ =~= gathered(self@, indices@));
        }
        r
    }

    /// The vector whose components are the components of this one that `indices` names,
    /// in that order. A component may be named more than once.
    pub fn swizzle4(&self, indices: [usize; 4]) -> (r: Vector4i)
        requires
            indices_within(indices@, 4),
        ensures
            r@ == gathered(self@, indices@),
    {
        let picks = [indices[0], indices[1], indices[2], indices[3]];
        let picked: [i32; 4] = lanes::swizzle(self.0, picks);
        let r = Vector4i::from_simd_truncate(picked);
        proof {
            r.lemma_len();
            assert(r@ =~= gathered(self@, indices@));
        }
        r
    }

    /// The components x, y, in that order.
    pub fn xy(&self) -> (r: Vector2i)
        ensures
            r@ == seq![self@[0], self@[1]],
    {
        let r = self.swizzle2([0, 1]);
        proof {
            self.lemma_len();
            assert(r@ =~= seq![self@[0], self@[1]]);
        }
        r
    }

    /// The components x, y, z, in that order.
    pub fn xyz(&self) -> (r: Vector3i)
        ensures
            r@ == seq![self@[0], self@[1], self@[2]],
            r.wf(),
    {
        let r = self.swizzle3([0, 1, 2]);
        proof {
            self.lemma_len();
            assert(r@ =~= seq![self@[0], self@[1], self@[2]]);
        }
        r
    }

    /// The components x, y, z, w, in that order.
    pub fn xyzw(&self) -> (r: Vector4i)
        ensures
            r@ == seq![self@[0], self@[1], self@[2], self@[3]],
    {
        let r = self.swizzle4([0, 1, 2, 3]);
        proof {
            self.lemma_len();
            assert(r@ =~= seq![self@[0], self@[1], self@[2], self@[3]]);
        }
        r
    }

    /// The components w, z, y, x, in that order.
    pub fn wzyx(&self) -> (r: Vector4i)
        ensures
            r@ == seq![self@[3], self@[2], self@[1], self@[0]],
    {
        let r = self.swizzle4([3, 2, 1, 0]);
        proof {
            self.lemma_len();
            assert(r@ =~= seq![self@[3], self@[2], self@[1], self@[0]]);
        }
        r
    }

    /// The component at the given position, to write through.
    pub fn index_mut(&mut self, index: usize) -> (r: &mut i32)
        requires
            index < 4,
        ensures
            *r == old(self)@[index as int],
            final(self)@ == old(self)@.update(index as int, *final(r)),
    {
        &mut self.0[index]
    }

    /// Divides this vector by rhs, component by component, in place.
    pub fn div_assign(&mut self, rhs: Self)
        requires
            all_nonzero(rhs@),
        ensures
            final(self)@ == quotients(old(self)@, rhs@),
    {
        *self = *self / rhs;
    }

    /// Divides every component of this vector by the scalar rhs, in place.
    pub fn div_assign_scalar(&mut self, rhs: i32)
        requires
            rhs != 0,
        ensures
            final(self)@ == quotients(old(self)@, splat_lanes(rhs, 4)),
    {
        *self = *self / rhs;
    }

    /// Reduces this vector by rhs, component by component, in place.
    pub fn rem_assign(&mut self, rhs: Self)
        requires
            all_nonzero(rhs@),
        ensures
            final(self)@ == remainders(old(self)@, rhs@),
    {
        *self = *self % rhs;
    }

    /// Reduces every component of this vector by the scalar rhs, in place.
    pub fn rem_assign_scalar(&mut self, rhs: i32)
        requires
            rhs != 0,
        ensures
            final(self)@ == remainders(old(self)@, splat_lanes(rhs, 4)),
    {
        *self = *self % rhs;
    }

}

impl core::fmt::Debug for Vector4i {
    /// The name of the type and the components, in parentheses, through `write!` of std.
    /// Nothing is claimed of what the formatter holds afterwards.
    #[verifier::external_body]
    fn fmt(&self, f: &mut core::fmt::Formatter<'_>) -> (r: Result<(), core::fmt::Error>) {
        write!(f, "Vector4i({}, {}, {}, {})", self.0[0], self.0[1], self.0[2], self.0[3])
    }
}

impl core::fmt::Display for Vector4i {
    /// The components, in parentheses, through `write!` of std.
    /// Nothing is claimed of what the formatter holds afterwards.
    #[verifier::external_body]
    fn fmt(&self, f: &mut core::fmt::Formatter<'_>) -> (r: Result<(), core::fmt::Error>) {
        write!(f, "({}, {}, {}, {})", self.0[0], self.0[1], self.0[2], self.0[3])
    }
}

impl PartialEq for Vector4i {
    /// Whether the two vectors have the same components.
    fn eq(&self, other: &Self) -> (r: bool) {
        proof {
            if self@ == other@ {
                assert(self@[0] == other@[0]);
                assert(self@[1] == other@[1]);
                assert(self@[2] == other@[2]);
                assert(self@[3] == other@[3]);
            } else {
                assert(!(self@ =~= other@));
            }
        }
        self.0[0] == other.0[0]
            && self.0[1] == other.0[1]
            && self.0[2] == other.0[2]
            && self.0[3] == other.0[3]
    }
}

impl Eq for Vector4i {

}

impl PartialEqSpecImpl for Vector4i {
    open spec fn obeys_eq_spec() -> bool {
        true
    }

    /// Two vectors are equal where their components are.
    open spec fn eq_spec(&self, other: &Self) -> bool {
        self@ == other@
    }
}

impl core::ops::Add for Vector4i {
    type Output = Self;

    /// The sum of this vector and rhs, component by component, wrapping on overflow.
    fn add(self, rhs: Self) -> (r: Self)
        ensures
            r@ == sums(self@, rhs@),
    {
        let r = Vector4i(lanes::wrapping_add(self.0, rhs.0));
        proof {
            assert(r@ =~= sums(self@, rhs@));
            r.lemma_of_lanes();
        }
        r
    }
}

impl AddSpecImpl for Vector4i {
    open spec fn obeys_add_spec() -> bool {
        true
    }

    open spec fn add_req(self, rhs: Self) -> bool {
        true
    }

    closed spec fn add_spec(self, rhs: Self) -> Self {
        Self::of_lanes(sums(self@, rhs@))
    }
}

impl core::ops::Add<i32> for Vector4i {
    type Output = Self;

    /// This vector with the scalar rhs added to every component, wrapping on overflow.
    fn add(self, rhs: i32) -> (r: Self)
        ensures
            r@ == sums(self@, splat_lanes(rhs, 4)),
    {
        let r = Self::from_simd_truncate(lanes::wrapping_add(self.0, lanes::splat(rhs)));
        proof {
            assert(r@ =~= sums(self@, splat_lanes(rhs, 4)));
            r.lemma_of_lanes();
        }
        r
    }
}

impl AddSpecImpl<i32> for Vector4i {
    open spec fn obeys_add_spec() -> bool {
        true
    }

    open spec fn add_req(self, rhs: i32) -> bool {
        true
    }

    closed spec fn add_spec(self, rhs: i32) -> Self {
        Self::of_lanes(sums(self@, splat_lanes(rhs, 4)))
    }
}

impl core::ops::AddAssign for Vector4i {
    /// Replaces this vector by what `+` gives for it and rhs.
    fn add_assign(&mut self, rhs: Self)
        ensures
            final(self)@ == sums(old(self)@, rhs@),
    {
        *self = *self + rhs;
    }
}

impl core::ops::AddAssign<i32> for Vector4i {
    /// Replaces this vector by what `+` gives for it and the scalar rhs.
    fn add_assign(&mut self, rhs: i32)
        ensures
            final(self)@ == sums(old(self)@, splat_lanes(rhs, 4)),
    {
        *self = *self + rhs;
    }
}

impl core::ops::Sub for Vector4i {
    type Output = Self;

    /// The difference of this vector and rhs, component by component, wrapping on overflow.
    fn sub(self, rhs: Self) -> (r: Self)
        ensures
            r@ == differences(self@, rhs@),
    {
        let r = Vector4i(lanes::wrapping_sub(self.0, rhs.0));
        proof {
            assert(r@ =~= differences(self@, rhs@));
            r.lemma_of_lanes();
        }
        r
    }
}

impl SubSpecImpl for Vector4i {
    open spec fn obeys_sub_spec() -> bool {
        true
    }

    open spec fn sub_req(self, rhs: Self) -> bool {
        true
    }

    closed spec fn sub_spec(self, rhs: Self) -> Self {
        Self::of_lanes(differences(self@, rhs@))
    }
}

impl core::ops::Sub<i32> for Vector4i {
    type Output = Self;

    /// This vector with the scalar rhs subtracted from every component, wrapping on overflow.
    fn sub(self, rhs: i32) -> (r: Self)
        ensures
            r@ == differences(self@, splat_lanes(rhs, 4)),
    {
        let r = Self::from_simd_truncate(lanes::wrapping_sub(self.0, lanes::splat(rhs)));
        proof {
            assert(r@ =~= differences(self@, splat_lanes(rhs, 4)));
            r.lemma_of_lanes();
        }
        r
    }
}

impl SubSpecImpl<i32> for Vector4i {
    open spec fn obeys_sub_spec() -> bool {
        true
    }

    open spec fn sub_req(self, rhs: i32) -> bool {
        true
    }

    closed spec fn sub_spec(self, rhs: i32) -> Self {
        Self::of_lanes(differences(self@, splat_lanes(rhs, 4)))
    }
}

impl core::ops::SubAssign for Vector4i {
    /// Replaces this vector by what `-` gives for it and rhs.
    fn sub_assign(&mut self, rhs: Self)
        ensures
            final(self)@ == differences(old(self)@, rhs@),
    {
        *self = *self - rhs;
    }
}

impl core::ops::SubAssign<i32> for Vector4i {
    /// Replaces this vector by what `-` gives for it and the scalar rhs.
    fn sub_assign(&mut self, rhs: i32)
        ensures
            final(self)@ == differences(old(self)@, splat_lanes(rhs, 4)),
    {
        *self = *self - rhs;
    }
}

impl core::ops::Mul for Vector4i {
    type Output = Self;

    /// The product of this vector and rhs, component by component, wrapping on overflow.
    fn mul(self, rhs: Self) -> (r: Self)
        ensures
            r@ == products(self@, rhs@),
    {
        let r = Vector4i(lanes::wrapping_mul(self.0, rhs.0));
        proof {
            assert(r@ =~= products(self@, rhs@));
            r.lemma_of_lanes();
        }
        r
    }
}

impl MulSpecImpl for Vector4i {
    open spec fn obeys_mul_spec() -> bool {
        true
    }

    open spec fn mul_req(self, rhs: Self) -> bool {
        true
    }

    closed spec fn mul_spec(self, rhs: Self) -> Self {
        Self::of_lanes(products(self@, rhs@))
    }
}

impl core::ops::Mul<i32> for Vector4i {
    type Output = Self;

    /// This vector with every component multiplied by the scalar rhs, wrapping on overflow.
    fn mul(self, rhs: i32) -> (r: Self)
        ensures
            r@ == products(self@, splat_lanes(rhs, 4)),
    {
        let r = Self::from_simd_truncate(lanes::wrapping_mul(self.0, lanes::splat(rhs)));
        proof {
            assert(r@ =~= products(self@, splat_lanes(rhs, 4)));
            r.lemma_of_lanes();
        }
        r
    }
}

impl MulSpecImpl<i32> for Vector4i {
    open spec fn obeys_mul_spec() -> bool {
        true
    }

    open spec fn mul_req(self, rhs: i32) -> bool {
        true
    }

    closed spec fn mul_spec(self, rhs: i32) -> Self {
        Self::of_lanes(products(self@, splat_lanes(rhs, 4)))
    }
}

impl core::ops::MulAssign for Vector4i {
    /// Replaces this vector by what `*` gives for it and rhs.
    fn mul_assign(&mut self, rhs: Self)
        ensures
            final(self)@ == products(old(self)@, rhs@),
    {
        *self = *self * rhs;
    }
}

impl core::ops::MulAssign<i32> for Vector4i {
    /// Replaces this vector by what `*` gives for it and the scalar rhs.
    fn mul_assign(&mut self, rhs: i32)
        ensures
            final(self)@ == products(old(self)@, splat_lanes(rhs, 4)),
    {
        *self = *self * rhs;
    }
}

impl core::ops::Div for Vector4i {
    type Output = Self;

    /// The quotient of this vector by rhs, component by component, rounded toward zero.
    /// No component of rhs may be zero.
    fn div(self, rhs: Self) -> (r: Self)
        ensures
            r@ == quotients(self@, rhs@),
    {
        proof {
            assert(all_nonzero(rhs.0@));
        }
        let r = Self::from_simd_truncate(lanes::wrapping_div(self.0, rhs.0));
        proof {
            assert(r@ =~= quotients(self@, rhs@));
            r.lemma_of_lanes();
        }
        r
    }
}

impl DivSpecImpl for Vector4i {
    open spec fn obeys_div_spec() -> bool {
        true
    }

    open spec fn div_req(self, rhs: Self) -> bool {
        all_nonzero(rhs@)
    }

    closed spec fn div_spec(self, rhs: Self) -> Self {
        Self::of_lanes(quotients(self@, rhs@))
    }
}

impl core::ops::Div<i32> for Vector4i {
    type Output = Self;

    /// This vector with every component divided by the scalar rhs, rounded toward zero.
    /// The scalar may not be zero.
    fn div(self, rhs: i32) -> (r: Self)
        ensures
            r@ == quotients(self@, splat_lanes(rhs, 4)),
    {
        let divisor: [i32; 4] = lanes::splat(rhs);
        proof {
            assert(all_nonzero(divisor@));
        }
        let r = Self::from_simd_truncate(lanes::wrapping_div(self.0, divisor));
        proof {
            assert(r@ =~= quotients(self@, splat_lanes(rhs, 4)));
            r.lemma_of_lanes();
        }
        r
    }
}

impl DivSpecImpl<i32> for Vector4i {
    open spec fn obeys_div_spec() -> bool {
        true
    }

    open spec fn div_req(self, rhs: i32) -> bool {
        rhs != 0
    }

    closed spec fn div_spec(self, rhs: i32) -> Self {
        Self::of_lanes(quotients(self@, splat_lanes(rhs, 4)))
    }
}

impl core::ops::Rem for Vector4i {
    type Output = Self;

    /// The remainder of this vector by rhs, component by component, with the sign of the
    /// dividend. No component of rhs may be zero.
    fn rem(self, rhs: Self) -> (r: Self)
        ensures
            r@ == remainders(self@, rhs@),
    {
        proof {
            assert(all_nonzero(rhs.0@));
        }
        let r = Self::from_simd_truncate(lanes::wrapping_rem(self.0, rhs.0));
        proof {
            assert(r@ =~= remainders(self@, rhs@));
            r.lemma_of_lanes();
        }
        r
    }
}

impl RemSpecImpl for Vector4i {
    open spec fn obeys_rem_spec() -> bool {
        true
    }

    open spec fn rem_req(self, rhs: Self) -> bool {
        all_nonzero(rhs@)
    }

    closed spec fn rem_spec(self, rhs: Self) -> Self {
        Self::of_lanes(remainders(self@, rhs@))
    }
}

impl core::ops::Rem<i32> for Vector4i {
    type Output = Self;

    /// The remainder of every component of this vector by the scalar rhs, with the sign of
    /// the dividend. The scalar may not be zero.
    fn rem(self, rhs: i32) -> (r: Self)
        ensures
            r@ == remainders(self@, splat_lanes(rhs, 4)),
    {
        let divisor: [i32; 4] = lanes::splat(rhs);
        proof {
            assert(all_nonzero(divisor@));
        }
        let r = Self::from_simd_truncate(lanes::wrapping_rem(self.0, divisor));
        proof {
            assert(r@ =~= remainders(self@, splat_lanes(rhs, 4)));
            r.lemma_of_lanes();
        }
        r
    }
}

impl RemSpecImpl<i32> for Vector4i {
    open spec fn obeys_rem_spec() -> bool {
        true
    }

    open spec fn rem_req(self, rhs: i32) -> bool {
        rhs != 0
    }

    closed spec fn rem_spec(self, rhs: i32) -> Self {
        Self::of_lanes(remainders(self@, splat_lanes(rhs, 4)))
    }
}

impl core::ops::Neg for Vector4i {
    type Output = Self;

    /// This vector with every component negated, wrapping on overflow.
    fn neg(self) -> (r: Self)
        ensures
            r@ == negations(self@),
    {
        let r = Vector4i(lanes::wrapping_neg(self.0));
        proof {
            assert(r@ =~= negations(self@));
            r.lemma_of_lanes();
        }
        r
    }
}

impl NegSpecImpl for Vector4i {
    open spec fn obeys_neg_spec() -> bool {
        true
    }

    open spec fn neg_req(self) -> bool {
        true
    }

    closed spec fn neg_spec(self) -> Self {
        Self::of_lanes(negations(self.0@))
    }
}

impl core::ops::Index<usize> for Vector4i {
    type Output = i32;

    /// The component at the given position.
    fn index(&self, index: usize) -> (r: &i32)
        ensures
            *r == self@[index as int],
    {
        &self.0[index]
    }
}

impl vstd::std_specs::core::IndexSpecImpl<usize> for Vector4i {
    /// Only the 4 components can be indexed.
    open spec fn index_req(&self, index: &usize) -> bool {
        *index < 4
    }
}

impl From<[i32; 4]> for Vector4i {
    /// Creates a new vector from the given array.
    fn from(a: [i32; 4]) -> (r: Self)
        ensures
            r@ == a@,
    {
        let r = Self::from_array(a);
        proof {
            r.lemma_of_lanes();
            assert(r.0@ =~= a@);
        }
        r
    }
}

impl FromSpecImpl<[i32; 4]> for Vector4i {
    open spec fn obeys_from_spec() -> bool {
        true
    }

    closed spec fn from_spec(a: [i32; 4]) -> Self {
        Self::of_lanes(a@)
    }
}

impl From<Vector4i> for [i32; 4] {
    /// Converts the vector into an array.
    fn from(v: Vector4i) -> (r: [i32; 4])
        ensures
            r@ == v@,
    {
        let r = v.to_array();
        proof {
            assert(r =~= [v@[0], v@[1], v@[2], v@[3]]);
        }
        r
    }
}

impl FromSpecImpl<Vector4i> for [i32; 4] {
    open spec fn obeys_from_spec() -> bool {
        true
    }

    open spec fn from_spec(v: Vector4i) -> [i32; 4] {
        [v@[0], v@[1], v@[2], v@[3]]
    }
}

impl AsRef<[i32; 4]> for Vector4i {
    /// Returns an array reference to the vector.
    fn as_ref(&self) -> (r: &[i32; 4])
        ensures
            r@ == self@,
    {
        self.as_array()
    }
}

impl AsMut<[i32; 4]> for Vector4i {
    /// Returns a mutable array reference to the vector.
    fn as_mut(&mut self) -> (r: &mut [i32; 4])
        ensures
            r@ == old(self)@,
            final(self)@ == final(r)@,
    {
        self.as_mut_array()
    }
}

impl core::borrow::Borrow<[i32; 4]> for Vector4i {
    /// Returns an array reference to the vector.
    fn borrow(&self) -> (r: &[i32; 4])
        ensures
            vstd::array::array_view(*r) == self@,
    {
        self.as_array()
    }
}

impl core::borrow::BorrowMut<[i32; 4]> for Vector4i {
    /// Returns a mutable array reference to the vector.
    fn borrow_mut(&mut self) -> (r: &mut [i32; 4])
        ensures
            vstd::array::array_view(*r) == old(self)@,
            final(self)@ == vstd::array::array_view(*final(r)),
    {
        self.as_mut_array()
    }
}

} // verus!
