//! The vector and matrix product operations of the shader math library:
//! dot, cross and entrywise (Hadamard) products, and the norm traits that
//! floating-point carriers implement outside the verified library.

use crate::math::Mat2;
use crate::math::Mat2x3;
use crate::math::Mat2x4;
use crate::math::Mat3;
use crate::math::Mat3x2;
use crate::math::Mat3x4;
use crate::math::Mat4;
use crate::math::Mat4x2;
use crate::math::Mat4x3;
use crate::math::dot2_req;
use crate::math::dot2_spec;
use crate::math::dot3_req;
use crate::math::dot3_spec;
use crate::math::dot4_req;
use crate::math::dot4_spec;
use crate::math::V2;
use crate::math::V3;
use crate::math::V4;
use vstd::prelude::*;
use vstd::std_specs::ops::AddSpec;
use vstd::std_specs::ops::MulSpec;
use vstd::std_specs::ops::SubSpec;

verus! {
/// The dot product of two equally sized vectors.
pub trait DotProduct: Sized {
    type Output;

    /// Whether the element arithmetic obeys its vstd specification, making
    /// the contract of `dot` exact.
    spec fn dot_obeys() -> bool;

    /// Freedom from overflow for every product and partial sum of `dot`.
    spec fn dot_req(self, rhs: Self) -> bool;

    /// The sum of the componentwise products, summed left to right.
    spec fn dot_spec(self, rhs: Self) -> Self::Output;

    /// The dot product of `self` and `rhs`.
    fn dot(self, rhs: Self) -> (r: Self::Output)
        requires
            self.dot_req(rhs),
        ensures
            Self::dot_obeys() ==> r == self.dot_spec(rhs),
    ;
}

/// The cross product of two three-component vectors.
pub trait CrossProduct: Sized {
    type Output;

    /// Whether the element arithmetic obeys its vstd specification, making
    /// the contract of `cross` exact.
    spec fn cross_obeys() -> bool;

    /// Freedom from overflow for every product and difference of `cross`.
    spec fn cross_req(self, rhs: Self) -> bool;

    /// The vector orthogonal to both operands, oriented by the right-hand
    /// rule.
    spec fn cross_spec(self, rhs: Self) -> Self::Output;

    /// The cross product of `self` and `rhs`.
    fn cross(self, rhs: Self) -> (r: Self::Output)
        requires
            self.cross_req(rhs),
        ensures
            Self::cross_obeys() ==> r == self.cross_spec(rhs),
    ;
}

/// The entrywise (Hadamard) product of two equally shaped values.
pub trait EntrywiseProduct: Sized {
    type Output;

    /// Whether the element arithmetic obeys its vstd specification, making
    /// the contract of `entrywise` exact.
    spec fn entrywise_obeys() -> bool;

    /// Freedom from overflow for every entry product.
    spec fn entrywise_req(self, rhs: Self) -> bool;

    /// The entry-by-entry product.
    spec fn entrywise_spec(self, rhs: Self) -> Self::Output;

    /// The entrywise product of `self` and `rhs`.
    fn entrywise(self, rhs: Self) -> (r: Self::Output)
        requires
            self.entrywise_req(rhs),
        ensures
            Self::entrywise_obeys() ==> r == self.entrywise_spec(rhs),
    ;
}

/// The Euclidean norm of a vector. Left unimplemented here: its natural
/// carriers are floating-point vectors, which stay outside the verified
/// library.
pub trait Norm {
    type Output;

    /// The Euclidean norm of `self`.
    fn norm(&self) -> Self::Output;
}

/// Scaling to unit norm. Left unimplemented here for the same reason as
/// [`Norm`].
pub trait Normalize {
    type Output;

    /// `self` scaled to unit norm.
    fn normalize(&self) -> Self::Output;
}

impl<T: Copy + core::ops::Mul<Output = T> + core::ops::Add<Output = T> + MulSpec + AddSpec> DotProduct for V2<T> {
    type Output = T;

    open spec fn dot_obeys() -> bool {
        T::obeys_mul_spec() && T::obeys_add_spec()
    }

    open spec fn dot_req(self, rhs: V2<T>) -> bool {
        dot2_req(self, rhs)
    }

    open spec fn dot_spec(self, rhs: V2<T>) -> T {
        dot2_spec(self, rhs)
    }

    fn dot(self, rhs: V2<T>) -> (r: T) {
        self.0 * rhs.0 + self.1 * rhs.1
    }
}

impl<T: Copy + core::ops::Mul<Output = T> + core::ops::Add<Output = T> + MulSpec + AddSpec> DotProduct for V3<T> {
    type Output = T;

    open spec fn dot_obeys() -> bool {
        T::obeys_mul_spec() && T::obeys_add_spec()
    }

    open spec fn dot_req(self, rhs: V3<T>) -> bool {
        dot3_req(self, rhs)
    }

    open spec fn dot_spec(self, rhs: V3<T>) -> T {
        dot3_spec(self, rhs)
    }

    fn dot(self, rhs: V3<T>) -> (r: T) {
        self.0 * rhs.0 + self.1 * rhs.1 + self.2 * rhs.2
    }
}

impl<T: Copy + core::ops::Mul<Output = T> + core::ops::Add<Output = T> + MulSpec + AddSpec> DotProduct for V4<T> {
    type Output = T;

    open spec fn dot_obeys() -> bool {
        T::obeys_mul_spec() && T::obeys_add_spec()
    }

    open spec fn dot_req(self, rhs: V4<T>) -> bool {
        dot4_req(self, rhs)
    }

    open spec fn dot_spec(self, rhs: V4<T>) -> T {
        dot4_spec(self, rhs)
    }

    fn dot(self, rhs: V4<T>) -> (r: T) {
        self.0 * rhs.0 + self.1 * rhs.1 + self.2 * rhs.2 + self.3 * rhs.3
    }
}

impl<T: Copy + core::ops::Mul<Output = T> + core::ops::Sub<Output = T> + MulSpec + SubSpec> CrossProduct for V3<T> {
    type Output = V3<T>;

    open spec fn cross_obeys() -> bool {
        T::obeys_mul_spec() && T::obeys_sub_spec()
    }

    open spec fn cross_req(self, rhs: V3<T>) -> bool {
        &&& T::obeys_mul_spec()
        &&& T::obeys_sub_spec()
        &&& MulSpec::mul_req(self.1, rhs.2)
        &&& MulSpec::mul_req(self.2, rhs.1)
        &&& SubSpec::sub_req(MulSpec::mul_spec(self.1, rhs.2), MulSpec::mul_spec(self.2, rhs.1))
        &&& MulSpec::mul_req(self.2, rhs.0)
        &&& MulSpec::mul_req(self.0, rhs.2)
        &&& SubSpec::sub_req(MulSpec::mul_spec(self.2, rhs.0), MulSpec::mul_spec(self.0, rhs.2))
        &&& MulSpec::mul_req(self.0, rhs.1)
        &&& MulSpec::mul_req(self.1, rhs.0)
        &&& SubSpec::sub_req(MulSpec::mul_spec(self.0, rhs.1), MulSpec::mul_spec(self.1, rhs.0))
    }

    open spec fn cross_spec(self, rhs: V3<T>) -> V3<T> {
        V3(
            SubSpec::sub_spec(MulSpec::mul_spec(self.1, rhs.2), MulSpec::mul_spec(self.2, rhs.1)),
            SubSpec::sub_spec(MulSpec::mul_spec(self.2, rhs.0), MulSpec::mul_spec(self.0, rhs.2)),
            SubSpec::sub_spec(MulSpec::mul_spec(self.0, rhs.1), MulSpec::mul_spec(self.1, rhs.0)),
        )
    }

    fn cross(self, rhs: V3<T>) -> (r: V3<T>) {
        V3(
            self.1 * rhs.2 - self.2 * rhs.1,
            self.2 * rhs.0 - self.0 * rhs.2,
            self.0 * rhs.1 - self.1 * rhs.0,
        )
    }
}

impl<T: Copy + core::ops::Mul<Output = T> + MulSpec> EntrywiseProduct for V2<T> {
    type Output = V2<T>;

    open spec fn entrywise_obeys() -> bool {
        T::obeys_mul_spec()
    }

    open spec fn entrywise_req(self, rhs: V2<T>) -> bool {
        MulSpec::mul_req(self.0, rhs.0) && MulSpec::mul_req(self.1, rhs.1)
    }

    open spec fn entrywise_spec(self, rhs: V2<T>) -> V2<T> {
        V2(MulSpec::mul_spec(self.0, rhs.0), MulSpec::mul_spec(self.1, rhs.1))
    }

    fn entrywise(self, rhs: V2<T>) -> (r: V2<T>) {
        V2(self.0 * rhs.0, self.1 * rhs.1)
    }
}

impl<T: Copy + core::ops::Mul<Output = T> + MulSpec> EntrywiseProduct for V3<T> {
    type Output = V3<T>;

    open spec fn entrywise_obeys() -> bool {
        T::obeys_mul_spec()
    }

    open spec fn entrywise_req(self, rhs: V3<T>) -> bool {
        MulSpec::mul_req(self.0, rhs.0) && MulSpec::mul_req(self.1, rhs.1) && MulSpec::mul_req(self.2, rhs.2)
    }

    open spec fn entrywise_spec(self, rhs: V3<T>) -> V3<T> {
        V3(MulSpec::mul_spec(self.0, rhs.0), MulSpec::mul_spec(self.1, rhs.1), MulSpec::mul_spec(self.2, rhs.2))
    }

    fn entrywise(self, rhs: V3<T>) -> (r: V3<T>) {
        V3(self.0 * rhs.0, self.1 * rhs.1, self.2 * rhs.2)
    }
}

impl<T: Copy + core::ops::Mul<Output = T> + MulSpec> EntrywiseProduct for V4<T> {
    type Output = V4<T>;

    open spec fn entrywise_obeys() -> bool {
        T::obeys_mul_spec()
    }

    open spec fn entrywise_req(self, rhs: V4<T>) -> bool {
        MulSpec::mul_req(self.0, rhs.0) && MulSpec::mul_req(self.1, rhs.1) && MulSpec::mul_req(self.2, rhs.2) && MulSpec::mul_req(self.3, rhs.3)
    }

    open spec fn entrywise_spec(self, rhs: V4<T>) -> V4<T> {
        V4(MulSpec::mul_spec(self.0, rhs.0), MulSpec::mul_spec(self.1, rhs.1), MulSpec::mul_spec(self.2, rhs.2), MulSpec::mul_spec(self.3, rhs.3))
    }

    fn entrywise(self, rhs: V4<T>) -> (r: V4<T>) {
        V4(self.0 * rhs.0, self.1 * rhs.1, self.2 * rhs.2, self.3 * rhs.3)
    }
}

impl<T: Copy + core::ops::Mul<Output = T> + MulSpec> EntrywiseProduct for Mat2<T> {
    type Output = Mat2<T>;

    open spec fn entrywise_obeys() -> bool {
        T::obeys_mul_spec()
    }

    open spec fn entrywise_req(self, rhs: Mat2<T>) -> bool {
        EntrywiseProduct::entrywise_req(self.0, rhs.0) && EntrywiseProduct::entrywise_req(self.1, rhs.1)
    }

    open spec fn entrywise_spec(self, rhs: Mat2<T>) -> Mat2<T> {
        Mat2(EntrywiseProduct::entrywise_spec(self.0, rhs.0), EntrywiseProduct::entrywise_spec(self.1, rhs.1))
    }

    fn entrywise(self, rhs: Mat2<T>) -> (r: Mat2<T>) {
        Mat2(self.0.entrywise(rhs.0), self.1.entrywise(rhs.1))
    }
}

impl<T: Copy + core::ops::Mul<Output = T> + MulSpec> EntrywiseProduct for Mat2x3<T> {
    type Output = Mat2x3<T>;

    open spec fn entrywise_obeys() -> bool {
        T::obeys_mul_spec()
    }

    open spec fn entrywise_req(self, rhs: Mat2x3<T>) -> bool {
        EntrywiseProduct::entrywise_req(self.0, rhs.0) && EntrywiseProduct::entrywise_req(self.1, rhs.1)
    }

    open spec fn entrywise_spec(self, rhs: Mat2x3<T>) -> Mat2x3<T> {
        Mat2x3(EntrywiseProduct::entrywise_spec(self.0, rhs.0), EntrywiseProduct::entrywise_spec(self.1, rhs.1))
    }

    fn entrywise(self, rhs: Mat2x3<T>) -> (r: Mat2x3<T>) {
        Mat2x3(self.0.entrywise(rhs.0), self.1.entrywise(rhs.1))
    }
}

impl<T: Copy + core::ops::Mul<Output = T> + MulSpec> EntrywiseProduct for Mat2x4<T> {
    type Output = Mat2x4<T>;

    open spec fn entrywise_obeys() -> bool {
        T::obeys_mul_spec()
    }

    open spec fn entrywise_req(self, rhs: Mat2x4<T>) -> bool {
        EntrywiseProduct::entrywise_req(self.0, rhs.0) && EntrywiseProduct::entrywise_req(self.1, rhs.1)
    }

    open spec fn entrywise_spec(self, rhs: Mat2x4<T>) -> Mat2x4<T> {
        Mat2x4(EntrywiseProduct::entrywise_spec(self.0, rhs.0), EntrywiseProduct::entrywise_spec(self.1, rhs.1))
    }

    fn entrywise(self, rhs: Mat2x4<T>) -> (r: Mat2x4<T>) {
        Mat2x4(self.0.entrywise(rhs.0), self.1.entrywise(rhs.1))
    }
}

impl<T: Copy + core::ops::Mul<Output = T> + MulSpec> EntrywiseProduct for Mat3<T> {
    type Output = Mat3<T>;

    open spec fn entrywise_obeys() -> bool {
        T::obeys_mul_spec()
    }

    open spec fn entrywise_req(self, rhs: Mat3<T>) -> bool {
        EntrywiseProduct::entrywise_req(self.0, rhs.0) && EntrywiseProduct::entrywise_req(self.1, rhs.1) && EntrywiseProduct::entrywise_req(self.2, rhs.2)
    }

    open spec fn entrywise_spec(self, rhs: Mat3<T>) -> Mat3<T> {
        Mat3(EntrywiseProduct::entrywise_spec(self.0, rhs.0), EntrywiseProduct::entrywise_spec(self.1, rhs.1), EntrywiseProduct::entrywise_spec(self.2, rhs.2))
    }

    fn entrywise(self, rhs: Mat3<T>) -> (r: Mat3<T>) {
        Mat3(self.0.entrywise(rhs.0), self.1.entrywise(rhs.1), self.2.entrywise(rhs.2))
    }
}

impl<T: Copy + core::ops::Mul<Output = T> + MulSpec> EntrywiseProduct for Mat3x2<T> {
    type Output = Mat3x2<T>;

    open spec fn entrywise_obeys() -> bool {
        T::obeys_mul_spec()
    }

    open spec fn entrywise_req(self, rhs: Mat3x2<T>) -> bool {
        EntrywiseProduct::entrywise_req(self.0, rhs.0) && EntrywiseProduct::entrywise_req(self.1, rhs.1) && EntrywiseProduct::entrywise_req(self.2, rhs.2)
    }

    open spec fn entrywise_spec(self, rhs: Mat3x2<T>) -> Mat3x2<T> {
        Mat3x2(EntrywiseProduct::entrywise_spec(self.0, rhs.0), EntrywiseProduct::entrywise_spec(self.1, rhs.1), EntrywiseProduct::entrywise_spec(self.2, rhs.2))
    }

    fn entrywise(self, rhs: Mat3x2<T>) -> (r: Mat3x2<T>) {
        Mat3x2(self.0.entrywise(rhs.0), self.1.entrywise(rhs.1), self.2.entrywise(rhs.2))
    }
}

impl<T: Copy + core::ops::Mul<Output = T> + MulSpec> EntrywiseProduct for Mat3x4<T> {
    type Output = Mat3x4<T>;

    open spec fn entrywise_obeys() -> bool {
        T::obeys_mul_spec()
    }

    open spec fn entrywise_req(self, rhs: Mat3x4<T>) -> bool {
        EntrywiseProduct::entrywise_req(self.0, rhs.0) && EntrywiseProduct::entrywise_req(self.1, rhs.1) && EntrywiseProduct::entrywise_req(self.2, rhs.2)
    }

    open spec fn entrywise_spec(self, rhs: Mat3x4<T>) -> Mat3x4<T> {
        Mat3x4(EntrywiseProduct::entrywise_spec(self.0, rhs.0), EntrywiseProduct::entrywise_spec(self.1, rhs.1), EntrywiseProduct::entrywise_spec(self.2, rhs.2))
    }

    fn entrywise(self, rhs: Mat3x4<T>) -> (r: Mat3x4<T>) {
        Mat3x4(self.0.entrywise(rhs.0), self.1.entrywise(rhs.1), self.2.entrywise(rhs.2))
    }
}

impl<T: Copy + core::ops::Mul<Output = T> + MulSpec> EntrywiseProduct for Mat4<T> {
    type Output = Mat4<T>;

    open spec fn entrywise_obeys() -> bool {
        T::obeys_mul_spec()
    }

    open spec fn entrywise_req(self, rhs: Mat4<T>) -> bool {
        EntrywiseProduct::entrywise_req(self.0, rhs.0) && EntrywiseProduct::entrywise_req(self.1, rhs.1) && EntrywiseProduct::entrywise_req(self.2, rhs.2) && EntrywiseProduct::entrywise_req(self.3, rhs.3)
    }

    open spec fn entrywise_spec(self, rhs: Mat4<T>) -> Mat4<T> {
        Mat4(EntrywiseProduct::entrywise_spec(self.0, rhs.0), EntrywiseProduct::entrywise_spec(self.1, rhs.1), EntrywiseProduct::entrywise_spec(self.2, rhs.2), EntrywiseProduct::entrywise_spec(self.3, rhs.3))
    }

    fn entrywise(self, rhs: Mat4<T>) -> (r: Mat4<T>) {
        Mat4(self.0.entrywise(rhs.0), self.1.entrywise(rhs.1), self.2.entrywise(rhs.2), self.3.entrywise(rhs.3))
    }
}

impl<T: Copy + core::ops::Mul<Output = T> + MulSpec> EntrywiseProduct for Mat4x2<T> {
    type Output = Mat4x2<T>;

    open spec fn entrywise_obeys() -> bool {
        T::obeys_mul_spec()
    }

    open spec fn entrywise_req(self, rhs: Mat4x2<T>) -> bool {
        EntrywiseProduct::entrywise_req(self.0, rhs.0) && EntrywiseProduct::entrywise_req(self.1, rhs.1) && EntrywiseProduct::entrywise_req(self.2, rhs.2) && EntrywiseProduct::entrywise_req(self.3, rhs.3)
    }

    open spec fn entrywise_spec(self, rhs: Mat4x2<T>) -> Mat4x2<T> {
        Mat4x2(EntrywiseProduct::entrywise_spec(self.0, rhs.0), EntrywiseProduct::entrywise_spec(self.1, rhs.1), EntrywiseProduct::entrywise_spec(self.2, rhs.2), EntrywiseProduct::entrywise_spec(self.3, rhs.3))
    }

    fn entrywise(self, rhs: Mat4x2<T>) -> (r: Mat4x2<T>) {
        Mat4x2(self.0.entrywise(rhs.0), self.1.entrywise(rhs.1), self.2.entrywise(rhs.2), self.3.entrywise(rhs.3))
    }
}

impl<T: Copy + core::ops::Mul<Output = T> + MulSpec> EntrywiseProduct for Mat4x3<T> {
    type Output = Mat4x3<T>;

    open spec fn entrywise_obeys() -> bool {
        T::obeys_mul_spec()
    }

    open spec fn entrywise_req(self, rhs: Mat4x3<T>) -> bool {
        EntrywiseProduct::entrywise_req(self.0, rhs.0) && EntrywiseProduct::entrywise_req(self.1, rhs.1) && EntrywiseProduct::entrywise_req(self.2, rhs.2) && EntrywiseProduct::entrywise_req(self.3, rhs.3)
    }

    open spec fn entrywise_spec(self, rhs: Mat4x3<T>) -> Mat4x3<T> {
        Mat4x3(EntrywiseProduct::entrywise_spec(self.0, rhs.0), EntrywiseProduct::entrywise_spec(self.1, rhs.1), EntrywiseProduct::entrywise_spec(self.2, rhs.2), EntrywiseProduct::entrywise_spec(self.3, rhs.3))
    }

    fn entrywise(self, rhs: Mat4x3<T>) -> (r: Mat4x3<T>) {
        Mat4x3(self.0.entrywise(rhs.0), self.1.entrywise(rhs.1), self.2.entrywise(rhs.2), self.3.entrywise(rhs.3))
    }
}

} // verus!
