//! The shader standard math library: the vector tuple types `V2<T>`,
//! `V3<T>` and `V4<T>` and the matrix tuple types built from them, with
//! componentwise and matrix arithmetic.
//!
//! A matrix is stored as a tuple of column vectors: `Mat3x2<T>` holds three
//! columns of two entries each, and `MatN` abbreviates the square
//! `MatNxN`. Arithmetic is specified through the vstd extension
//! specifications of the element operators: whenever the element type obeys
//! its own operator specification (as the primitive integers do), every
//! contract here pins the result entry by entry.

use vstd::prelude::*;
use vstd::std_specs::ops::AddSpec;
use vstd::std_specs::ops::AddSpecImpl;
use vstd::std_specs::ops::SubSpec;
use vstd::std_specs::ops::SubSpecImpl;
use vstd::std_specs::ops::MulSpec;
use vstd::std_specs::ops::MulSpecImpl;
use vstd::std_specs::ops::DivSpec;
use vstd::std_specs::ops::DivSpecImpl;

verus! {

/// A 2-component vector.
#[derive(Debug, Clone, Copy, PartialEq)]
pub struct V2<T>(pub T, pub T);

/// A 3-component vector.
#[derive(Debug, Clone, Copy, PartialEq)]
pub struct V3<T>(pub T, pub T, pub T);

/// A 4-component vector.
#[derive(Debug, Clone, Copy, PartialEq)]
pub struct V4<T>(pub T, pub T, pub T, pub T);

/// A matrix of 2 columns with 2 entries each.
#[derive(Debug, Clone, Copy, PartialEq)]
pub struct Mat2<T>(pub V2<T>, pub V2<T>);

/// A matrix of 2 columns with 3 entries each.
#[derive(Debug, Clone, Copy, PartialEq)]
pub struct Mat2x3<T>(pub V3<T>, pub V3<T>);

/// A matrix of 2 columns with 4 entries each.
#[derive(Debug, Clone, Copy, PartialEq)]
pub struct Mat2x4<T>(pub V4<T>, pub V4<T>);

/// A matrix of 3 columns with 3 entries each.
#[derive(Debug, Clone, Copy, PartialEq)]
pub struct Mat3<T>(pub V3<T>, pub V3<T>, pub V3<T>);

/// A matrix of 3 columns with 2 entries each.
#[derive(Debug, Clone, Copy, PartialEq)]
pub struct Mat3x2<T>(pub V2<T>, pub V2<T>, pub V2<T>);

/// A matrix of 3 columns with 4 entries each.
#[derive(Debug, Clone, Copy, PartialEq)]
pub struct Mat3x4<T>(pub V4<T>, pub V4<T>, pub V4<T>);

/// A matrix of 4 columns with 4 entries each.
#[derive(Debug, Clone, Copy, PartialEq)]
pub struct Mat4<T>(pub V4<T>, pub V4<T>, pub V4<T>, pub V4<T>);

/// A matrix of 4 columns with 2 entries each.
#[derive(Debug, Clone, Copy, PartialEq)]
pub struct Mat4x2<T>(pub V2<T>, pub V2<T>, pub V2<T>, pub V2<T>);

/// A matrix of 4 columns with 3 entries each.
#[derive(Debug, Clone, Copy, PartialEq)]
pub struct Mat4x3<T>(pub V3<T>, pub V3<T>, pub V3<T>, pub V3<T>);

/// What a 2-component dot product demands of its operands: the element
/// arithmetic obeys its specification, and every product and every
/// left-to-right partial sum is admitted by the element operators.
pub open spec fn dot2_req<T: Copy + core::ops::Mul<Output = T> + core::ops::Add<Output = T> + MulSpec + AddSpec>(
    a: V2<T>,
    b: V2<T>,
) -> bool {
    T::obeys_mul_spec() && T::obeys_add_spec() && MulSpec::mul_req(a.0, b.0) && MulSpec::mul_req(a.1, b.1) && AddSpec::add_req(MulSpec::mul_spec(a.0, b.0), MulSpec::mul_spec(a.1, b.1))
}

/// The 2-component dot product, summed left to right.
pub open spec fn dot2_spec<T: Copy + core::ops::Mul<Output = T> + core::ops::Add<Output = T> + MulSpec + AddSpec>(
    a: V2<T>,
    b: V2<T>,
) -> T {
    AddSpec::add_spec(MulSpec::mul_spec(a.0, b.0), MulSpec::mul_spec(a.1, b.1))
}

/// What a 3-component dot product demands of its operands: the element
/// arithmetic obeys its specification, and every product and every
/// left-to-right partial sum is admitted by the element operators.
pub open spec fn dot3_req<T: Copy + core::ops::Mul<Output = T> + core::ops::Add<Output = T> + MulSpec + AddSpec>(
    a: V3<T>,
    b: V3<T>,
) -> bool {
    T::obeys_mul_spec() && T::obeys_add_spec() && MulSpec::mul_req(a.0, b.0) && MulSpec::mul_req(a.1, b.1) && MulSpec::mul_req(a.2, b.2) && AddSpec::add_req(MulSpec::mul_spec(a.0, b.0), MulSpec::mul_spec(a.1, b.1)) && AddSpec::add_req(AddSpec::add_spec(MulSpec::mul_spec(a.0, b.0), MulSpec::mul_spec(a.1, b.1)), MulSpec::mul_spec(a.2, b.2))
}

/// The 3-component dot product, summed left to right.
pub open spec fn dot3_spec<T: Copy + core::ops::Mul<Output = T> + core::ops::Add<Output = T> + MulSpec + AddSpec>(
    a: V3<T>,
    b: V3<T>,
) -> T {
    AddSpec::add_spec(AddSpec::add_spec(MulSpec::mul_spec(a.0, b.0), MulSpec::mul_spec(a.1, b.1)), MulSpec::mul_spec(a.2, b.2))
}

/// What a 4-component dot product demands of its operands: the element
/// arithmetic obeys its specification, and every product and every
/// left-to-right partial sum is admitted by the element operators.
pub open spec fn dot4_req<T: Copy + core::ops::Mul<Output = T> + core::ops::Add<Output = T> + MulSpec + AddSpec>(
    a: V4<T>,
    b: V4<T>,
) -> bool {
    T::obeys_mul_spec() && T::obeys_add_spec() && MulSpec::mul_req(a.0, b.0) && MulSpec::mul_req(a.1, b.1) && MulSpec::mul_req(a.2, b.2) && MulSpec::mul_req(a.3, b.3) && AddSpec::add_req(MulSpec::mul_spec(a.0, b.0), MulSpec::mul_spec(a.1, b.1)) && AddSpec::add_req(AddSpec::add_spec(MulSpec::mul_spec(a.0, b.0), MulSpec::mul_spec(a.1, b.1)), MulSpec::mul_spec(a.2, b.2)) && AddSpec::add_req(AddSpec::add_spec(AddSpec::add_spec(MulSpec::mul_spec(a.0, b.0), MulSpec::mul_spec(a.1, b.1)), MulSpec::mul_spec(a.2, b.2)), MulSpec::mul_spec(a.3, b.3))
}

/// The 4-component dot product, summed left to right.
pub open spec fn dot4_spec<T: Copy + core::ops::Mul<Output = T> + core::ops::Add<Output = T> + MulSpec + AddSpec>(
    a: V4<T>,
    b: V4<T>,
) -> T {
    AddSpec::add_spec(AddSpec::add_spec(AddSpec::add_spec(MulSpec::mul_spec(a.0, b.0), MulSpec::mul_spec(a.1, b.1)), MulSpec::mul_spec(a.2, b.2)), MulSpec::mul_spec(a.3, b.3))
}

impl<T: Copy> V2<T> {
    /// A vector with every component equal to `value`.
    pub fn new(value: T) -> (r: V2<T>)
        ensures
            r == V2(value, value),
    {
        V2(value, value)
    }
}

impl<T: Copy> V3<T> {
    /// A vector with every component equal to `value`.
    pub fn new(value: T) -> (r: V3<T>)
        ensures
            r == V3(value, value, value),
    {
        V3(value, value, value)
    }
}

impl<T: Copy> V4<T> {
    /// A vector with every component equal to `value`.
    pub fn new(value: T) -> (r: V4<T>)
        ensures
            r == V4(value, value, value, value),
    {
        V4(value, value, value, value)
    }
}

impl<T: Copy> Mat2<T> {
    /// A matrix with every entry equal to `value`.
    pub fn all(value: T) -> (ret: Mat2<T>)
        ensures
            ret == Mat2(V2(value, value), V2(value, value)),
    {
        Mat2(V2(value, value), V2(value, value))
    }

    /// Row 0 of the matrix: entry 0 of each column.
    pub fn row_0(&self) -> (ret: V2<T>)
        ensures
            ret == V2(self.0.0, self.1.0),
    {
        V2(self.0.0, self.1.0)
    }

    /// Row 1 of the matrix: entry 1 of each column.
    pub fn row_1(&self) -> (ret: V2<T>)
        ensures
            ret == V2(self.0.1, self.1.1),
    {
        V2(self.0.1, self.1.1)
    }
}

impl<T: Copy> Mat2x3<T> {
    /// A matrix with every entry equal to `value`.
    pub fn all(value: T) -> (ret: Mat2x3<T>)
        ensures
            ret == Mat2x3(V3(value, value, value), V3(value, value, value)),
    {
        Mat2x3(V3(value, value, value), V3(value, value, value))
    }

    /// Row 0 of the matrix: entry 0 of each column.
    pub fn row_0(&self) -> (ret: V2<T>)
        ensures
            ret == V2(self.0.0, self.1.0),
    {
        V2(self.0.0, self.1.0)
    }

    /// Row 1 of the matrix: entry 1 of each column.
    pub fn row_1(&self) -> (ret: V2<T>)
        ensures
            ret == V2(self.0.1, self.1.1),
    {
        V2(self.0.1, self.1.1)
    }

    /// Row 2 of the matrix: entry 2 of each column.
    pub fn row_2(&self) -> (ret: V2<T>)
        ensures
            ret == V2(self.0.2, self.1.2),
    {
        V2(self.0.2, self.1.2)
    }
}

impl<T: Copy> Mat2x4<T> {
    /// A matrix with every entry equal to `value`.
    pub fn all(value: T) -> (ret: Mat2x4<T>)
        ensures
            ret == Mat2x4(V4(value, value, value, value), V4(value, value, value, value)),
    {
        Mat2x4(V4(value, value, value, value), V4(value, value, value, value))
    }

    /// Row 0 of the matrix: entry 0 of each column.
    pub fn row_0(&self) -> (ret: V2<T>)
        ensures
            ret == V2(self.0.0, self.1.0),
    {
        V2(self.0.0, self.1.0)
    }

    /// Row 1 of the matrix: entry 1 of each column.
    pub fn row_1(&self) -> (ret: V2<T>)
        ensures
            ret == V2(self.0.1, self.1.1),
    {
        V2(self.0.1, self.1.1)
    }

    /// Row 2 of the matrix: entry 2 of each column.
    pub fn row_2(&self) -> (ret: V2<T>)
        ensures
            ret == V2(self.0.2, self.1.2),
    {
        V2(self.0.2, self.1.2)
    }

    /// Row 3 of the matrix: entry 3 of each column.
    pub fn row_3(&self) -> (ret: V2<T>)
        ensures
            ret == V2(self.0.3, self.1.3),
    {
        V2(self.0.3, self.1.3)
    }
}

impl<T: Copy> Mat3<T> {
    /// A matrix with every entry equal to `value`.
    pub fn all(value: T) -> (ret: Mat3<T>)
        ensures
            ret == Mat3(V3(value, value, value), V3(value, value, value), V3(value, value, value)),
    {
        Mat3(V3(value, value, value), V3(value, value, value), V3(value, value, value))
    }

    /// Row 0 of the matrix: entry 0 of each column.
    pub fn row_0(&self) -> (ret: V3<T>)
        ensures
            ret == V3(self.0.0, self.1.0, self.2.0),
    {
        V3(self.0.0, self.1.0, self.2.0)
    }

    /// Row 1 of the matrix: entry 1 of each column.
    pub fn row_1(&self) -> (ret: V3<T>)
        ensures
            ret == V3(self.0.1, self.1.1, self.2.1),
    {
        V3(self.0.1, self.1.1, self.2.1)
    }

    /// Row 2 of the matrix: entry 2 of each column.
    pub fn row_2(&self) -> (ret: V3<T>)
        ensures
            ret == V3(self.0.2, self.1.2, self.2.2),
    {
        V3(self.0.2, self.1.2, self.2.2)
    }
}

impl<T: Copy> Mat3x2<T> {
    /// A matrix with every entry equal to `value`.
    pub fn all(value: T) -> (ret: Mat3x2<T>)
        ensures
            ret == Mat3x2(V2(value, value), V2(value, value), V2(value, value)),
    {
        Mat3x2(V2(value, value), V2(value, value), V2(value, value))
    }

    /// Row 0 of the matrix: entry 0 of each column.
    pub fn row_0(&self) -> (ret: V3<T>)
        ensures
            ret == V3(self.0.0, self.1.0, self.2.0),
    {
        V3(self.0.0, self.1.0, self.2.0)
    }

    /// Row 1 of the matrix: entry 1 of each column.
    pub fn row_1(&self) -> (ret: V3<T>)
        ensures
            ret == V3(self.0.1, self.1.1, self.2.1),
    {
        V3(self.0.1, self.1.1, self.2.1)
    }
}

impl<T: Copy> Mat3x4<T> {
    /// A matrix with every entry equal to `value`.
    pub fn all(value: T) -> (ret: Mat3x4<T>)
        ensures
            ret == Mat3x4(V4(value, value, value, value), V4(value, value, value, value), V4(value, value, value, value)),
    {
        Mat3x4(V4(value, value, value, value), V4(value, value, value, value), V4(value, value, value, value))
    }

    /// Row 0 of the matrix: entry 0 of each column.
    pub fn row_0(&self) -> (ret: V3<T>)
        ensures
            ret == V3(self.0.0, self.1.0, self.2.0),
    {
        V3(self.0.0, self.1.0, self.2.0)
    }

    /// Row 1 of the matrix: entry 1 of each column.
    pub fn row_1(&self) -> (ret: V3<T>)
        ensures
            ret == V3(self.0.1, self.1.1, self.2.1),
    {
        V3(self.0.1, self.1.1, self.2.1)
    }

    /// Row 2 of the matrix: entry 2 of each column.
    pub fn row_2(&self) -> (ret: V3<T>)
        ensures
            ret == V3(self.0.2, self.1.2, self.2.2),
    {
        V3(self.0.2, self.1.2, self.2.2)
    }

    /// Row 3 of the matrix: entry 3 of each column.
    pub fn row_3(&self) -> (ret: V3<T>)
        ensures
            ret == V3(self.0.3, self.1.3, self.2.3),
    {
        V3(self.0.3, self.1.3, self.2.3)
    }
}

impl<T: Copy> Mat4<T> {
    /// A matrix with every entry equal to `value`.
    pub fn all(value: T) -> (ret: Mat4<T>)
        ensures
            ret == Mat4(V4(value, value, value, value), V4(value, value, value, value), V4(value, value, value, value), V4(value, value, value, value)),
    {
        Mat4(V4(value, value, value, value), V4(value, value, value, value), V4(value, value, value, value), V4(value, value, value, value))
    }

    /// Row 0 of the matrix: entry 0 of each column.
    pub fn row_0(&self) -> (ret: V4<T>)
        ensures
            ret == V4(self.0.0, self.1.0, self.2.0, self.3.0),
    {
        V4(self.0.0, self.1.0, self.2.0, self.3.0)
    }

    /// Row 1 of the matrix: entry 1 of each column.
    pub fn row_1(&self) -> (ret: V4<T>)
        ensures
            ret == V4(self.0.1, self.1.1, self.2.1, self.3.1),
    {
        V4(self.0.1, self.1.1, self.2.1, self.3.1)
    }

    /// Row 2 of the matrix: entry 2 of each column.
    pub fn row_2(&self) -> (ret: V4<T>)
        ensures
            ret == V4(self.0.2, self.1.2, self.2.2, self.3.2),
    {
        V4(self.0.2, self.1.2, self.2.2, self.3.2)
    }

    /// Row 3 of the matrix: entry 3 of each column.
    pub fn row_3(&self) -> (ret: V4<T>)
        ensures
            ret == V4(self.0.3, self.1.3, self.2.3, self.3.3),
    {
        V4(self.0.3, self.1.3, self.2.3, self.3.3)
    }
}

impl<T: Copy> Mat4x2<T> {
    /// A matrix with every entry equal to `value`.
    pub fn all(value: T) -> (ret: Mat4x2<T>)
        ensures
            ret == Mat4x2(V2(value, value), V2(value, value), V2(value, value), V2(value, value)),
    {
        Mat4x2(V2(value, value), V2(value, value), V2(value, value), V2(value, value))
    }

    /// Row 0 of the matrix: entry 0 of each column.
    pub fn row_0(&self) -> (ret: V4<T>)
        ensures
            ret == V4(self.0.0, self.1.0, self.2.0, self.3.0),
    {
        V4(self.0.0, self.1.0, self.2.0, self.3.0)
    }

    /// Row 1 of the matrix: entry 1 of each column.
    pub fn row_1(&self) -> (ret: V4<T>)
        ensures
            ret == V4(self.0.1, self.1.1, self.2.1, self.3.1),
    {
        V4(self.0.1, self.1.1, self.2.1, self.3.1)
    }
}

impl<T: Copy> Mat4x3<T> {
    /// A matrix with every entry equal to `value`.
    pub fn all(value: T) -> (ret: Mat4x3<T>)
        ensures
            ret == Mat4x3(V3(value, value, value), V3(value, value, value), V3(value, value, value), V3(value, value, value)),
    {
        Mat4x3(V3(value, value, value), V3(value, value, value), V3(value, value, value), V3(value, value, value))
    }

    /// Row 0 of the matrix: entry 0 of each column.
    pub fn row_0(&self) -> (ret: V4<T>)
        ensures
            ret == V4(self.0.0, self.1.0, self.2.0, self.3.0),
    {
        V4(self.0.0, self.1.0, self.2.0, self.3.0)
    }

    /// Row 1 of the matrix: entry 1 of each column.
    pub fn row_1(&self) -> (ret: V4<T>)
        ensures
            ret == V4(self.0.1, self.1.1, self.2.1, self.3.1),
    {
        V4(self.0.1, self.1.1, self.2.1, self.3.1)
    }

    /// Row 2 of the matrix: entry 2 of each column.
    pub fn row_2(&self) -> (ret: V4<T>)
        ensures
            ret == V4(self.0.2, self.1.2, self.2.2, self.3.2),
    {
        V4(self.0.2, self.1.2, self.2.2, self.3.2)
    }
}

impl<T: Copy + core::ops::Add<Output = T> + AddSpec> core::ops::Add for V2<T> {
    type Output = V2<T>;

    /// Componentwise sum.
    fn add(self, rhs: V2<T>) -> (r: V2<T>) {
        V2(self.0 + rhs.0, self.1 + rhs.1)
    }
}

impl<T: Copy + core::ops::Add<Output = T> + AddSpec> AddSpecImpl for V2<T> {
    open spec fn obeys_add_spec() -> bool {
        T::obeys_add_spec()
    }

    open spec fn add_req(self, rhs: V2<T>) -> bool {
        AddSpec::add_req(self.0, rhs.0) && AddSpec::add_req(self.1, rhs.1)
    }

    open spec fn add_spec(self, rhs: V2<T>) -> V2<T> {
        V2(AddSpec::add_spec(self.0, rhs.0), AddSpec::add_spec(self.1, rhs.1))
    }
}

impl<T: Copy + core::ops::Sub<Output = T> + SubSpec> core::ops::Sub for V2<T> {
    type Output = V2<T>;

    /// Componentwise difference.
    fn sub(self, rhs: V2<T>) -> (r: V2<T>) {
        V2(self.0 - rhs.0, self.1 - rhs.1)
    }
}

impl<T: Copy + core::ops::Sub<Output = T> + SubSpec> SubSpecImpl for V2<T> {
    open spec fn obeys_sub_spec() -> bool {
        T::obeys_sub_spec()
    }

    open spec fn sub_req(self, rhs: V2<T>) -> bool {
        SubSpec::sub_req(self.0, rhs.0) && SubSpec::sub_req(self.1, rhs.1)
    }

    open spec fn sub_spec(self, rhs: V2<T>) -> V2<T> {
        V2(SubSpec::sub_spec(self.0, rhs.0), SubSpec::sub_spec(self.1, rhs.1))
    }
}

impl<T: Copy + core::ops::Add<Output = T> + AddSpec> core::ops::Add for V3<T> {
    type Output = V3<T>;

    /// Componentwise sum.
    fn add(self, rhs: V3<T>) -> (r: V3<T>) {
        V3(self.0 + rhs.0, self.1 + rhs.1, self.2 + rhs.2)
    }
}

impl<T: Copy + core::ops::Add<Output = T> + AddSpec> AddSpecImpl for V3<T> {
    open spec fn obeys_add_spec() -> bool {
        T::obeys_add_spec()
    }

    open spec fn add_req(self, rhs: V3<T>) -> bool {
        AddSpec::add_req(self.0, rhs.0) && AddSpec::add_req(self.1, rhs.1) && AddSpec::add_req(self.2, rhs.2)
    }

    open spec fn add_spec(self, rhs: V3<T>) -> V3<T> {
        V3(AddSpec::add_spec(self.0, rhs.0), AddSpec::add_spec(self.1, rhs.1), AddSpec::add_spec(self.2, rhs.2))
    }
}

impl<T: Copy + core::ops::Sub<Output = T> + SubSpec> core::ops::Sub for V3<T> {
    type Output = V3<T>;

    /// Componentwise difference.
    fn sub(self, rhs: V3<T>) -> (r: V3<T>) {
        V3(self.0 - rhs.0, self.1 - rhs.1, self.2 - rhs.2)
    }
}

impl<T: Copy + core::ops::Sub<Output = T> + SubSpec> SubSpecImpl for V3<T> {
    open spec fn obeys_sub_spec() -> bool {
        T::obeys_sub_spec()
    }

    open spec fn sub_req(self, rhs: V3<T>) -> bool {
        SubSpec::sub_req(self.0, rhs.0) && SubSpec::sub_req(self.1, rhs.1) && SubSpec::sub_req(self.2, rhs.2)
    }

    open spec fn sub_spec(self, rhs: V3<T>) -> V3<T> {
        V3(SubSpec::sub_spec(self.0, rhs.0), SubSpec::sub_spec(self.1, rhs.1), SubSpec::sub_spec(self.2, rhs.2))
    }
}

impl<T: Copy + core::ops::Add<Output = T> + AddSpec> core::ops::Add for V4<T> {
    type Output = V4<T>;

    /// Componentwise sum.
    fn add(self, rhs: V4<T>) -> (r: V4<T>) {
        V4(self.0 + rhs.0, self.1 + rhs.1, self.2 + rhs.2, self.3 + rhs.3)
    }
}

impl<T: Copy + core::ops::Add<Output = T> + AddSpec> AddSpecImpl for V4<T> {
    open spec fn obeys_add_spec() -> bool {
        T::obeys_add_spec()
    }

    open spec fn add_req(self, rhs: V4<T>) -> bool {
        AddSpec::add_req(self.0, rhs.0) && AddSpec::add_req(self.1, rhs.1) && AddSpec::add_req(self.2, rhs.2) && AddSpec::add_req(self.3, rhs.3)
    }

    open spec fn add_spec(self, rhs: V4<T>) -> V4<T> {
        V4(AddSpec::add_spec(self.0, rhs.0), AddSpec::add_spec(self.1, rhs.1), AddSpec::add_spec(self.2, rhs.2), AddSpec::add_spec(self.3, rhs.3))
    }
}

impl<T: Copy + core::ops::Sub<Output = T> + SubSpec> core::ops::Sub for V4<T> {
    type Output = V4<T>;

    /// Componentwise difference.
    fn sub(self, rhs: V4<T>) -> (r: V4<T>) {
        V4(self.0 - rhs.0, self.1 - rhs.1, self.2 - rhs.2, self.3 - rhs.3)
    }
}

impl<T: Copy + core::ops::Sub<Output = T> + SubSpec> SubSpecImpl for V4<T> {
    open spec fn obeys_sub_spec() -> bool {
        T::obeys_sub_spec()
    }

    open spec fn sub_req(self, rhs: V4<T>) -> bool {
        SubSpec::sub_req(self.0, rhs.0) && SubSpec::sub_req(self.1, rhs.1) && SubSpec::sub_req(self.2, rhs.2) && SubSpec::sub_req(self.3, rhs.3)
    }

    open spec fn sub_spec(self, rhs: V4<T>) -> V4<T> {
        V4(SubSpec::sub_spec(self.0, rhs.0), SubSpec::sub_spec(self.1, rhs.1), SubSpec::sub_spec(self.2, rhs.2), SubSpec::sub_spec(self.3, rhs.3))
    }
}

impl<T: Copy + core::ops::Add<Output = T> + AddSpec> core::ops::Add for Mat2<T> {
    type Output = Mat2<T>;

    /// Entrywise sum, column by column.
    fn add(self, rhs: Mat2<T>) -> (r: Mat2<T>) {
        Mat2(self.0 + rhs.0, self.1 + rhs.1)
    }
}

impl<T: Copy + core::ops::Add<Output = T> + AddSpec> AddSpecImpl for Mat2<T> {
    open spec fn obeys_add_spec() -> bool {
        T::obeys_add_spec()
    }

    open spec fn add_req(self, rhs: Mat2<T>) -> bool {
        AddSpec::add_req(self.0, rhs.0) && AddSpec::add_req(self.1, rhs.1)
    }

    open spec fn add_spec(self, rhs: Mat2<T>) -> Mat2<T> {
        Mat2(AddSpec::add_spec(self.0, rhs.0), AddSpec::add_spec(self.1, rhs.1))
    }
}

impl<T: Copy + core::ops::Sub<Output = T> + SubSpec> core::ops::Sub for Mat2<T> {
    type Output = Mat2<T>;

    /// Entrywise difference, column by column.
    fn sub(self, rhs: Mat2<T>) -> (r: Mat2<T>) {
        Mat2(self.0 - rhs.0, self.1 - rhs.1)
    }
}

impl<T: Copy + core::ops::Sub<Output = T> + SubSpec> SubSpecImpl for Mat2<T> {
    open spec fn obeys_sub_spec() -> bool {
        T::obeys_sub_spec()
    }

    open spec fn sub_req(self, rhs: Mat2<T>) -> bool {
        SubSpec::sub_req(self.0, rhs.0) && SubSpec::sub_req(self.1, rhs.1)
    }

    open spec fn sub_spec(self, rhs: Mat2<T>) -> Mat2<T> {
        Mat2(SubSpec::sub_spec(self.0, rhs.0), SubSpec::sub_spec(self.1, rhs.1))
    }
}

impl<T: Copy + core::ops::Add<Output = T> + AddSpec> core::ops::Add for Mat2x3<T> {
    type Output = Mat2x3<T>;

    /// Entrywise sum, column by column.
    fn add(self, rhs: Mat2x3<T>) -> (r: Mat2x3<T>) {
        Mat2x3(self.0 + rhs.0, self.1 + rhs.1)
    }
}

impl<T: Copy + core::ops::Add<Output = T> + AddSpec> AddSpecImpl for Mat2x3<T> {
    open spec fn obeys_add_spec() -> bool {
        T::obeys_add_spec()
    }

    open spec fn add_req(self, rhs: Mat2x3<T>) -> bool {
        AddSpec::add_req(self.0, rhs.0) && AddSpec::add_req(self.1, rhs.1)
    }

    open spec fn add_spec(self, rhs: Mat2x3<T>) -> Mat2x3<T> {
        Mat2x3(AddSpec::add_spec(self.0, rhs.0), AddSpec::add_spec(self.1, rhs.1))
    }
}

impl<T: Copy + core::ops::Sub<Output = T> + SubSpec> core::ops::Sub for Mat2x3<T> {
    type Output = Mat2x3<T>;

    /// Entrywise difference, column by column.
    fn sub(self, rhs: Mat2x3<T>) -> (r: Mat2x3<T>) {
        Mat2x3(self.0 - rhs.0, self.1 - rhs.1)
    }
}

impl<T: Copy + core::ops::Sub<Output = T> + SubSpec> SubSpecImpl for Mat2x3<T> {
    open spec fn obeys_sub_spec() -> bool {
        T::obeys_sub_spec()
    }

    open spec fn sub_req(self, rhs: Mat2x3<T>) -> bool {
        SubSpec::sub_req(self.0, rhs.0) && SubSpec::sub_req(self.1, rhs.1)
    }

    open spec fn sub_spec(self, rhs: Mat2x3<T>) -> Mat2x3<T> {
        Mat2x3(SubSpec::sub_spec(self.0, rhs.0), SubSpec::sub_spec(self.1, rhs.1))
    }
}

impl<T: Copy + core::ops::Add<Output = T> + AddSpec> core::ops::Add for Mat2x4<T> {
    type Output = Mat2x4<T>;

    /// Entrywise sum, column by column.
    fn add(self, rhs: Mat2x4<T>) -> (r: Mat2x4<T>) {
        Mat2x4(self.0 + rhs.0, self.1 + rhs.1)
    }
}

impl<T: Copy + core::ops::Add<Output = T> + AddSpec> AddSpecImpl for Mat2x4<T> {
    open spec fn obeys_add_spec() -> bool {
        T::obeys_add_spec()
    }

    open spec fn add_req(self, rhs: Mat2x4<T>) -> bool {
        AddSpec::add_req(self.0, rhs.0) && AddSpec::add_req(self.1, rhs.1)
    }

    open spec fn add_spec(self, rhs: Mat2x4<T>) -> Mat2x4<T> {
        Mat2x4(AddSpec::add_spec(self.0, rhs.0), AddSpec::add_spec(self.1, rhs.1))
    }
}

impl<T: Copy + core::ops::Sub<Output = T> + SubSpec> core::ops::Sub for Mat2x4<T> {
    type Output = Mat2x4<T>;

    /// Entrywise difference, column by column.
    fn sub(self, rhs: Mat2x4<T>) -> (r: Mat2x4<T>) {
        Mat2x4(self.0 - rhs.0, self.1 - rhs.1)
    }
}

impl<T: Copy + core::ops::Sub<Output = T> + SubSpec> SubSpecImpl for Mat2x4<T> {
    open spec fn obeys_sub_spec() -> bool {
        T::obeys_sub_spec()
    }

    open spec fn sub_req(self, rhs: Mat2x4<T>) -> bool {
        SubSpec::sub_req(self.0, rhs.0) && SubSpec::sub_req(self.1, rhs.1)
    }

    open spec fn sub_spec(self, rhs: Mat2x4<T>) -> Mat2x4<T> {
        Mat2x4(SubSpec::sub_spec(self.0, rhs.0), SubSpec::sub_spec(self.1, rhs.1))
    }
}

impl<T: Copy + core::ops::Add<Output = T> + AddSpec> core::ops::Add for Mat3<T> {
    type Output = Mat3<T>;

    /// Entrywise sum, column by column.
    fn add(self, rhs: Mat3<T>) -> (r: Mat3<T>) {
        Mat3(self.0 + rhs.0, self.1 + rhs.1, self.2 + rhs.2)
    }
}

impl<T: Copy + core::ops::Add<Output = T> + AddSpec> AddSpecImpl for Mat3<T> {
    open spec fn obeys_add_spec() -> bool {
        T::obeys_add_spec()
    }

    open spec fn add_req(self, rhs: Mat3<T>) -> bool {
        AddSpec::add_req(self.0, rhs.0) && AddSpec::add_req(self.1, rhs.1) && AddSpec::add_req(self.2, rhs.2)
    }

    open spec fn add_spec(self, rhs: Mat3<T>) -> Mat3<T> {
        Mat3(AddSpec::add_spec(self.0, rhs.0), AddSpec::add_spec(self.1, rhs.1), AddSpec::add_spec(self.2, rhs.2))
    }
}

impl<T: Copy + core::ops::Sub<Output = T> + SubSpec> core::ops::Sub for Mat3<T> {
    type Output = Mat3<T>;

    /// Entrywise difference, column by column.
    fn sub(self, rhs: Mat3<T>) -> (r: Mat3<T>) {
        Mat3(self.0 - rhs.0, self.1 - rhs.1, self.2 - rhs.2)
    }
}

impl<T: Copy + core::ops::Sub<Output = T> + SubSpec> SubSpecImpl for Mat3<T> {
    open spec fn obeys_sub_spec() -> bool {
        T::obeys_sub_spec()
    }

    open spec fn sub_req(self, rhs: Mat3<T>) -> bool {
        SubSpec::sub_req(self.0, rhs.0) && SubSpec::sub_req(self.1, rhs.1) && SubSpec::sub_req(self.2, rhs.2)
    }

    open spec fn sub_spec(self, rhs: Mat3<T>) -> Mat3<T> {
        Mat3(SubSpec::sub_spec(self.0, rhs.0), SubSpec::sub_spec(self.1, rhs.1), SubSpec::sub_spec(self.2, rhs.2))
    }
}

impl<T: Copy + core::ops::Add<Output = T> + AddSpec> core::ops::Add for Mat3x2<T> {
    type Output = Mat3x2<T>;

    /// Entrywise sum, column by column.
    fn add(self, rhs: Mat3x2<T>) -> (r: Mat3x2<T>) {
        Mat3x2(self.0 + rhs.0, self.1 + rhs.1, self.2 + rhs.2)
    }
}

impl<T: Copy + core::ops::Add<Output = T> + AddSpec> AddSpecImpl for Mat3x2<T> {
    open spec fn obeys_add_spec() -> bool {
        T::obeys_add_spec()
    }

    open spec fn add_req(self, rhs: Mat3x2<T>) -> bool {
        AddSpec::add_req(self.0, rhs.0) && AddSpec::add_req(self.1, rhs.1) && AddSpec::add_req(self.2, rhs.2)
    }

    open spec fn add_spec(self, rhs: Mat3x2<T>) -> Mat3x2<T> {
        Mat3x2(AddSpec::add_spec(self.0, rhs.0), AddSpec::add_spec(self.1, rhs.1), AddSpec::add_spec(self.2, rhs.2))
    }
}

impl<T: Copy + core::ops::Sub<Output = T> + SubSpec> core::ops::Sub for Mat3x2<T> {
    type Output = Mat3x2<T>;

    /// Entrywise difference, column by column.
    fn sub(self, rhs: Mat3x2<T>) -> (r: Mat3x2<T>) {
        Mat3x2(self.0 - rhs.0, self.1 - rhs.1, self.2 - rhs.2)
    }
}

impl<T: Copy + core::ops::Sub<Output = T> + SubSpec> SubSpecImpl for Mat3x2<T> {
    open spec fn obeys_sub_spec() -> bool {
        T::obeys_sub_spec()
    }

    open spec fn sub_req(self, rhs: Mat3x2<T>) -> bool {
        SubSpec::sub_req(self.0, rhs.0) && SubSpec::sub_req(self.1, rhs.1) && SubSpec::sub_req(self.2, rhs.2)
    }

    open spec fn sub_spec(self, rhs: Mat3x2<T>) -> Mat3x2<T> {
        Mat3x2(SubSpec::sub_spec(self.0, rhs.0), SubSpec::sub_spec(self.1, rhs.1), SubSpec::sub_spec(self.2, rhs.2))
    }
}

impl<T: Copy + core::ops::Add<Output = T> + AddSpec> core::ops::Add for Mat3x4<T> {
    type Output = Mat3x4<T>;

    /// Entrywise sum, column by column.
    fn add(self, rhs: Mat3x4<T>) -> (r: Mat3x4<T>) {
        Mat3x4(self.0 + rhs.0, self.1 + rhs.1, self.2 + rhs.2)
    }
}

impl<T: Copy + core::ops::Add<Output = T> + AddSpec> AddSpecImpl for Mat3x4<T> {
    open spec fn obeys_add_spec() -> bool {
        T::obeys_add_spec()
    }

    open spec fn add_req(self, rhs: Mat3x4<T>) -> bool {
        AddSpec::add_req(self.0, rhs.0) && AddSpec::add_req(self.1, rhs.1) && AddSpec::add_req(self.2, rhs.2)
    }

    open spec fn add_spec(self, rhs: Mat3x4<T>) -> Mat3x4<T> {
        Mat3x4(AddSpec::add_spec(self.0, rhs.0), AddSpec::add_spec(self.1, rhs.1), AddSpec::add_spec(self.2, rhs.2))
    }
}

impl<T: Copy + core::ops::Sub<Output = T> + SubSpec> core::ops::Sub for Mat3x4<T> {
    type Output = Mat3x4<T>;

    /// Entrywise difference, column by column.
    fn sub(self, rhs: Mat3x4<T>) -> (r: Mat3x4<T>) {
        Mat3x4(self.0 - rhs.0, self.1 - rhs.1, self.2 - rhs.2)
    }
}

impl<T: Copy + core::ops::Sub<Output = T> + SubSpec> SubSpecImpl for Mat3x4<T> {
    open spec fn obeys_sub_spec() -> bool {
        T::obeys_sub_spec()
    }

    open spec fn sub_req(self, rhs: Mat3x4<T>) -> bool {
        SubSpec::sub_req(self.0, rhs.0) && SubSpec::sub_req(self.1, rhs.1) && SubSpec::sub_req(self.2, rhs.2)
    }

    open spec fn sub_spec(self, rhs: Mat3x4<T>) -> Mat3x4<T> {
        Mat3x4(SubSpec::sub_spec(self.0, rhs.0), SubSpec::sub_spec(self.1, rhs.1), SubSpec::sub_spec(self.2, rhs.2))
    }
}

impl<T: Copy + core::ops::Add<Output = T> + AddSpec> core::ops::Add for Mat4<T> {
    type Output = Mat4<T>;

    /// Entrywise sum, column by column.
    fn add(self, rhs: Mat4<T>) -> (r: Mat4<T>) {
        Mat4(self.0 + rhs.0, self.1 + rhs.1, self.2 + rhs.2, self.3 + rhs.3)
    }
}

impl<T: Copy + core::ops::Add<Output = T> + AddSpec> AddSpecImpl for Mat4<T> {
    open spec fn obeys_add_spec() -> bool {
        T::obeys_add_spec()
    }

    open spec fn add_req(self, rhs: Mat4<T>) -> bool {
        AddSpec::add_req(self.0, rhs.0) && AddSpec::add_req(self.1, rhs.1) && AddSpec::add_req(self.2, rhs.2) && AddSpec::add_req(self.3, rhs.3)
    }

    open spec fn add_spec(self, rhs: Mat4<T>) -> Mat4<T> {
        Mat4(AddSpec::add_spec(self.0, rhs.0), AddSpec::add_spec(self.1, rhs.1), AddSpec::add_spec(self.2, rhs.2), AddSpec::add_spec(self.3, rhs.3))
    }
}

impl<T: Copy + core::ops::Sub<Output = T> + SubSpec> core::ops::Sub for Mat4<T> {
    type Output = Mat4<T>;

    /// Entrywise difference, column by column.
    fn sub(self, rhs: Mat4<T>) -> (r: Mat4<T>) {
        Mat4(self.0 - rhs.0, self.1 - rhs.1, self.2 - rhs.2, self.3 - rhs.3)
    }
}

impl<T: Copy + core::ops::Sub<Output = T> + SubSpec> SubSpecImpl for Mat4<T> {
    open spec fn obeys_sub_spec() -> bool {
        T::obeys_sub_spec()
    }

    open spec fn sub_req(self, rhs: Mat4<T>) -> bool {
        SubSpec::sub_req(self.0, rhs.0) && SubSpec::sub_req(self.1, rhs.1) && SubSpec::sub_req(self.2, rhs.2) && SubSpec::sub_req(self.3, rhs.3)
    }

    open spec fn sub_spec(self, rhs: Mat4<T>) -> Mat4<T> {
        Mat4(SubSpec::sub_spec(self.0, rhs.0), SubSpec::sub_spec(self.1, rhs.1), SubSpec::sub_spec(self.2, rhs.2), SubSpec::sub_spec(self.3, rhs.3))
    }
}

impl<T: Copy + core::ops::Add<Output = T> + AddSpec> core::ops::Add for Mat4x2<T> {
    type Output = Mat4x2<T>;

    /// Entrywise sum, column by column.
    fn add(self, rhs: Mat4x2<T>) -> (r: Mat4x2<T>) {
        Mat4x2(self.0 + rhs.0, self.1 + rhs.1, self.2 + rhs.2, self.3 + rhs.3)
    }
}

impl<T: Copy + core::ops::Add<Output = T> + AddSpec> AddSpecImpl for Mat4x2<T> {
    open spec fn obeys_add_spec() -> bool {
        T::obeys_add_spec()
    }

    open spec fn add_req(self, rhs: Mat4x2<T>) -> bool {
        AddSpec::add_req(self.0, rhs.0) && AddSpec::add_req(self.1, rhs.1) && AddSpec::add_req(self.2, rhs.2) && AddSpec::add_req(self.3, rhs.3)
    }

    open spec fn add_spec(self, rhs: Mat4x2<T>) -> Mat4x2<T> {
        Mat4x2(AddSpec::add_spec(self.0, rhs.0), AddSpec::add_spec(self.1, rhs.1), AddSpec::add_spec(self.2, rhs.2), AddSpec::add_spec(self.3, rhs.3))
    }
}

impl<T: Copy + core::ops::Sub<Output = T> + SubSpec> core::ops::Sub for Mat4x2<T> {
    type Output = Mat4x2<T>;

    /// Entrywise difference, column by column.
    fn sub(self, rhs: Mat4x2<T>) -> (r: Mat4x2<T>) {
        Mat4x2(self.0 - rhs.0, self.1 - rhs.1, self.2 - rhs.2, self.3 - rhs.3)
    }
}

impl<T: Copy + core::ops::Sub<Output = T> + SubSpec> SubSpecImpl for Mat4x2<T> {
    open spec fn obeys_sub_spec() -> bool {
        T::obeys_sub_spec()
    }

    open spec fn sub_req(self, rhs: Mat4x2<T>) -> bool {
        SubSpec::sub_req(self.0, rhs.0) && SubSpec::sub_req(self.1, rhs.1) && SubSpec::sub_req(self.2, rhs.2) && SubSpec::sub_req(self.3, rhs.3)
    }

    open spec fn sub_spec(self, rhs: Mat4x2<T>) -> Mat4x2<T> {
        Mat4x2(SubSpec::sub_spec(self.0, rhs.0), SubSpec::sub_spec(self.1, rhs.1), SubSpec::sub_spec(self.2, rhs.2), SubSpec::sub_spec(self.3, rhs.3))
    }
}

impl<T: Copy + core::ops::Add<Output = T> + AddSpec> core::ops::Add for Mat4x3<T> {
    type Output = Mat4x3<T>;

    /// Entrywise sum, column by column.
    fn add(self, rhs: Mat4x3<T>) -> (r: Mat4x3<T>) {
        Mat4x3(self.0 + rhs.0, self.1 + rhs.1, self.2 + rhs.2, self.3 + rhs.3)
    }
}

impl<T: Copy + core::ops::Add<Output = T> + AddSpec> AddSpecImpl for Mat4x3<T> {
    open spec fn obeys_add_spec() -> bool {
        T::obeys_add_spec()
    }

    open spec fn add_req(self, rhs: Mat4x3<T>) -> bool {
        AddSpec::add_req(self.0, rhs.0) && AddSpec::add_req(self.1, rhs.1) && AddSpec::add_req(self.2, rhs.2) && AddSpec::add_req(self.3, rhs.3)
    }

    open spec fn add_spec(self, rhs: Mat4x3<T>) -> Mat4x3<T> {
        Mat4x3(AddSpec::add_spec(self.0, rhs.0), AddSpec::add_spec(self.1, rhs.1), AddSpec::add_spec(self.2, rhs.2), AddSpec::add_spec(self.3, rhs.3))
    }
}

impl<T: Copy + core::ops::Sub<Output = T> + SubSpec> core::ops::Sub for Mat4x3<T> {
    type Output = Mat4x3<T>;

    /// Entrywise difference, column by column.
    fn sub(self, rhs: Mat4x3<T>) -> (r: Mat4x3<T>) {
        Mat4x3(self.0 - rhs.0, self.1 - rhs.1, self.2 - rhs.2, self.3 - rhs.3)
    }
}

impl<T: Copy + core::ops::Sub<Output = T> + SubSpec> SubSpecImpl for Mat4x3<T> {
    open spec fn obeys_sub_spec() -> bool {
        T::obeys_sub_spec()
    }

    open spec fn sub_req(self, rhs: Mat4x3<T>) -> bool {
        SubSpec::sub_req(self.0, rhs.0) && SubSpec::sub_req(self.1, rhs.1) && SubSpec::sub_req(self.2, rhs.2) && SubSpec::sub_req(self.3, rhs.3)
    }

    open spec fn sub_spec(self, rhs: Mat4x3<T>) -> Mat4x3<T> {
        Mat4x3(SubSpec::sub_spec(self.0, rhs.0), SubSpec::sub_spec(self.1, rhs.1), SubSpec::sub_spec(self.2, rhs.2), SubSpec::sub_spec(self.3, rhs.3))
    }
}

impl<T: Copy + core::ops::Div<Output = T> + DivSpec> core::ops::Div<T> for V2<T> {
    type Output = V2<T>;

    /// Componentwise division by the scalar.
    fn div(self, rhs: T) -> (r: V2<T>) {
        V2(self.0 / rhs, self.1 / rhs)
    }
}

impl<T: Copy + core::ops::Div<Output = T> + DivSpec> DivSpecImpl<T> for V2<T> {
    open spec fn obeys_div_spec() -> bool {
        T::obeys_div_spec()
    }

    open spec fn div_req(self, rhs: T) -> bool {
        DivSpec::div_req(self.0, rhs) && DivSpec::div_req(self.1, rhs)
    }

    open spec fn div_spec(self, rhs: T) -> V2<T> {
        V2(DivSpec::div_spec(self.0, rhs), DivSpec::div_spec(self.1, rhs))
    }
}

impl<T: Copy + core::ops::Mul<Output = T> + MulSpec> core::ops::Mul<T> for V2<T> {
    type Output = V2<T>;

    /// Componentwise multiplication by the scalar.
    fn mul(self, rhs: T) -> (r: V2<T>) {
        V2(self.0 * rhs, self.1 * rhs)
    }
}

impl<T: Copy + core::ops::Mul<Output = T> + MulSpec> MulSpecImpl<T> for V2<T> {
    open spec fn obeys_mul_spec() -> bool {
        T::obeys_mul_spec()
    }

    open spec fn mul_req(self, rhs: T) -> bool {
        MulSpec::mul_req(self.0, rhs) && MulSpec::mul_req(self.1, rhs)
    }

    open spec fn mul_spec(self, rhs: T) -> V2<T> {
        V2(MulSpec::mul_spec(self.0, rhs), MulSpec::mul_spec(self.1, rhs))
    }
}

impl<T: Copy + core::ops::Div<Output = T> + DivSpec> core::ops::Div<T> for V3<T> {
    type Output = V3<T>;

    /// Componentwise division by the scalar.
    fn div(self, rhs: T) -> (r: V3<T>) {
        V3(self.0 / rhs, self.1 / rhs, self.2 / rhs)
    }
}

impl<T: Copy + core::ops::Div<Output = T> + DivSpec> DivSpecImpl<T> for V3<T> {
    open spec fn obeys_div_spec() -> bool {
        T::obeys_div_spec()
    }

    open spec fn div_req(self, rhs: T) -> bool {
        DivSpec::div_req(self.0, rhs) && DivSpec::div_req(self.1, rhs) && DivSpec::div_req(self.2, rhs)
    }

    open spec fn div_spec(self, rhs: T) -> V3<T> {
        V3(DivSpec::div_spec(self.0, rhs), DivSpec::div_spec(self.1, rhs), DivSpec::div_spec(self.2, rhs))
    }
}

impl<T: Copy + core::ops::Mul<Output = T> + MulSpec> core::ops::Mul<T> for V3<T> {
    type Output = V3<T>;

    /// Componentwise multiplication by the scalar.
    fn mul(self, rhs: T) -> (r: V3<T>) {
        V3(self.0 * rhs, self.1 * rhs, self.2 * rhs)
    }
}

impl<T: Copy + core::ops::Mul<Output = T> + MulSpec> MulSpecImpl<T> for V3<T> {
    open spec fn obeys_mul_spec() -> bool {
        T::obeys_mul_spec()
    }

    open spec fn mul_req(self, rhs: T) -> bool {
        MulSpec::mul_req(self.0, rhs) && MulSpec::mul_req(self.1, rhs) && MulSpec::mul_req(self.2, rhs)
    }

    open spec fn mul_spec(self, rhs: T) -> V3<T> {
        V3(MulSpec::mul_spec(self.0, rhs), MulSpec::mul_spec(self.1, rhs), MulSpec::mul_spec(self.2, rhs))
    }
}

impl<T: Copy + core::ops::Div<Output = T> + DivSpec> core::ops::Div<T> for V4<T> {
    type Output = V4<T>;

    /// Componentwise division by the scalar.
    fn div(self, rhs: T) -> (r: V4<T>) {
        V4(self.0 / rhs, self.1 / rhs, self.2 / rhs, self.3 / rhs)
    }
}

impl<T: Copy + core::ops::Div<Output = T> + DivSpec> DivSpecImpl<T> for V4<T> {
    open spec fn obeys_div_spec() -> bool {
        T::obeys_div_spec()
    }

    open spec fn div_req(self, rhs: T) -> bool {
        DivSpec::div_req(self.0, rhs) && DivSpec::div_req(self.1, rhs) && DivSpec::div_req(self.2, rhs) && DivSpec::div_req(self.3, rhs)
    }

    open spec fn div_spec(self, rhs: T) -> V4<T> {
        V4(DivSpec::div_spec(self.0, rhs), DivSpec::div_spec(self.1, rhs), DivSpec::div_spec(self.2, rhs), DivSpec::div_spec(self.3, rhs))
    }
}

impl<T: Copy + core::ops::Mul<Output = T> + MulSpec> core::ops::Mul<T> for V4<T> {
    type Output = V4<T>;

    /// Componentwise multiplication by the scalar.
    fn mul(self, rhs: T) -> (r: V4<T>) {
        V4(self.0 * rhs, self.1 * rhs, self.2 * rhs, self.3 * rhs)
    }
}

impl<T: Copy + core::ops::Mul<Output = T> + MulSpec> MulSpecImpl<T> for V4<T> {
    open spec fn obeys_mul_spec() -> bool {
        T::obeys_mul_spec()
    }

    open spec fn mul_req(self, rhs: T) -> bool {
        MulSpec::mul_req(self.0, rhs) && MulSpec::mul_req(self.1, rhs) && MulSpec::mul_req(self.2, rhs) && MulSpec::mul_req(self.3, rhs)
    }

    open spec fn mul_spec(self, rhs: T) -> V4<T> {
        V4(MulSpec::mul_spec(self.0, rhs), MulSpec::mul_spec(self.1, rhs), MulSpec::mul_spec(self.2, rhs), MulSpec::mul_spec(self.3, rhs))
    }
}

impl<T: Copy + core::ops::Div<Output = T> + DivSpec> core::ops::Div<T> for Mat2<T> {
    type Output = Mat2<T>;

    /// Entrywise division by the scalar, column by column.
    fn div(self, rhs: T) -> (r: Mat2<T>) {
        Mat2(self.0 / rhs, self.1 / rhs)
    }
}

impl<T: Copy + core::ops::Div<Output = T> + DivSpec> DivSpecImpl<T> for Mat2<T> {
    open spec fn obeys_div_spec() -> bool {
        T::obeys_div_spec()
    }

    open spec fn div_req(self, rhs: T) -> bool {
        DivSpec::div_req(self.0, rhs) && DivSpec::div_req(self.1, rhs)
    }

    open spec fn div_spec(self, rhs: T) -> Mat2<T> {
        Mat2(DivSpec::div_spec(self.0, rhs), DivSpec::div_spec(self.1, rhs))
    }
}

impl<T: Copy + core::ops::Div<Output = T> + DivSpec> core::ops::Div<T> for Mat2x3<T> {
    type Output = Mat2x3<T>;

    /// Entrywise division by the scalar, column by column.
    fn div(self, rhs: T) -> (r: Mat2x3<T>) {
        Mat2x3(self.0 / rhs, self.1 / rhs)
    }
}

impl<T: Copy + core::ops::Div<Output = T> + DivSpec> DivSpecImpl<T> for Mat2x3<T> {
    open spec fn obeys_div_spec() -> bool {
        T::obeys_div_spec()
    }

    open spec fn div_req(self, rhs: T) -> bool {
        DivSpec::div_req(self.0, rhs) && DivSpec::div_req(self.1, rhs)
    }

    open spec fn div_spec(self, rhs: T) -> Mat2x3<T> {
        Mat2x3(DivSpec::div_spec(self.0, rhs), DivSpec::div_spec(self.1, rhs))
    }
}

impl<T: Copy + core::ops::Div<Output = T> + DivSpec> core::ops::Div<T> for Mat2x4<T> {
    type Output = Mat2x4<T>;

    /// Entrywise division by the scalar, column by column.
    fn div(self, rhs: T) -> (r: Mat2x4<T>) {
        Mat2x4(self.0 / rhs, self.1 / rhs)
    }
}

impl<T: Copy + core::ops::Div<Output = T> + DivSpec> DivSpecImpl<T> for Mat2x4<T> {
    open spec fn obeys_div_spec() -> bool {
        T::obeys_div_spec()
    }

    open spec fn div_req(self, rhs: T) -> bool {
        DivSpec::div_req(self.0, rhs) && DivSpec::div_req(self.1, rhs)
    }

    open spec fn div_spec(self, rhs: T) -> Mat2x4<T> {
        Mat2x4(DivSpec::div_spec(self.0, rhs), DivSpec::div_spec(self.1, rhs))
    }
}

impl<T: Copy + core::ops::Div<Output = T> + DivSpec> core::ops::Div<T> for Mat3<T> {
    type Output = Mat3<T>;

    /// Entrywise division by the scalar, column by column.
    fn div(self, rhs: T) -> (r: Mat3<T>) {
        Mat3(self.0 / rhs, self.1 / rhs, self.2 / rhs)
    }
}

impl<T: Copy + core::ops::Div<Output = T> + DivSpec> DivSpecImpl<T> for Mat3<T> {
    open spec fn obeys_div_spec() -> bool {
        T::obeys_div_spec()
    }

    open spec fn div_req(self, rhs: T) -> bool {
        DivSpec::div_req(self.0, rhs) && DivSpec::div_req(self.1, rhs) && DivSpec::div_req(self.2, rhs)
    }

    open spec fn div_spec(self, rhs: T) -> Mat3<T> {
        Mat3(DivSpec::div_spec(self.0, rhs), DivSpec::div_spec(self.1, rhs), DivSpec::div_spec(self.2, rhs))
    }
}

impl<T: Copy + core::ops::Div<Output = T> + DivSpec> core::ops::Div<T> for Mat3x2<T> {
    type Output = Mat3x2<T>;

    /// Entrywise division by the scalar, column by column.
    fn div(self, rhs: T) -> (r: Mat3x2<T>) {
        Mat3x2(self.0 / rhs, self.1 / rhs, self.2 / rhs)
    }
}

impl<T: Copy + core::ops::Div<Output = T> + DivSpec> DivSpecImpl<T> for Mat3x2<T> {
    open spec fn obeys_div_spec() -> bool {
        T::obeys_div_spec()
    }

    open spec fn div_req(self, rhs: T) -> bool {
        DivSpec::div_req(self.0, rhs) && DivSpec::div_req(self.1, rhs) && DivSpec::div_req(self.2, rhs)
    }

    open spec fn div_spec(self, rhs: T) -> Mat3x2<T> {
        Mat3x2(DivSpec::div_spec(self.0, rhs), DivSpec::div_spec(self.1, rhs), DivSpec::div_spec(self.2, rhs))
    }
}

impl<T: Copy + core::ops::Div<Output = T> + DivSpec> core::ops::Div<T> for Mat3x4<T> {
    type Output = Mat3x4<T>;

    /// Entrywise division by the scalar, column by column.
    fn div(self, rhs: T) -> (r: Mat3x4<T>) {
        Mat3x4(self.0 / rhs, self.1 / rhs, self.2 / rhs)
    }
}

impl<T: Copy + core::ops::Div<Output = T> + DivSpec> DivSpecImpl<T> for Mat3x4<T> {
    open spec fn obeys_div_spec() -> bool {
        T::obeys_div_spec()
    }

    open spec fn div_req(self, rhs: T) -> bool {
        DivSpec::div_req(self.0, rhs) && DivSpec::div_req(self.1, rhs) && DivSpec::div_req(self.2, rhs)
    }

    open spec fn div_spec(self, rhs: T) -> Mat3x4<T> {
        Mat3x4(DivSpec::div_spec(self.0, rhs), DivSpec::div_spec(self.1, rhs), DivSpec::div_spec(self.2, rhs))
    }
}

impl<T: Copy + core::ops::Div<Output = T> + DivSpec> core::ops::Div<T> for Mat4<T> {
    type Output = Mat4<T>;

    /// Entrywise division by the scalar, column by column.
    fn div(self, rhs: T) -> (r: Mat4<T>) {
        Mat4(self.0 / rhs, self.1 / rhs, self.2 / rhs, self.3 / rhs)
    }
}

impl<T: Copy + core::ops::Div<Output = T> + DivSpec> DivSpecImpl<T> for Mat4<T> {
    open spec fn obeys_div_spec() -> bool {
        T::obeys_div_spec()
    }

    open spec fn div_req(self, rhs: T) -> bool {
        DivSpec::div_req(self.0, rhs) && DivSpec::div_req(self.1, rhs) && DivSpec::div_req(self.2, rhs) && DivSpec::div_req(self.3, rhs)
    }

    open spec fn div_spec(self, rhs: T) -> Mat4<T> {
        Mat4(DivSpec::div_spec(self.0, rhs), DivSpec::div_spec(self.1, rhs), DivSpec::div_spec(self.2, rhs), DivSpec::div_spec(self.3, rhs))
    }
}

impl<T: Copy + core::ops::Div<Output = T> + DivSpec> core::ops::Div<T> for Mat4x2<T> {
    type Output = Mat4x2<T>;

    /// Entrywise division by the scalar, column by column.
    fn div(self, rhs: T) -> (r: Mat4x2<T>) {
        Mat4x2(self.0 / rhs, self.1 / rhs, self.2 / rhs, self.3 / rhs)
    }
}

impl<T: Copy + core::ops::Div<Output = T> + DivSpec> DivSpecImpl<T> for Mat4x2<T> {
    open spec fn obeys_div_spec() -> bool {
        T::obeys_div_spec()
    }

    open spec fn div_req(self, rhs: T) -> bool {
        DivSpec::div_req(self.0, rhs) && DivSpec::div_req(self.1, rhs) && DivSpec::div_req(self.2, rhs) && DivSpec::div_req(self.3, rhs)
    }

    open spec fn div_spec(self, rhs: T) -> Mat4x2<T> {
        Mat4x2(DivSpec::div_spec(self.0, rhs), DivSpec::div_spec(self.1, rhs), DivSpec::div_spec(self.2, rhs), DivSpec::div_spec(self.3, rhs))
    }
}

impl<T: Copy + core::ops::Div<Output = T> + DivSpec> core::ops::Div<T> for Mat4x3<T> {
    type Output = Mat4x3<T>;

    /// Entrywise division by the scalar, column by column.
    fn div(self, rhs: T) -> (r: Mat4x3<T>) {
        Mat4x3(self.0 / rhs, self.1 / rhs, self.2 / rhs, self.3 / rhs)
    }
}

impl<T: Copy + core::ops::Div<Output = T> + DivSpec> DivSpecImpl<T> for Mat4x3<T> {
    open spec fn obeys_div_spec() -> bool {
        T::obeys_div_spec()
    }

    open spec fn div_req(self, rhs: T) -> bool {
        DivSpec::div_req(self.0, rhs) && DivSpec::div_req(self.1, rhs) && DivSpec::div_req(self.2, rhs) && DivSpec::div_req(self.3, rhs)
    }

    open spec fn div_spec(self, rhs: T) -> Mat4x3<T> {
        Mat4x3(DivSpec::div_spec(self.0, rhs), DivSpec::div_spec(self.1, rhs), DivSpec::div_spec(self.2, rhs), DivSpec::div_spec(self.3, rhs))
    }
}

impl<T: Copy + core::ops::Mul<Output = T> + core::ops::Add<Output = T> + MulSpec + AddSpec> core::ops::Mul<V2<T>> for Mat2<T> {
    type Output = V2<T>;

    /// Matrix-vector product: each result component is the dot product
    /// of the matching row with `rhs`.
    fn mul(self, rhs: V2<T>) -> (r: V2<T>) {
        V2(self.0.0 * rhs.0 + self.1.0 * rhs.1, self.0.1 * rhs.0 + self.1.1 * rhs.1)
    }
}

impl<T: Copy + core::ops::Mul<Output = T> + core::ops::Add<Output = T> + MulSpec + AddSpec> MulSpecImpl<V2<T>> for Mat2<T> {
    open spec fn obeys_mul_spec() -> bool {
        T::obeys_mul_spec() && T::obeys_add_spec()
    }

    open spec fn mul_req(self, rhs: V2<T>) -> bool {
        dot2_req(V2(self.0.0, self.1.0), rhs) && dot2_req(V2(self.0.1, self.1.1), rhs)
    }

    open spec fn mul_spec(self, rhs: V2<T>) -> V2<T> {
        V2(dot2_spec(V2(self.0.0, self.1.0), rhs), dot2_spec(V2(self.0.1, self.1.1), rhs))
    }
}

impl<T: Copy + core::ops::Mul<Output = T> + core::ops::Add<Output = T> + MulSpec + AddSpec> core::ops::Mul<V2<T>> for Mat2x3<T> {
    type Output = V3<T>;

    /// Matrix-vector product: each result component is the dot product
    /// of the matching row with `rhs`.
    fn mul(self, rhs: V2<T>) -> (r: V3<T>) {
        V3(self.0.0 * rhs.0 + self.1.0 * rhs.1, self.0.1 * rhs.0 + self.1.1 * rhs.1, self.0.2 * rhs.0 + self.1.2 * rhs.1)
    }
}

impl<T: Copy + core::ops::Mul<Output = T> + core::ops::Add<Output = T> + MulSpec + AddSpec> MulSpecImpl<V2<T>> for Mat2x3<T> {
    open spec fn obeys_mul_spec() -> bool {
        T::obeys_mul_spec() && T::obeys_add_spec()
    }

    open spec fn mul_req(self, rhs: V2<T>) -> bool {
        dot2_req(V2(self.0.0, self.1.0), rhs) && dot2_req(V2(self.0.1, self.1.1), rhs) && dot2_req(V2(self.0.2, self.1.2), rhs)
    }

    open spec fn mul_spec(self, rhs: V2<T>) -> V3<T> {
        V3(dot2_spec(V2(self.0.0, self.1.0), rhs), dot2_spec(V2(self.0.1, self.1.1), rhs), dot2_spec(V2(self.0.2, self.1.2), rhs))
    }
}

impl<T: Copy + core::ops::Mul<Output = T> + core::ops::Add<Output = T> + MulSpec + AddSpec> core::ops::Mul<V2<T>> for Mat2x4<T> {
    type Output = V4<T>;

    /// Matrix-vector product: each result component is the dot product
    /// of the matching row with `rhs`.
    fn mul(self, rhs: V2<T>) -> (r: V4<T>) {
        V4(self.0.0 * rhs.0 + self.1.0 * rhs.1, self.0.1 * rhs.0 + self.1.1 * rhs.1, self.0.2 * rhs.0 + self.1.2 * rhs.1, self.0.3 * rhs.0 + self.1.3 * rhs.1)
    }
}

impl<T: Copy + core::ops::Mul<Output = T> + core::ops::Add<Output = T> + MulSpec + AddSpec> MulSpecImpl<V2<T>> for Mat2x4<T> {
    open spec fn obeys_mul_spec() -> bool {
        T::obeys_mul_spec() && T::obeys_add_spec()
    }

    open spec fn mul_req(self, rhs: V2<T>) -> bool {
        dot2_req(V2(self.0.0, self.1.0), rhs) && dot2_req(V2(self.0.1, self.1.1), rhs) && dot2_req(V2(self.0.2, self.1.2), rhs) && dot2_req(V2(self.0.3, self.1.3), rhs)
    }

    open spec fn mul_spec(self, rhs: V2<T>) -> V4<T> {
        V4(dot2_spec(V2(self.0.0, self.1.0), rhs), dot2_spec(V2(self.0.1, self.1.1), rhs), dot2_spec(V2(self.0.2, self.1.2), rhs), dot2_spec(V2(self.0.3, self.1.3), rhs))
    }
}

impl<T: Copy + core::ops::Mul<Output = T> + core::ops::Add<Output = T> + MulSpec + AddSpec> core::ops::Mul<V3<T>> for Mat3<T> {
    type Output = V3<T>;

    /// Matrix-vector product: each result component is the dot product
    /// of the matching row with `rhs`.
    fn mul(self, rhs: V3<T>) -> (r: V3<T>) {
        V3(self.0.0 * rhs.0 + self.1.0 * rhs.1 + self.2.0 * rhs.2, self.0.1 * rhs.0 + self.1.1 * rhs.1 + self.2.1 * rhs.2, self.0.2 * rhs.0 + self.1.2 * rhs.1 + self.2.2 * rhs.2)
    }
}

impl<T: Copy + core::ops::Mul<Output = T> + core::ops::Add<Output = T> + MulSpec + AddSpec> MulSpecImpl<V3<T>> for Mat3<T> {
    open spec fn obeys_mul_spec() -> bool {
        T::obeys_mul_spec() && T::obeys_add_spec()
    }

    open spec fn mul_req(self, rhs: V3<T>) -> bool {
        dot3_req(V3(self.0.0, self.1.0, self.2.0), rhs) && dot3_req(V3(self.0.1, self.1.1, self.2.1), rhs) && dot3_req(V3(self.0.2, self.1.2, self.2.2), rhs)
    }

    open spec fn mul_spec(self, rhs: V3<T>) -> V3<T> {
        V3(dot3_spec(V3(self.0.0, self.1.0, self.2.0), rhs), dot3_spec(V3(self.0.1, self.1.1, self.2.1), rhs), dot3_spec(V3(self.0.2, self.1.2, self.2.2), rhs))
    }
}

impl<T: Copy + core::ops::Mul<Output = T> + core::ops::Add<Output = T> + MulSpec + AddSpec> core::ops::Mul<V3<T>> for Mat3x2<T> {
    type Output = V2<T>;

    /// Matrix-vector product: each result component is the dot product
    /// of the matching row with `rhs`.
    fn mul(self, rhs: V3<T>) -> (r: V2<T>) {
        V2(self.0.0 * rhs.0 + self.1.0 * rhs.1 + self.2.0 * rhs.2, self.0.1 * rhs.0 + self.1.1 * rhs.1 + self.2.1 * rhs.2)
    }
}

impl<T: Copy + core::ops::Mul<Output = T> + core::ops::Add<Output = T> + MulSpec + AddSpec> MulSpecImpl<V3<T>> for Mat3x2<T> {
    open spec fn obeys_mul_spec() -> bool {
        T::obeys_mul_spec() && T::obeys_add_spec()
    }

    open spec fn mul_req(self, rhs: V3<T>) -> bool {
        dot3_req(V3(self.0.0, self.1.0, self.2.0), rhs) && dot3_req(V3(self.0.1, self.1.1, self.2.1), rhs)
    }

    open spec fn mul_spec(self, rhs: V3<T>) -> V2<T> {
        V2(dot3_spec(V3(self.0.0, self.1.0, self.2.0), rhs), dot3_spec(V3(self.0.1, self.1.1, self.2.1), rhs))
    }
}

impl<T: Copy + core::ops::Mul<Output = T> + core::ops::Add<Output = T> + MulSpec + AddSpec> core::ops::Mul<V3<T>> for Mat3x4<T> {
    type Output = V4<T>;

    /// Matrix-vector product: each result component is the dot product
    /// of the matching row with `rhs`.
    fn mul(self, rhs: V3<T>) -> (r: V4<T>) {
        V4(self.0.0 * rhs.0 + self.1.0 * rhs.1 + self.2.0 * rhs.2, self.0.1 * rhs.0 + self.1.1 * rhs.1 + self.2.1 * rhs.2, self.0.2 * rhs.0 + self.1.2 * rhs.1 + self.2.2 * rhs.2, self.0.3 * rhs.0 + self.1.3 * rhs.1 + self.2.3 * rhs.2)
    }
}

impl<T: Copy + core::ops::Mul<Output = T> + core::ops::Add<Output = T> + MulSpec + AddSpec> MulSpecImpl<V3<T>> for Mat3x4<T> {
    open spec fn obeys_mul_spec() -> bool {
        T::obeys_mul_spec() && T::obeys_add_spec()
    }

    open spec fn mul_req(self, rhs: V3<T>) -> bool {
        dot3_req(V3(self.0.0, self.1.0, self.2.0), rhs) && dot3_req(V3(self.0.1, self.1.1, self.2.1), rhs) && dot3_req(V3(self.0.2, self.1.2, self.2.2), rhs) && dot3_req(V3(self.0.3, self.1.3, self.2.3), rhs)
    }

    open spec fn mul_spec(self, rhs: V3<T>) -> V4<T> {
        V4(dot3_spec(V3(self.0.0, self.1.0, self.2.0), rhs), dot3_spec(V3(self.0.1, self.1.1, self.2.1), rhs), dot3_spec(V3(self.0.2, self.1.2, self.2.2), rhs), dot3_spec(V3(self.0.3, self.1.3, self.2.3), rhs))
    }
}

impl<T: Copy + core::ops::Mul<Output = T> + core::ops::Add<Output = T> + MulSpec + AddSpec> core::ops::Mul<V4<T>> for Mat4<T> {
    type Output = V4<T>;

    /// Matrix-vector product: each result component is the dot product
    /// of the matching row with `rhs`.
    fn mul(self, rhs: V4<T>) -> (r: V4<T>) {
        V4(self.0.0 * rhs.0 + self.1.0 * rhs.1 + self.2.0 * rhs.2 + self.3.0 * rhs.3, self.0.1 * rhs.0 + self.1.1 * rhs.1 + self.2.1 * rhs.2 + self.3.1 * rhs.3, self.0.2 * rhs.0 + self.1.2 * rhs.1 + self.2.2 * rhs.2 + self.3.2 * rhs.3, self.0.3 * rhs.0 + self.1.3 * rhs.1 + self.2.3 * rhs.2 + self.3.3 * rhs.3)
    }
}

impl<T: Copy + core::ops::Mul<Output = T> + core::ops::Add<Output = T> + MulSpec + AddSpec> MulSpecImpl<V4<T>> for Mat4<T> {
    open spec fn obeys_mul_spec() -> bool {
        T::obeys_mul_spec() && T::obeys_add_spec()
    }

    open spec fn mul_req(self, rhs: V4<T>) -> bool {
        dot4_req(V4(self.0.0, self.1.0, self.2.0, self.3.0), rhs) && dot4_req(V4(self.0.1, self.1.1, self.2.1, self.3.1), rhs) && dot4_req(V4(self.0.2, self.1.2, self.2.2, self.3.2), rhs) && dot4_req(V4(self.0.3, self.1.3, self.2.3, self.3.3), rhs)
    }

    open spec fn mul_spec(self, rhs: V4<T>) -> V4<T> {
        V4(dot4_spec(V4(self.0.0, self.1.0, self.2.0, self.3.0), rhs), dot4_spec(V4(self.0.1, self.1.1, self.2.1, self.3.1), rhs), dot4_spec(V4(self.0.2, self.1.2, self.2.2, self.3.2), rhs), dot4_spec(V4(self.0.3, self.1.3, self.2.3, self.3.3), rhs))
    }
}

impl<T: Copy + core::ops::Mul<Output = T> + core::ops::Add<Output = T> + MulSpec + AddSpec> core::ops::Mul<V4<T>> for Mat4x2<T> {
    type Output = V2<T>;

    /// Matrix-vector product: each result component is the dot product
    /// of the matching row with `rhs`.
    fn mul(self, rhs: V4<T>) -> (r: V2<T>) {
        V2(self.0.0 * rhs.0 + self.1.0 * rhs.1 + self.2.0 * rhs.2 + self.3.0 * rhs.3, self.0.1 * rhs.0 + self.1.1 * rhs.1 + self.2.1 * rhs.2 + self.3.1 * rhs.3)
    }
}

impl<T: Copy + core::ops::Mul<Output = T> + core::ops::Add<Output = T> + MulSpec + AddSpec> MulSpecImpl<V4<T>> for Mat4x2<T> {
    open spec fn obeys_mul_spec() -> bool {
        T::obeys_mul_spec() && T::obeys_add_spec()
    }

    open spec fn mul_req(self, rhs: V4<T>) -> bool {
        dot4_req(V4(self.0.0, self.1.0, self.2.0, self.3.0), rhs) && dot4_req(V4(self.0.1, self.1.1, self.2.1, self.3.1), rhs)
    }

    open spec fn mul_spec(self, rhs: V4<T>) -> V2<T> {
        V2(dot4_spec(V4(self.0.0, self.1.0, self.2.0, self.3.0), rhs), dot4_spec(V4(self.0.1, self.1.1, self.2.1, self.3.1), rhs))
    }
}

impl<T: Copy + core::ops::Mul<Output = T> + core::ops::Add<Output = T> + MulSpec + AddSpec> core::ops::Mul<V4<T>> for Mat4x3<T> {
    type Output = V3<T>;

    /// Matrix-vector product: each result component is the dot product
    /// of the matching row with `rhs`.
    fn mul(self, rhs: V4<T>) -> (r: V3<T>) {
        V3(self.0.0 * rhs.0 + self.1.0 * rhs.1 + self.2.0 * rhs.2 + self.3.0 * rhs.3, self.0.1 * rhs.0 + self.1.1 * rhs.1 + self.2.1 * rhs.2 + self.3.1 * rhs.3, self.0.2 * rhs.0 + self.1.2 * rhs.1 + self.2.2 * rhs.2 + self.3.2 * rhs.3)
    }
}

impl<T: Copy + core::ops::Mul<Output = T> + core::ops::Add<Output = T> + MulSpec + AddSpec> MulSpecImpl<V4<T>> for Mat4x3<T> {
    open spec fn obeys_mul_spec() -> bool {
        T::obeys_mul_spec() && T::obeys_add_spec()
    }

    open spec fn mul_req(self, rhs: V4<T>) -> bool {
        dot4_req(V4(self.0.0, self.1.0, self.2.0, self.3.0), rhs) && dot4_req(V4(self.0.1, self.1.1, self.2.1, self.3.1), rhs) && dot4_req(V4(self.0.2, self.1.2, self.2.2, self.3.2), rhs)
    }

    open spec fn mul_spec(self, rhs: V4<T>) -> V3<T> {
        V3(dot4_spec(V4(self.0.0, self.1.0, self.2.0, self.3.0), rhs), dot4_spec(V4(self.0.1, self.1.1, self.2.1, self.3.1), rhs), dot4_spec(V4(self.0.2, self.1.2, self.2.2, self.3.2), rhs))
    }
}

impl<T: Copy + core::ops::Mul<Output = T> + core::ops::Add<Output = T> + MulSpec + AddSpec> core::ops::Mul<Mat2<T>> for Mat2<T> {
    type Output = Mat2<T>;

    /// Matrix product: each result column is `self` applied to the
    /// matching column of `rhs`.
    fn mul(self, rhs: Mat2<T>) -> (r: Mat2<T>) {
        Mat2(self * rhs.0, self * rhs.1)
    }
}

impl<T: Copy + core::ops::Mul<Output = T> + core::ops::Add<Output = T> + MulSpec + AddSpec> MulSpecImpl<Mat2<T>> for Mat2<T> {
    open spec fn obeys_mul_spec() -> bool {
        T::obeys_mul_spec() && T::obeys_add_spec()
    }

    open spec fn mul_req(self, rhs: Mat2<T>) -> bool {
        MulSpec::mul_req(self, rhs.0) && MulSpec::mul_req(self, rhs.1)
    }

    open spec fn mul_spec(self, rhs: Mat2<T>) -> Mat2<T> {
        Mat2(MulSpec::mul_spec(self, rhs.0), MulSpec::mul_spec(self, rhs.1))
    }
}

impl<T: Copy + core::ops::Mul<Output = T> + core::ops::Add<Output = T> + MulSpec + AddSpec> core::ops::Mul<Mat3x2<T>> for Mat2<T> {
    type Output = Mat3x2<T>;

    /// Matrix product: each result column is `self` applied to the
    /// matching column of `rhs`.
    fn mul(self, rhs: Mat3x2<T>) -> (r: Mat3x2<T>) {
        Mat3x2(self * rhs.0, self * rhs.1, self * rhs.2)
    }
}

impl<T: Copy + core::ops::Mul<Output = T> + core::ops::Add<Output = T> + MulSpec + AddSpec> MulSpecImpl<Mat3x2<T>> for Mat2<T> {
    open spec fn obeys_mul_spec() -> bool {
        T::obeys_mul_spec() && T::obeys_add_spec()
    }

    open spec fn mul_req(self, rhs: Mat3x2<T>) -> bool {
        MulSpec::mul_req(self, rhs.0) && MulSpec::mul_req(self, rhs.1) && MulSpec::mul_req(self, rhs.2)
    }

    open spec fn mul_spec(self, rhs: Mat3x2<T>) -> Mat3x2<T> {
        Mat3x2(MulSpec::mul_spec(self, rhs.0), MulSpec::mul_spec(self, rhs.1), MulSpec::mul_spec(self, rhs.2))
    }
}

impl<T: Copy + core::ops::Mul<Output = T> + core::ops::Add<Output = T> + MulSpec + AddSpec> core::ops::Mul<Mat4x2<T>> for Mat2<T> {
    type Output = Mat4x2<T>;

    /// Matrix product: each result column is `self` applied to the
    /// matching column of `rhs`.
    fn mul(self, rhs: Mat4x2<T>) -> (r: Mat4x2<T>) {
        Mat4x2(self * rhs.0, self * rhs.1, self * rhs.2, self * rhs.3)
    }
}

impl<T: Copy + core::ops::Mul<Output = T> + core::ops::Add<Output = T> + MulSpec + AddSpec> MulSpecImpl<Mat4x2<T>> for Mat2<T> {
    open spec fn obeys_mul_spec() -> bool {
        T::obeys_mul_spec() && T::obeys_add_spec()
    }

    open spec fn mul_req(self, rhs: Mat4x2<T>) -> bool {
        MulSpec::mul_req(self, rhs.0) && MulSpec::mul_req(self, rhs.1) && MulSpec::mul_req(self, rhs.2) && MulSpec::mul_req(self, rhs.3)
    }

    open spec fn mul_spec(self, rhs: Mat4x2<T>) -> Mat4x2<T> {
        Mat4x2(MulSpec::mul_spec(self, rhs.0), MulSpec::mul_spec(self, rhs.1), MulSpec::mul_spec(self, rhs.2), MulSpec::mul_spec(self, rhs.3))
    }
}

impl<T: Copy + core::ops::Mul<Output = T> + core::ops::Add<Output = T> + MulSpec + AddSpec> core::ops::Mul<Mat2<T>> for Mat2x3<T> {
    type Output = Mat2x3<T>;

    /// Matrix product: each result column is `self` applied to the
    /// matching column of `rhs`.
    fn mul(self, rhs: Mat2<T>) -> (r: Mat2x3<T>) {
        Mat2x3(self * rhs.0, self * rhs.1)
    }
}

impl<T: Copy + core::ops::Mul<Output = T> + core::ops::Add<Output = T> + MulSpec + AddSpec> MulSpecImpl<Mat2<T>> for Mat2x3<T> {
    open spec fn obeys_mul_spec() -> bool {
        T::obeys_mul_spec() && T::obeys_add_spec()
    }

    open spec fn mul_req(self, rhs: Mat2<T>) -> bool {
        MulSpec::mul_req(self, rhs.0) && MulSpec::mul_req(self, rhs.1)
    }

    open spec fn mul_spec(self, rhs: Mat2<T>) -> Mat2x3<T> {
        Mat2x3(MulSpec::mul_spec(self, rhs.0), MulSpec::mul_spec(self, rhs.1))
    }
}

impl<T: Copy + core::ops::Mul<Output = T> + core::ops::Add<Output = T> + MulSpec + AddSpec> core::ops::Mul<Mat3x2<T>> for Mat2x3<T> {
    type Output = Mat3<T>;

    /// Matrix product: each result column is `self` applied to the
    /// matching column of `rhs`.
    fn mul(self, rhs: Mat3x2<T>) -> (r: Mat3<T>) {
        Mat3(self * rhs.0, self * rhs.1, self * rhs.2)
    }
}

impl<T: Copy + core::ops::Mul<Output = T> + core::ops::Add<Output = T> + MulSpec + AddSpec> MulSpecImpl<Mat3x2<T>> for Mat2x3<T> {
    open spec fn obeys_mul_spec() -> bool {
        T::obeys_mul_spec() && T::obeys_add_spec()
    }

    open spec fn mul_req(self, rhs: Mat3x2<T>) -> bool {
        MulSpec::mul_req(self, rhs.0) && MulSpec::mul_req(self, rhs.1) && MulSpec::mul_req(self, rhs.2)
    }

    open spec fn mul_spec(self, rhs: Mat3x2<T>) -> Mat3<T> {
        Mat3(MulSpec::mul_spec(self, rhs.0), MulSpec::mul_spec(self, rhs.1), MulSpec::mul_spec(self, rhs.2))
    }
}

impl<T: Copy + core::ops::Mul<Output = T> + core::ops::Add<Output = T> + MulSpec + AddSpec> core::ops::Mul<Mat2<T>> for Mat2x4<T> {
    type Output = Mat2x4<T>;

    /// Matrix product: each result column is `self` applied to the
    /// matching column of `rhs`.
    fn mul(self, rhs: Mat2<T>) -> (r: Mat2x4<T>) {
        Mat2x4(self * rhs.0, self * rhs.1)
    }
}

impl<T: Copy + core::ops::Mul<Output = T> + core::ops::Add<Output = T> + MulSpec + AddSpec> MulSpecImpl<Mat2<T>> for Mat2x4<T> {
    open spec fn obeys_mul_spec() -> bool {
        T::obeys_mul_spec() && T::obeys_add_spec()
    }

    open spec fn mul_req(self, rhs: Mat2<T>) -> bool {
        MulSpec::mul_req(self, rhs.0) && MulSpec::mul_req(self, rhs.1)
    }

    open spec fn mul_spec(self, rhs: Mat2<T>) -> Mat2x4<T> {
        Mat2x4(MulSpec::mul_spec(self, rhs.0), MulSpec::mul_spec(self, rhs.1))
    }
}

impl<T: Copy + core::ops::Mul<Output = T> + core::ops::Add<Output = T> + MulSpec + AddSpec> core::ops::Mul<Mat3x2<T>> for Mat2x4<T> {
    type Output = Mat3x4<T>;

    /// Matrix product: each result column is `self` applied to the
    /// matching column of `rhs`.
    fn mul(self, rhs: Mat3x2<T>) -> (r: Mat3x4<T>) {
        Mat3x4(self * rhs.0, self * rhs.1, self * rhs.2)
    }
}

impl<T: Copy + core::ops::Mul<Output = T> + core::ops::Add<Output = T> + MulSpec + AddSpec> MulSpecImpl<Mat3x2<T>> for Mat2x4<T> {
    open spec fn obeys_mul_spec() -> bool {
        T::obeys_mul_spec() && T::obeys_add_spec()
    }

    open spec fn mul_req(self, rhs: Mat3x2<T>) -> bool {
        MulSpec::mul_req(self, rhs.0) && MulSpec::mul_req(self, rhs.1) && MulSpec::mul_req(self, rhs.2)
    }

    open spec fn mul_spec(self, rhs: Mat3x2<T>) -> Mat3x4<T> {
        Mat3x4(MulSpec::mul_spec(self, rhs.0), MulSpec::mul_spec(self, rhs.1), MulSpec::mul_spec(self, rhs.2))
    }
}

impl<T: Copy + core::ops::Mul<Output = T> + core::ops::Add<Output = T> + MulSpec + AddSpec> core::ops::Mul<Mat4x2<T>> for Mat2x4<T> {
    type Output = Mat4<T>;

    /// Matrix product: each result column is `self` applied to the
    /// matching column of `rhs`.
    fn mul(self, rhs: Mat4x2<T>) -> (r: Mat4<T>) {
        Mat4(self * rhs.0, self * rhs.1, self * rhs.2, self * rhs.3)
    }
}

impl<T: Copy + core::ops::Mul<Output = T> + core::ops::Add<Output = T> + MulSpec + AddSpec> MulSpecImpl<Mat4x2<T>> for Mat2x4<T> {
    open spec fn obeys_mul_spec() -> bool {
        T::obeys_mul_spec() && T::obeys_add_spec()
    }

    open spec fn mul_req(self, rhs: Mat4x2<T>) -> bool {
        MulSpec::mul_req(self, rhs.0) && MulSpec::mul_req(self, rhs.1) && MulSpec::mul_req(self, rhs.2) && MulSpec::mul_req(self, rhs.3)
    }

    open spec fn mul_spec(self, rhs: Mat4x2<T>) -> Mat4<T> {
        Mat4(MulSpec::mul_spec(self, rhs.0), MulSpec::mul_spec(self, rhs.1), MulSpec::mul_spec(self, rhs.2), MulSpec::mul_spec(self, rhs.3))
    }
}

impl<T: Copy + core::ops::Mul<Output = T> + core::ops::Add<Output = T> + MulSpec + AddSpec> core::ops::Mul<Mat2x3<T>> for Mat3<T> {
    type Output = Mat2x3<T>;

    /// Matrix product: each result column is `self` applied to the
    /// matching column of `rhs`.
    fn mul(self, rhs: Mat2x3<T>) -> (r: Mat2x3<T>) {
        Mat2x3(self * rhs.0, self * rhs.1)
    }
}

impl<T: Copy + core::ops::Mul<Output = T> + core::ops::Add<Output = T> + MulSpec + AddSpec> MulSpecImpl<Mat2x3<T>> for Mat3<T> {
    open spec fn obeys_mul_spec() -> bool {
        T::obeys_mul_spec() && T::obeys_add_spec()
    }

    open spec fn mul_req(self, rhs: Mat2x3<T>) -> bool {
        MulSpec::mul_req(self, rhs.0) && MulSpec::mul_req(self, rhs.1)
    }

    open spec fn mul_spec(self, rhs: Mat2x3<T>) -> Mat2x3<T> {
        Mat2x3(MulSpec::mul_spec(self, rhs.0), MulSpec::mul_spec(self, rhs.1))
    }
}

impl<T: Copy + core::ops::Mul<Output = T> + core::ops::Add<Output = T> + MulSpec + AddSpec> core::ops::Mul<Mat4x3<T>> for Mat3<T> {
    type Output = Mat4x3<T>;

    /// Matrix product: each result column is `self` applied to the
    /// matching column of `rhs`.
    fn mul(self, rhs: Mat4x3<T>) -> (r: Mat4x3<T>) {
        Mat4x3(self * rhs.0, self * rhs.1, self * rhs.2, self * rhs.3)
    }
}

impl<T: Copy + core::ops::Mul<Output = T> + core::ops::Add<Output = T> + MulSpec + AddSpec> MulSpecImpl<Mat4x3<T>> for Mat3<T> {
    open spec fn obeys_mul_spec() -> bool {
        T::obeys_mul_spec() && T::obeys_add_spec()
    }

    open spec fn mul_req(self, rhs: Mat4x3<T>) -> bool {
        MulSpec::mul_req(self, rhs.0) && MulSpec::mul_req(self, rhs.1) && MulSpec::mul_req(self, rhs.2) && MulSpec::mul_req(self, rhs.3)
    }

    open spec fn mul_spec(self, rhs: Mat4x3<T>) -> Mat4x3<T> {
        Mat4x3(MulSpec::mul_spec(self, rhs.0), MulSpec::mul_spec(self, rhs.1), MulSpec::mul_spec(self, rhs.2), MulSpec::mul_spec(self, rhs.3))
    }
}

impl<T: Copy + core::ops::Mul<Output = T> + core::ops::Add<Output = T> + MulSpec + AddSpec> core::ops::Mul<Mat2x3<T>> for Mat3x2<T> {
    type Output = Mat2<T>;

    /// Matrix product: each result column is `self` applied to the
    /// matching column of `rhs`.
    fn mul(self, rhs: Mat2x3<T>) -> (r: Mat2<T>) {
        Mat2(self * rhs.0, self * rhs.1)
    }
}

impl<T: Copy + core::ops::Mul<Output = T> + core::ops::Add<Output = T> + MulSpec + AddSpec> MulSpecImpl<Mat2x3<T>> for Mat3x2<T> {
    open spec fn obeys_mul_spec() -> bool {
        T::obeys_mul_spec() && T::obeys_add_spec()
    }

    open spec fn mul_req(self, rhs: Mat2x3<T>) -> bool {
        MulSpec::mul_req(self, rhs.0) && MulSpec::mul_req(self, rhs.1)
    }

    open spec fn mul_spec(self, rhs: Mat2x3<T>) -> Mat2<T> {
        Mat2(MulSpec::mul_spec(self, rhs.0), MulSpec::mul_spec(self, rhs.1))
    }
}

impl<T: Copy + core::ops::Mul<Output = T> + core::ops::Add<Output = T> + MulSpec + AddSpec> core::ops::Mul<Mat4x3<T>> for Mat3x2<T> {
    type Output = Mat4x2<T>;

    /// Matrix product: each result column is `self` applied to the
    /// matching column of `rhs`.
    fn mul(self, rhs: Mat4x3<T>) -> (r: Mat4x2<T>) {
        Mat4x2(self * rhs.0, self * rhs.1, self * rhs.2, self * rhs.3)
    }
}

impl<T: Copy + core::ops::Mul<Output = T> + core::ops::Add<Output = T> + MulSpec + AddSpec> MulSpecImpl<Mat4x3<T>> for Mat3x2<T> {
    open spec fn obeys_mul_spec() -> bool {
        T::obeys_mul_spec() && T::obeys_add_spec()
    }

    open spec fn mul_req(self, rhs: Mat4x3<T>) -> bool {
        MulSpec::mul_req(self, rhs.0) && MulSpec::mul_req(self, rhs.1) && MulSpec::mul_req(self, rhs.2) && MulSpec::mul_req(self, rhs.3)
    }

    open spec fn mul_spec(self, rhs: Mat4x3<T>) -> Mat4x2<T> {
        Mat4x2(MulSpec::mul_spec(self, rhs.0), MulSpec::mul_spec(self, rhs.1), MulSpec::mul_spec(self, rhs.2), MulSpec::mul_spec(self, rhs.3))
    }
}

impl<T: Copy + core::ops::Mul<Output = T> + core::ops::Add<Output = T> + MulSpec + AddSpec> core::ops::Mul<Mat2x3<T>> for Mat3x4<T> {
    type Output = Mat2x4<T>;

    /// Matrix product: each result column is `self` applied to the
    /// matching column of `rhs`.
    fn mul(self, rhs: Mat2x3<T>) -> (r: Mat2x4<T>) {
        Mat2x4(self * rhs.0, self * rhs.1)
    }
}

impl<T: Copy + core::ops::Mul<Output = T> + core::ops::Add<Output = T> + MulSpec + AddSpec> MulSpecImpl<Mat2x3<T>> for Mat3x4<T> {
    open spec fn obeys_mul_spec() -> bool {
        T::obeys_mul_spec() && T::obeys_add_spec()
    }

    open spec fn mul_req(self, rhs: Mat2x3<T>) -> bool {
        MulSpec::mul_req(self, rhs.0) && MulSpec::mul_req(self, rhs.1)
    }

    open spec fn mul_spec(self, rhs: Mat2x3<T>) -> Mat2x4<T> {
        Mat2x4(MulSpec::mul_spec(self, rhs.0), MulSpec::mul_spec(self, rhs.1))
    }
}

impl<T: Copy + core::ops::Mul<Output = T> + core::ops::Add<Output = T> + MulSpec + AddSpec> core::ops::Mul<Mat3<T>> for Mat3x4<T> {
    type Output = Mat3x4<T>;

    /// Matrix product: each result column is `self` applied to the
    /// matching column of `rhs`.
    fn mul(self, rhs: Mat3<T>) -> (r: Mat3x4<T>) {
        Mat3x4(self * rhs.0, self * rhs.1, self * rhs.2)
    }
}

impl<T: Copy + core::ops::Mul<Output = T> + core::ops::Add<Output = T> + MulSpec + AddSpec> MulSpecImpl<Mat3<T>> for Mat3x4<T> {
    open spec fn obeys_mul_spec() -> bool {
        T::obeys_mul_spec() && T::obeys_add_spec()
    }

    open spec fn mul_req(self, rhs: Mat3<T>) -> bool {
        MulSpec::mul_req(self, rhs.0) && MulSpec::mul_req(self, rhs.1) && MulSpec::mul_req(self, rhs.2)
    }

    open spec fn mul_spec(self, rhs: Mat3<T>) -> Mat3x4<T> {
        Mat3x4(MulSpec::mul_spec(self, rhs.0), MulSpec::mul_spec(self, rhs.1), MulSpec::mul_spec(self, rhs.2))
    }
}

impl<T: Copy + core::ops::Mul<Output = T> + core::ops::Add<Output = T> + MulSpec + AddSpec> core::ops::Mul<Mat4x3<T>> for Mat3x4<T> {
    type Output = Mat4<T>;

    /// Matrix product: each result column is `self` applied to the
    /// matching column of `rhs`.
    fn mul(self, rhs: Mat4x3<T>) -> (r: Mat4<T>) {
        Mat4(self * rhs.0, self * rhs.1, self * rhs.2, self * rhs.3)
    }
}

impl<T: Copy + core::ops::Mul<Output = T> + core::ops::Add<Output = T> + MulSpec + AddSpec> MulSpecImpl<Mat4x3<T>> for Mat3x4<T> {
    open spec fn obeys_mul_spec() -> bool {
        T::obeys_mul_spec() && T::obeys_add_spec()
    }

    open spec fn mul_req(self, rhs: Mat4x3<T>) -> bool {
        MulSpec::mul_req(self, rhs.0) && MulSpec::mul_req(self, rhs.1) && MulSpec::mul_req(self, rhs.2) && MulSpec::mul_req(self, rhs.3)
    }

    open spec fn mul_spec(self, rhs: Mat4x3<T>) -> Mat4<T> {
        Mat4(MulSpec::mul_spec(self, rhs.0), MulSpec::mul_spec(self, rhs.1), MulSpec::mul_spec(self, rhs.2), MulSpec::mul_spec(self, rhs.3))
    }
}

impl<T: Copy + core::ops::Mul<Output = T> + core::ops::Add<Output = T> + MulSpec + AddSpec> core::ops::Mul<Mat2x4<T>> for Mat4<T> {
    type Output = Mat2x4<T>;

    /// Matrix product: each result column is `self` applied to the
    /// matching column of `rhs`.
    fn mul(self, rhs: Mat2x4<T>) -> (r: Mat2x4<T>) {
        Mat2x4(self * rhs.0, self * rhs.1)
    }
}

impl<T: Copy + core::ops::Mul<Output = T> + core::ops::Add<Output = T> + MulSpec + AddSpec> MulSpecImpl<Mat2x4<T>> for Mat4<T> {
    open spec fn obeys_mul_spec() -> bool {
        T::obeys_mul_spec() && T::obeys_add_spec()
    }

    open spec fn mul_req(self, rhs: Mat2x4<T>) -> bool {
        MulSpec::mul_req(self, rhs.0) && MulSpec::mul_req(self, rhs.1)
    }

    open spec fn mul_spec(self, rhs: Mat2x4<T>) -> Mat2x4<T> {
        Mat2x4(MulSpec::mul_spec(self, rhs.0), MulSpec::mul_spec(self, rhs.1))
    }
}

impl<T: Copy + core::ops::Mul<Output = T> + core::ops::Add<Output = T> + MulSpec + AddSpec> core::ops::Mul<Mat3x4<T>> for Mat4<T> {
    type Output = Mat3x4<T>;

    /// Matrix product: each result column is `self` applied to the
    /// matching column of `rhs`.
    fn mul(self, rhs: Mat3x4<T>) -> (r: Mat3x4<T>) {
        Mat3x4(self * rhs.0, self * rhs.1, self * rhs.2)
    }
}

impl<T: Copy + core::ops::Mul<Output = T> + core::ops::Add<Output = T> + MulSpec + AddSpec> MulSpecImpl<Mat3x4<T>> for Mat4<T> {
    open spec fn obeys_mul_spec() -> bool {
        T::obeys_mul_spec() && T::obeys_add_spec()
    }

    open spec fn mul_req(self, rhs: Mat3x4<T>) -> bool {
        MulSpec::mul_req(self, rhs.0) && MulSpec::mul_req(self, rhs.1) && MulSpec::mul_req(self, rhs.2)
    }

    open spec fn mul_spec(self, rhs: Mat3x4<T>) -> Mat3x4<T> {
        Mat3x4(MulSpec::mul_spec(self, rhs.0), MulSpec::mul_spec(self, rhs.1), MulSpec::mul_spec(self, rhs.2))
    }
}

impl<T: Copy + core::ops::Mul<Output = T> + core::ops::Add<Output = T> + MulSpec + AddSpec> core::ops::Mul<Mat4<T>> for Mat4<T> {
    type Output = Mat4<T>;

    /// Matrix product: each result column is `self` applied to the
    /// matching column of `rhs`.
    fn mul(self, rhs: Mat4<T>) -> (r: Mat4<T>) {
        Mat4(self * rhs.0, self * rhs.1, self * rhs.2, self * rhs.3)
    }
}

impl<T: Copy + core::ops::Mul<Output = T> + core::ops::Add<Output = T> + MulSpec + AddSpec> MulSpecImpl<Mat4<T>> for Mat4<T> {
    open spec fn obeys_mul_spec() -> bool {
        T::obeys_mul_spec() && T::obeys_add_spec()
    }

    open spec fn mul_req(self, rhs: Mat4<T>) -> bool {
        MulSpec::mul_req(self, rhs.0) && MulSpec::mul_req(self, rhs.1) && MulSpec::mul_req(self, rhs.2) && MulSpec::mul_req(self, rhs.3)
    }

    open spec fn mul_spec(self, rhs: Mat4<T>) -> Mat4<T> {
        Mat4(MulSpec::mul_spec(self, rhs.0), MulSpec::mul_spec(self, rhs.1), MulSpec::mul_spec(self, rhs.2), MulSpec::mul_spec(self, rhs.3))
    }
}

impl<T: Copy + core::ops::Mul<Output = T> + core::ops::Add<Output = T> + MulSpec + AddSpec> core::ops::Mul<Mat2x4<T>> for Mat4x2<T> {
    type Output = Mat2<T>;

    /// Matrix product: each result column is `self` applied to the
    /// matching column of `rhs`.
    fn mul(self, rhs: Mat2x4<T>) -> (r: Mat2<T>) {
        Mat2(self * rhs.0, self * rhs.1)
    }
}

impl<T: Copy + core::ops::Mul<Output = T> + core::ops::Add<Output = T> + MulSpec + AddSpec> MulSpecImpl<Mat2x4<T>> for Mat4x2<T> {
    open spec fn obeys_mul_spec() -> bool {
        T::obeys_mul_spec() && T::obeys_add_spec()
    }

    open spec fn mul_req(self, rhs: Mat2x4<T>) -> bool {
        MulSpec::mul_req(self, rhs.0) && MulSpec::mul_req(self, rhs.1)
    }

    open spec fn mul_spec(self, rhs: Mat2x4<T>) -> Mat2<T> {
        Mat2(MulSpec::mul_spec(self, rhs.0), MulSpec::mul_spec(self, rhs.1))
    }
}

impl<T: Copy + core::ops::Mul<Output = T> + core::ops::Add<Output = T> + MulSpec + AddSpec> core::ops::Mul<Mat3x4<T>> for Mat4x2<T> {
    type Output = Mat3x2<T>;

    /// Matrix product: each result column is `self` applied to the
    /// matching column of `rhs`.
    fn mul(self, rhs: Mat3x4<T>) -> (r: Mat3x2<T>) {
        Mat3x2(self * rhs.0, self * rhs.1, self * rhs.2)
    }
}

impl<T: Copy + core::ops::Mul<Output = T> + core::ops::Add<Output = T> + MulSpec + AddSpec> MulSpecImpl<Mat3x4<T>> for Mat4x2<T> {
    open spec fn obeys_mul_spec() -> bool {
        T::obeys_mul_spec() && T::obeys_add_spec()
    }

    open spec fn mul_req(self, rhs: Mat3x4<T>) -> bool {
        MulSpec::mul_req(self, rhs.0) && MulSpec::mul_req(self, rhs.1) && MulSpec::mul_req(self, rhs.2)
    }

    open spec fn mul_spec(self, rhs: Mat3x4<T>) -> Mat3x2<T> {
        Mat3x2(MulSpec::mul_spec(self, rhs.0), MulSpec::mul_spec(self, rhs.1), MulSpec::mul_spec(self, rhs.2))
    }
}

impl<T: Copy + core::ops::Mul<Output = T> + core::ops::Add<Output = T> + MulSpec + AddSpec> core::ops::Mul<Mat4<T>> for Mat4x2<T> {
    type Output = Mat4x2<T>;

    /// Matrix product: each result column is `self` applied to the
    /// matching column of `rhs`.
    fn mul(self, rhs: Mat4<T>) -> (r: Mat4x2<T>) {
        Mat4x2(self * rhs.0, self * rhs.1, self * rhs.2, self * rhs.3)
    }
}

impl<T: Copy + core::ops::Mul<Output = T> + core::ops::Add<Output = T> + MulSpec + AddSpec> MulSpecImpl<Mat4<T>> for Mat4x2<T> {
    open spec fn obeys_mul_spec() -> bool {
        T::obeys_mul_spec() && T::obeys_add_spec()
    }

    open spec fn mul_req(self, rhs: Mat4<T>) -> bool {
        MulSpec::mul_req(self, rhs.0) && MulSpec::mul_req(self, rhs.1) && MulSpec::mul_req(self, rhs.2) && MulSpec::mul_req(self, rhs.3)
    }

    open spec fn mul_spec(self, rhs: Mat4<T>) -> Mat4x2<T> {
        Mat4x2(MulSpec::mul_spec(self, rhs.0), MulSpec::mul_spec(self, rhs.1), MulSpec::mul_spec(self, rhs.2), MulSpec::mul_spec(self, rhs.3))
    }
}

impl<T: Copy + core::ops::Mul<Output = T> + core::ops::Add<Output = T> + MulSpec + AddSpec> core::ops::Mul<Mat2x4<T>> for Mat4x3<T> {
    type Output = Mat2x3<T>;

    /// Matrix product: each result column is `self` applied to the
    /// matching column of `rhs`.
    fn mul(self, rhs: Mat2x4<T>) -> (r: Mat2x3<T>) {
        Mat2x3(self * rhs.0, self * rhs.1)
    }
}

impl<T: Copy + core::ops::Mul<Output = T> + core::ops::Add<Output = T> + MulSpec + AddSpec> MulSpecImpl<Mat2x4<T>> for Mat4x3<T> {
    open spec fn obeys_mul_spec() -> bool {
        T::obeys_mul_spec() && T::obeys_add_spec()
    }

    open spec fn mul_req(self, rhs: Mat2x4<T>) -> bool {
        MulSpec::mul_req(self, rhs.0) && MulSpec::mul_req(self, rhs.1)
    }

    open spec fn mul_spec(self, rhs: Mat2x4<T>) -> Mat2x3<T> {
        Mat2x3(MulSpec::mul_spec(self, rhs.0), MulSpec::mul_spec(self, rhs.1))
    }
}

impl<T: Copy + core::ops::Mul<Output = T> + core::ops::Add<Output = T> + MulSpec + AddSpec> core::ops::Mul<Mat3x4<T>> for Mat4x3<T> {
    type Output = Mat3<T>;

    /// Matrix product: each result column is `self` applied to the
    /// matching column of `rhs`.
    fn mul(self, rhs: Mat3x4<T>) -> (r: Mat3<T>) {
        Mat3(self * rhs.0, self * rhs.1, self * rhs.2)
    }
}

impl<T: Copy + core::ops::Mul<Output = T> + core::ops::Add<Output = T> + MulSpec + AddSpec> MulSpecImpl<Mat3x4<T>> for Mat4x3<T> {
    open spec fn obeys_mul_spec() -> bool {
        T::obeys_mul_spec() && T::obeys_add_spec()
    }

    open spec fn mul_req(self, rhs: Mat3x4<T>) -> bool {
        MulSpec::mul_req(self, rhs.0) && MulSpec::mul_req(self, rhs.1) && MulSpec::mul_req(self, rhs.2)
    }

    open spec fn mul_spec(self, rhs: Mat3x4<T>) -> Mat3<T> {
        Mat3(MulSpec::mul_spec(self, rhs.0), MulSpec::mul_spec(self, rhs.1), MulSpec::mul_spec(self, rhs.2))
    }
}

impl<T: Copy + core::ops::Mul<Output = T> + core::ops::Add<Output = T> + MulSpec + AddSpec> core::ops::Mul<Mat4<T>> for Mat4x3<T> {
    type Output = Mat4x3<T>;

    /// Matrix product: each result column is `self` applied to the
    /// matching column of `rhs`.
    fn mul(self, rhs: Mat4<T>) -> (r: Mat4x3<T>) {
        Mat4x3(self * rhs.0, self * rhs.1, self * rhs.2, self * rhs.3)
    }
}

impl<T: Copy + core::ops::Mul<Output = T> + core::ops::Add<Output = T> + MulSpec + AddSpec> MulSpecImpl<Mat4<T>> for Mat4x3<T> {
    open spec fn obeys_mul_spec() -> bool {
        T::obeys_mul_spec() && T::obeys_add_spec()
    }

    open spec fn mul_req(self, rhs: Mat4<T>) -> bool {
        MulSpec::mul_req(self, rhs.0) && MulSpec::mul_req(self, rhs.1) && MulSpec::mul_req(self, rhs.2) && MulSpec::mul_req(self, rhs.3)
    }

    open spec fn mul_spec(self, rhs: Mat4<T>) -> Mat4x3<T> {
        Mat4x3(MulSpec::mul_spec(self, rhs.0), MulSpec::mul_spec(self, rhs.1), MulSpec::mul_spec(self, rhs.2), MulSpec::mul_spec(self, rhs.3))
    }
}

} // verus!
