//! The shader-facing type vocabulary: precision qualifiers, the primitive
//! shader types, layout placement, and the marker trait that admits a Rust
//! type into a shader interface.

use crate::math::Mat2;
use crate::math::Mat2x3;
use crate::math::Mat2x4;
use crate::math::Mat3;
use crate::math::Mat3x2;
use crate::math::Mat3x4;
use crate::math::Mat4;
use crate::math::Mat4x2;
use crate::math::Mat4x3;
use crate::math::V2;
use crate::math::V3;
use crate::math::V4;
use vstd::prelude::*;

verus! {

/// A precision qualifier; `Unspecified` leaves the choice to the target.
pub enum Precision {
    Unspecified,
    Low,
    Medium,
    High,
}

impl Default for Precision {
    /// The default qualifier leaves precision unspecified.
    fn default() -> (r: Precision)
        ensures
            r is Unspecified,
    {
        Precision::Unspecified
    }
}

/// A primitive shader type.
pub enum Type {
    Bool,
    Int,
    UInt,
    Float,
    Double,
    Vec2f,
    Vec3f,
    Vec4f,
    Vec2i,
}

/// How a laid-out value is addressed by the pipeline.
pub enum Location {
    Unset,
    At(usize),
}

/// The memory layout family of a buffer-backed value.
pub enum LayoutKind {
    Plain,
    UniformBufferObject,
    StorageBufferObject,
}

/// A value together with its layout placement in a shader interface.
pub struct Layout<T> {
    pub value: T,
    pub kind: LayoutKind,
    pub location: Location,
}

/// Marker for types that can cross the shader interface.
pub trait ShaderType {

}

impl ShaderType for bool {

}

impl ShaderType for i32 {

}

impl ShaderType for u32 {

}

impl<T: ShaderType> ShaderType for V2<T> {

}

impl<T: ShaderType> ShaderType for V3<T> {

}

impl<T: ShaderType> ShaderType for V4<T> {

}

impl<T: ShaderType> ShaderType for Mat2<T> {

}

impl<T: ShaderType> ShaderType for Mat2x3<T> {

}

impl<T: ShaderType> ShaderType for Mat2x4<T> {

}

impl<T: ShaderType> ShaderType for Mat3<T> {

}

impl<T: ShaderType> ShaderType for Mat3x2<T> {

}

impl<T: ShaderType> ShaderType for Mat3x4<T> {

}

impl<T: ShaderType> ShaderType for Mat4<T> {

}

impl<T: ShaderType> ShaderType for Mat4x2<T> {

}

impl<T: ShaderType> ShaderType for Mat4x3<T> {

}

/// A vertex attribute carrying a shader-typed value.
pub struct Attribute<T: ShaderType> {
    pub value: T,
}

} // verus!
