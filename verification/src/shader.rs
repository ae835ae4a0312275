//! The shader entry-point traits that user code implements, one per
//! pipeline stage, and the uniform wrapper handed across the interface.
//! The tool-chain only names these surfaces; their behaviour belongs to the
//! implementing shader.

use vstd::prelude::*;

verus! {

/// A value bound as a uniform across a whole draw call.
pub struct Uniform<T>(pub T);

/// A geometry-stage shader.
pub trait GeometryShader<T> {
    /// Produces the stage output.
    fn geometry(&self) -> T;
}

/// A tessellation-control-stage shader.
pub trait TessalationControlShader<T> {
    /// Transforms the stage inputs into control outputs.
    fn control(&self, inputs: &T) -> T;
}

/// A tessellation-evaluation-stage shader.
pub trait TessalationEvaluateShader<T> {
    /// Evaluates the tessellated patch.
    fn tessalate(&self, inputs: &T) -> T;
}

/// A fragment-stage shader.
pub trait FragmentShader<T> {
    /// Transforms interpolated inputs into fragment outputs.
    fn fragment(&self, inputs: &T) -> T;
}

/// A compute-stage shader.
pub trait ComputeShader<T> {
    /// Runs the compute kernel and returns its result.
    fn compute(&self) -> T;
}

} // verus!
