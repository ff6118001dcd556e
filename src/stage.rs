//! Compiled shader stages, tagged at the type level by the kind of stage.

use core::marker::PhantomData;
use vstd::prelude::*;

verus! {

/// A backend able to hold compiled shader stages.
pub trait HasStage {
    /// The backend's own representation of a compiled stage.
    type AStage;
}

/// Kind tag of a vertex stage.
pub struct VertexShader;

/// Kind tag of a tessellation control stage.
pub struct TessellationControlShader;

/// Kind tag of a tessellation evaluation stage.
pub struct TessellationEvaluationShader;

/// Kind tag of a geometry stage.
pub struct GeometryShader;

/// Kind tag of a fragment stage.
pub struct FragmentShader;

/// A compiled stage of kind `K`, owned by the caller and only borrowed when a
/// program is linked.
pub struct Stage<C: HasStage, K> {
    pub repr: C::AStage,
    pub kind: PhantomData<K>,
}

impl<C: HasStage, K> Stage<C, K> {
    /// Tags a compiled stage of the backend with its kind.
    pub fn new(repr: C::AStage) -> (r: Self)
        ensures
            r.repr == repr,
    {
        Stage { repr, kind: PhantomData }
    }
}

} // verus!
