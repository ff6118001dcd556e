//! Backend-agnostic shader programs: linking compiled stages, typed access to
//! uniform variables and a release of the backend resource that happens once.

mod program;
mod stage;
mod uniform;

pub use program::{link_arguments, pair_tessellation, HasProgram, LinkedProgram, Program, ProgramError};
pub use stage::{
    FragmentShader, GeometryShader, HasStage, Stage, TessellationControlShader,
    TessellationEvaluationShader, VertexShader,
};
pub use uniform::{string_name, typed_uniform, HasUniform, Uniform, UniformKey, UniformName, Uniformable};
