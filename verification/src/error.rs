use vstd::prelude::*;

verus! {

/// The two pipeline stages a shader object can belong to.
#[derive(Clone, Copy, Debug, PartialEq, Eq, Structural)]
pub enum ShaderStage {
    Vertex,
    Fragment,
}

/// Everything that can go wrong while building the scene: a creation call
/// that returned the null handle, a compile that failed with the compiler's
/// log, or a link that failed with the linker's log.
///
/// Every fallible operation reports a distinguishable variant, and the
/// compile and link variants carry the driver's diagnostic text verbatim.
#[derive(Debug, PartialEq, Eq)]
pub enum GlError {
    VertexArrayCreation,
    BufferCreation,
    ShaderCreation(ShaderStage),
    ProgramCreation,
    CompileFailed(ShaderStage, String),
    LinkFailed(String),
}

} // verus!
