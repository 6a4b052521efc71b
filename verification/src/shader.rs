//! Shader stages and the driver's answers to compile and link requests.

use vstd::prelude::*;

verus! {

/// The two shader stages a program is linked from.
#[derive(Clone, Copy, Debug, PartialEq, Eq, Structural)]
pub enum ShaderKind {
    Vertex,
    Fragment,
}

/// The driver's answer to a compile request: either the source was
/// accepted, or it was rejected together with the driver's diagnostic
/// log.
pub enum CompileVerdict {
    Accepted,
    Rejected(String),
}

/// The driver's answer to a link request, with the diagnostic log on
/// rejection.
pub enum LinkVerdict {
    Accepted,
    Rejected(String),
}

impl CompileVerdict {
    /// Whether the driver accepted the source.
    pub open spec fn is_accepted(&self) -> bool {
        matches!(self, CompileVerdict::Accepted)
    }
}

impl LinkVerdict {
    /// Whether the driver accepted the link request.
    pub open spec fn is_accepted(&self) -> bool {
        matches!(self, LinkVerdict::Accepted)
    }
}

/// An owned handle to a shader the driver reported as compiled.
///
/// A handle is only ever returned for a successful compile, so holding
/// one means the shader it names reached the compiled state.
#[derive(Clone, Copy, Debug, PartialEq, Eq, Structural)]
pub struct ShaderHandle {
    pub id: usize,
}

/// An owned handle to a program the driver reported as linked.
#[derive(Clone, Copy, Debug, PartialEq, Eq, Structural)]
pub struct ProgramHandle {
    pub id: usize,
}

} // verus!
