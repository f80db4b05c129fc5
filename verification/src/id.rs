//! Identifiers and the closed sets of backends and resource kinds.

use vstd::prelude::*;

verus! {

/// The accelerator backend an identifier belongs to. The set is closed and
/// known at build time; identifiers from different backends are never
/// interchangeable.
#[derive(Clone, Copy, Debug, PartialEq, Eq, Structural)]
pub enum Backend {
    Vulkan,
    Metal,
    Dx12,
    Gl,
    WebGpu,
}

/// The category of GPU object an identifier names. One registry exists per
/// kind, so counters for different kinds advance independently.
#[derive(Clone, Copy, Debug, PartialEq, Eq, Structural)]
pub enum ResourceKind {
    Adapter,
    Device,
    Buffer,
    Texture,
    TextureView,
    Sampler,
    BindGroup,
    BindGroupLayout,
    PipelineLayout,
    ShaderModule,
    CommandEncoder,
    RenderPipeline,
    ComputePipeline,
    RenderBundle,
}

/// An opaque handle naming one GPU-side resource: a zero-based per-kind,
/// per-backend index, a generation (fixed at 1 while no slot is ever
/// recycled, but representable so recycling can bump it), and the backend
/// tag.
#[derive(Clone, Copy, Debug, PartialEq, Eq, Structural)]
pub struct Identifier {
    pub index: u64,
    pub generation: u64,
    pub backend: Backend,
}

/// Identifiers allocated for different backends never compare equal, even
/// when index and generation coincide.
pub proof fn lemma_backend_isolation(a: Identifier, b: Identifier)
    requires
        a.backend != b.backend,
    ensures
        a != b,
{
}

} // verus!
