//! The resource hub: one identity registry per resource kind.

use vstd::prelude::*;

use crate::id::{Backend, Identifier, ResourceKind};
use crate::registry::IdentityRegistry;

verus! {

/// Owns one [`IdentityRegistry`] per resource kind and routes allocation
/// requests to the right one. One hub exists per logical GPU context; the set
/// of kinds is fixed at compile time, and only the registries' counters ever
/// change. The hub performs no validation of its own: every failure a caller
/// can see originates in the external driver, never in identity allocation.
pub struct ResourceHub {
    adapters: IdentityRegistry,
    devices: IdentityRegistry,
    buffers: IdentityRegistry,
    textures: IdentityRegistry,
    texture_views: IdentityRegistry,
    samplers: IdentityRegistry,
    bind_groups: IdentityRegistry,
    bind_group_layouts: IdentityRegistry,
    pipeline_layouts: IdentityRegistry,
    shader_modules: IdentityRegistry,
    command_encoders: IdentityRegistry,
    render_pipelines: IdentityRegistry,
    compute_pipelines: IdentityRegistry,
    render_bundles: IdentityRegistry,
}

/// The identifier a creation call will carry: the caller-supplied one when
/// there is one, otherwise the next fresh identifier of `hub` for the kind
/// and backend.
pub open spec fn prepared_id(
    hub: ResourceHub,
    kind: ResourceKind,
    backend: Backend,
    provided: Option<Identifier>,
) -> Identifier {
    match provided {
        Some(p) => p,
        None => Identifier { index: hub.counter(kind, backend), generation: 1, backend },
    }
}

/// The identifiers a creation call with implicit layout derivation receives:
/// one root pipeline-layout identifier plus one bind-group-layout identifier
/// per bind group the shader actually references, assigned in ascending
/// bind-group-index order.
pub struct ImplicitLayoutIds {
    pub root: Identifier,
    pub groups: Vec<Identifier>,
}

impl ResourceHub {
    /// The registry that names resources of `kind`.
    pub closed spec fn registry(self, kind: ResourceKind) -> IdentityRegistry {
        match kind {
            ResourceKind::Adapter => self.adapters,
            ResourceKind::Device => self.devices,
            ResourceKind::Buffer => self.buffers,
            ResourceKind::Texture => self.textures,
            ResourceKind::TextureView => self.texture_views,
            ResourceKind::Sampler => self.samplers,
            ResourceKind::BindGroup => self.bind_groups,
            ResourceKind::BindGroupLayout => self.bind_group_layouts,
            ResourceKind::PipelineLayout => self.pipeline_layouts,
            ResourceKind::ShaderModule => self.shader_modules,
            ResourceKind::CommandEncoder => self.command_encoders,
            ResourceKind::RenderPipeline => self.render_pipelines,
            ResourceKind::ComputePipeline => self.compute_pipelines,
            ResourceKind::RenderBundle => self.render_bundles,
        }
    }

    /// How many identifiers this hub has handed out for `kind` on `backend`;
    /// equally, the index the next such identifier will carry.
    pub open spec fn counter(self, kind: ResourceKind, backend: Backend) -> u64 {
        self.registry(kind).counter(backend)
    }

    /// A fresh hub: no identifier handed out yet for any kind or backend.
    pub fn new() -> (hub: ResourceHub)
        ensures
            forall|k: ResourceKind, b: Backend| hub.counter(k, b) == 0,
    {
        ResourceHub {
            adapters: IdentityRegistry::new(),
            devices: IdentityRegistry::new(),
            buffers: IdentityRegistry::new(),
            textures: IdentityRegistry::new(),
            texture_views: IdentityRegistry::new(),
            samplers: IdentityRegistry::new(),
            bind_groups: IdentityRegistry::new(),
            bind_group_layouts: IdentityRegistry::new(),
            pipeline_layouts: IdentityRegistry::new(),
            shader_modules: IdentityRegistry::new(),
            command_encoders: IdentityRegistry::new(),
            render_pipelines: IdentityRegistry::new(),
            compute_pipelines: IdentityRegistry::new(),
            render_bundles: IdentityRegistry::new(),
        }
    }

    /// How many identifiers this hub has handed out for `kind` on `backend`,
    /// as a run-time value; callers use it to rule out counter exhaustion
    /// before allocating.
    pub fn count(&self, kind: ResourceKind, backend: Backend) -> (n: u64)
        ensures
            n == self.counter(kind, backend),
    {
        match kind {
            ResourceKind::Adapter => self.adapters.count(backend),
            ResourceKind::Device => self.devices.count(backend),
            ResourceKind::Buffer => self.buffers.count(backend),
            ResourceKind::Texture => self.textures.count(backend),
            ResourceKind::TextureView => self.texture_views.count(backend),
            ResourceKind::Sampler => self.samplers.count(backend),
            ResourceKind::BindGroup => self.bind_groups.count(backend),
            ResourceKind::BindGroupLayout => self.bind_group_layouts.count(backend),
            ResourceKind::PipelineLayout => self.pipeline_layouts.count(backend),
            ResourceKind::ShaderModule => self.shader_modules.count(backend),
            ResourceKind::CommandEncoder => self.command_encoders.count(backend),
            ResourceKind::RenderPipeline => self.render_pipelines.count(backend),
            ResourceKind::ComputePipeline => self.compute_pipelines.count(backend),
            ResourceKind::RenderBundle => self.render_bundles.count(backend),
        }
    }

    /// Hand out the next identifier for `kind` on `backend`: unique among all
    /// identifiers of that kind and backend this hub ever returned. Counters
    /// of every other kind and backend are untouched.
    pub fn next(&mut self, kind: ResourceKind, backend: Backend) -> (id: Identifier)
        requires
            old(self).counter(kind, backend) < u64::MAX,
        ensures
            id == (Identifier {
                index: old(self).counter(kind, backend),
                generation: 1,
                backend,
            }),
            final(self).counter(kind, backend) == old(self).counter(kind, backend) + 1,
            forall|k: ResourceKind, b: Backend|
                !(k == kind && b == backend) ==> final(self).counter(k, b) == old(self).counter(
                    k,
                    b,
                ),
    {
        match kind {
            ResourceKind::Adapter => self.adapters.allocate(backend),
            ResourceKind::Device => self.devices.allocate(backend),
            ResourceKind::Buffer => self.buffers.allocate(backend),
            ResourceKind::Texture => self.textures.allocate(backend),
            ResourceKind::TextureView => self.texture_views.allocate(backend),
            ResourceKind::Sampler => self.samplers.allocate(backend),
            ResourceKind::BindGroup => self.bind_groups.allocate(backend),
            ResourceKind::BindGroupLayout => self.bind_group_layouts.allocate(backend),
            ResourceKind::PipelineLayout => self.pipeline_layouts.allocate(backend),
            ResourceKind::ShaderModule => self.shader_modules.allocate(backend),
            ResourceKind::CommandEncoder => self.command_encoders.allocate(backend),
            ResourceKind::RenderPipeline => self.render_pipelines.allocate(backend),
            ResourceKind::ComputePipeline => self.compute_pipelines.allocate(backend),
            ResourceKind::RenderBundle => self.render_bundles.allocate(backend),
        }
    }

    /// Hand out `n` consecutive identifiers for `kind` on `backend`, in
    /// ascending index order: position `i` of the result carries the `i`th
    /// index after the old counter.
    pub fn allocate_many(&mut self, kind: ResourceKind, backend: Backend, n: usize) -> (ids: Vec<
        Identifier,
    >)
        requires
            old(self).counter(kind, backend) + n <= u64::MAX,
        ensures
            ids@.len() == n,
            forall|i: int|
                0 <= i < n ==> ids@[i] == (Identifier {
                    index: (old(self).counter(kind, backend) + i) as u64,
                    generation: 1,
                    backend,
                }),
            final(self).counter(kind, backend) == old(self).counter(kind, backend) + n,
            forall|k: ResourceKind, b: Backend|
                !(k == kind && b == backend) ==> final(self).counter(k, b) == old(self).counter(
                    k,
                    b,
                ),
    {
        let mut ids: Vec<Identifier> = Vec::new();
        let mut j: usize = 0;
        while j < n
            invariant
                j <= n,
                old(self).counter(kind, backend) + n <= u64::MAX,
                self.counter(kind, backend) == old(self).counter(kind, backend) + j,
                ids@.len() == j,
                forall|i: int|
                    0 <= i < j ==> ids@[i] == (Identifier {
                        index: (old(self).counter(kind, backend) + i) as u64,
                        generation: 1,
                        backend,
                    }),
                forall|k: ResourceKind, b: Backend|
                    !(k == kind && b == backend) ==> self.counter(k, b) == old(self).counter(k, b),
            decreases n - j,
        {
            let id = self.next(kind, backend);
            ids.push(id);
            j = j + 1;
        }
        ids
    }

    /// The identifier a creation call for `kind` on `backend` will carry:
    /// echo a caller-supplied identifier untouched, otherwise allocate a
    /// fresh one. Only the no-identifier path advances a counter.
    pub fn prepare(
        &mut self,
        kind: ResourceKind,
        backend: Backend,
        provided: Option<Identifier>,
    ) -> (id: Identifier)
        requires
            provided is None ==> old(self).counter(kind, backend) < u64::MAX,
        ensures
            id == prepared_id(*old(self), kind, backend, provided),
            provided is Some ==> *final(self) == *old(self),
            provided is None ==> final(self).counter(kind, backend) == old(self).counter(
                kind,
                backend,
            ) + 1,
            forall|k: ResourceKind, b: Backend|
                !(k == kind && b == backend) ==> final(self).counter(k, b) == old(self).counter(
                    k,
                    b,
                ),
    {
        match provided {
            Some(p) => p,
            None => self.next(kind, backend),
        }
    }

    /// Pre-allocate everything a creation call with implicit layout
    /// derivation needs: first the root pipeline-layout identifier, then
    /// `group_count` bind-group-layout identifiers. Bind group `i` receives
    /// the `i`th fresh bind-group-layout index, so the batch is strictly
    /// ascending in slot order.
    pub fn derive_implicit(&mut self, backend: Backend, group_count: usize) -> (ids:
        ImplicitLayoutIds)
        requires
            old(self).counter(ResourceKind::PipelineLayout, backend) < u64::MAX,
            old(self).counter(ResourceKind::BindGroupLayout, backend) + group_count <= u64::MAX,
        ensures
            ids.root == (Identifier {
                index: old(self).counter(ResourceKind::PipelineLayout, backend),
                generation: 1,
                backend,
            }),
            ids.groups@.len() == group_count,
            forall|i: int|
                0 <= i < group_count ==> ids.groups@[i] == (Identifier {
                    index: (old(self).counter(ResourceKind::BindGroupLayout, backend) + i) as u64,
                    generation: 1,
                    backend,
                }),
            forall|i: int, j: int|
                0 <= i < j < group_count ==> ids.groups@[i].index < ids.groups@[j].index,
            final(self).counter(ResourceKind::PipelineLayout, backend) == old(self).counter(
                ResourceKind::PipelineLayout,
                backend,
            ) + 1,
            final(self).counter(ResourceKind::BindGroupLayout, backend) == old(self).counter(
                ResourceKind::BindGroupLayout,
                backend,
            ) + group_count,
            forall|k: ResourceKind, b: Backend|
                !((k == ResourceKind::PipelineLayout || k == ResourceKind::BindGroupLayout) && b
                    == backend) ==> final(self).counter(k, b) == old(self).counter(k, b),
    {
        let root = self.next(ResourceKind::PipelineLayout, backend);
        let groups = self.allocate_many(ResourceKind::BindGroupLayout, backend, group_count);
        ImplicitLayoutIds { root, groups }
    }
}

} // verus!
