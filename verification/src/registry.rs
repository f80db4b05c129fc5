//! The per-kind identity registry: one monotonic counter per backend.

use vstd::prelude::*;

use crate::id::{Backend, Identifier};

verus! {

/// Allocates fresh identifiers for one resource kind. Each backend has its
/// own counter, so allocations for distinct backends never influence one
/// another. The registry is a pure namer: it always succeeds, and the nth
/// allocation for a backend returns index `n - 1` with generation 1.
pub struct IdentityRegistry {
    vulkan: u64,
    metal: u64,
    dx12: u64,
    gl: u64,
    webgpu: u64,
}

impl IdentityRegistry {
    /// How many identifiers this registry has handed out for `backend`;
    /// equally, the index the next allocation for `backend` will carry.
    pub closed spec fn counter(self, backend: Backend) -> u64 {
        match backend {
            Backend::Vulkan => self.vulkan,
            Backend::Metal => self.metal,
            Backend::Dx12 => self.dx12,
            Backend::Gl => self.gl,
            Backend::WebGpu => self.webgpu,
        }
    }

    /// A fresh registry: no identifier handed out yet for any backend.
    pub fn new() -> (r: IdentityRegistry)
        ensures
            forall|b: Backend| r.counter(b) == 0,
    {
        IdentityRegistry { vulkan: 0, metal: 0, dx12: 0, gl: 0, webgpu: 0 }
    }

    /// How many identifiers this registry has handed out for `backend`, as a
    /// run-time value; callers use it to rule out counter exhaustion before
    /// allocating.
    pub fn count(&self, backend: Backend) -> (n: u64)
        ensures
            n == self.counter(backend),
    {
        match backend {
            Backend::Vulkan => self.vulkan,
            Backend::Metal => self.metal,
            Backend::Dx12 => self.dx12,
            Backend::Gl => self.gl,
            Backend::WebGpu => self.webgpu,
        }
    }

    /// Hand out the next identifier for `backend`: the current counter value
    /// as index, generation 1, tagged with `backend`. Counters for every
    /// other backend are untouched.
    pub fn allocate(&mut self, backend: Backend) -> (id: Identifier)
        requires
            old(self).counter(backend) < u64::MAX,
        ensures
            id == (Identifier { index: old(self).counter(backend), generation: 1, backend }),
            final(self).counter(backend) == old(self).counter(backend) + 1,
            forall|b: Backend| b != backend ==> final(self).counter(b) == old(self).counter(b),
    {
        let index: u64 = match backend {
            Backend::Vulkan => {
                let i = self.vulkan;
                self.vulkan = i + 1;
                i
            },
            Backend::Metal => {
                let i = self.metal;
                self.metal = i + 1;
                i
            },
            Backend::Dx12 => {
                let i = self.dx12;
                self.dx12 = i + 1;
                i
            },
            Backend::Gl => {
                let i = self.gl;
                self.gl = i + 1;
                i
            },
            Backend::WebGpu => {
                let i = self.webgpu;
                self.webgpu = i + 1;
                i
            },
        };
        Identifier { index, generation: 1, backend }
    }
}

} // verus!
