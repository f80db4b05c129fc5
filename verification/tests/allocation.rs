//! Allocation behavior of the registry and the hub.

use identity_hub::hub::ResourceHub;
use identity_hub::id::{Backend, Identifier, ResourceKind};
use identity_hub::registry::IdentityRegistry;

#[test]
fn registry_counts_from_zero() {
    let mut reg = IdentityRegistry::new();
    let a = reg.allocate(Backend::Vulkan);
    let b = reg.allocate(Backend::Vulkan);
    let c = reg.allocate(Backend::Vulkan);
    assert_eq!(a, Identifier { index: 0, generation: 1, backend: Backend::Vulkan });
    assert_eq!(b, Identifier { index: 1, generation: 1, backend: Backend::Vulkan });
    assert_eq!(c, Identifier { index: 2, generation: 1, backend: Backend::Vulkan });
}

#[test]
fn registry_backends_are_independent() {
    let mut reg = IdentityRegistry::new();
    let v0 = reg.allocate(Backend::Vulkan);
    let v1 = reg.allocate(Backend::Vulkan);
    let m0 = reg.allocate(Backend::Metal);
    let g0 = reg.allocate(Backend::Gl);
    let v2 = reg.allocate(Backend::Vulkan);
    assert_eq!(v0.index, 0);
    assert_eq!(v1.index, 1);
    assert_eq!(m0.index, 0);
    assert_eq!(g0.index, 0);
    assert_eq!(v2.index, 2);
}

#[test]
fn backend_isolation_same_index_and_generation() {
    let mut reg = IdentityRegistry::new();
    let v = reg.allocate(Backend::Vulkan);
    let m = reg.allocate(Backend::Metal);
    assert_eq!(v.index, m.index);
    assert_eq!(v.generation, m.generation);
    assert_ne!(v, m);
}

#[test]
fn hub_kinds_are_independent() {
    let mut hub = ResourceHub::new();
    let a = hub.next(ResourceKind::Adapter, Backend::Vulkan);
    let d = hub.next(ResourceKind::Device, Backend::Vulkan);
    let b0 = hub.next(ResourceKind::Buffer, Backend::Vulkan);
    let b1 = hub.next(ResourceKind::Buffer, Backend::Vulkan);
    let a1 = hub.next(ResourceKind::Adapter, Backend::Vulkan);
    assert_eq!(a.index, 0);
    assert_eq!(d.index, 0);
    assert_eq!(b0.index, 0);
    assert_eq!(b1.index, 1);
    assert_eq!(a1.index, 1);
}

#[test]
fn hub_monotonic_no_gaps() {
    let mut hub = ResourceHub::new();
    for expected in 0..100u64 {
        let id = hub.next(ResourceKind::Texture, Backend::Gl);
        assert_eq!(id.index, expected);
        assert_eq!(id.generation, 1);
        assert_eq!(id.backend, Backend::Gl);
    }
}

#[test]
fn allocate_many_is_ascending() {
    let mut hub = ResourceHub::new();
    let first = hub.next(ResourceKind::Sampler, Backend::Metal);
    assert_eq!(first.index, 0);
    let batch = hub.allocate_many(ResourceKind::Sampler, Backend::Metal, 4);
    assert_eq!(batch.len(), 4);
    for (i, id) in batch.iter().enumerate() {
        assert_eq!(id.index, 1 + i as u64);
        assert_eq!(id.generation, 1);
        assert_eq!(id.backend, Backend::Metal);
    }
    let after = hub.next(ResourceKind::Sampler, Backend::Metal);
    assert_eq!(after.index, 5);
}

#[test]
fn derive_implicit_orders_group_layouts() {
    let mut hub = ResourceHub::new();
    let ids = hub.derive_implicit(Backend::Vulkan, 3);
    assert_eq!(ids.root.index, 0);
    assert_eq!(ids.root.generation, 1);
    assert_eq!(ids.root.backend, Backend::Vulkan);
    assert_eq!(ids.groups.len(), 3);
    for (slot, id) in ids.groups.iter().enumerate() {
        assert_eq!(id.index, slot as u64);
    }
    for w in ids.groups.windows(2) {
        assert!(w[0].index < w[1].index);
    }
}

#[test]
fn derive_implicit_continues_existing_counters() {
    let mut hub = ResourceHub::new();
    let bgl0 = hub.next(ResourceKind::BindGroupLayout, Backend::Vulkan);
    let bgl1 = hub.next(ResourceKind::BindGroupLayout, Backend::Vulkan);
    assert_eq!(bgl0.index, 0);
    assert_eq!(bgl1.index, 1);
    let ids = hub.derive_implicit(Backend::Vulkan, 2);
    assert_eq!(ids.root.index, 0);
    assert_eq!(ids.groups[0].index, 2);
    assert_eq!(ids.groups[1].index, 3);
}
