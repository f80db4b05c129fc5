//! The creation protocol, the replay executor, and the seed scenario.

use identity_hub::factory::{finish_creation, CreationResult, FactoryError, FactoryOutcome};
use identity_hub::hub::ResourceHub;
use identity_hub::id::{Backend, Identifier, ResourceKind};
use identity_hub::replay::{replay, run_allocations};

#[test]
fn prepare_echoes_supplied_identifier() {
    let mut hub = ResourceHub::new();
    let supplied = Identifier { index: 7, generation: 1, backend: Backend::Vulkan };
    let prepared = hub.prepare(ResourceKind::Texture, Backend::Vulkan, Some(supplied));
    assert_eq!(prepared, supplied);
    // Echoing did not advance any counter.
    let fresh = hub.next(ResourceKind::Texture, Backend::Vulkan);
    assert_eq!(fresh.index, 0);
}

#[test]
fn prepare_allocates_when_nothing_is_supplied() {
    let mut hub = ResourceHub::new();
    let first = hub.prepare(ResourceKind::Buffer, Backend::Metal, None);
    let second = hub.prepare(ResourceKind::Buffer, Backend::Metal, None);
    assert_eq!(first.index, 0);
    assert_eq!(second.index, 1);
}

#[test]
fn finish_creation_echoes_on_success() {
    let id = Identifier { index: 3, generation: 1, backend: Backend::Dx12 };
    let r = finish_creation(id, FactoryOutcome::Success);
    assert_eq!(r, CreationResult { id, error: None });
}

#[test]
fn finish_creation_attaches_each_error() {
    let id = Identifier { index: 0, generation: 1, backend: Backend::Vulkan };
    let r = finish_creation(id, FactoryOutcome::Failure(FactoryError::NoCompatibleBackend));
    assert_eq!(r.id, id);
    assert_eq!(r.error, Some(FactoryError::NoCompatibleBackend));

    let rejected = || FactoryError::DeviceRejected(String::from("limits exceed adapter"));
    let r = finish_creation(id, FactoryOutcome::Failure(rejected()));
    assert_eq!(r.id, id);
    assert_eq!(r.error, Some(rejected()));

    let invalid = || FactoryError::InvalidDescriptor(String::from("malformed shader"));
    let r = finish_creation(id, FactoryOutcome::Failure(invalid()));
    assert_eq!(r.id, id);
    assert_eq!(r.error, Some(invalid()));

    let usage = || FactoryError::UsageError(String::from("pass already ended"));
    let r = finish_creation(id, FactoryOutcome::Failure(usage()));
    assert_eq!(r.id, id);
    assert_eq!(r.error, Some(usage()));
}

#[test]
fn failed_creation_leaves_counters_intact() {
    let mut hub = ResourceHub::new();
    let prepared = hub.prepare(ResourceKind::ShaderModule, Backend::Vulkan, None);
    let r = finish_creation(
        prepared,
        FactoryOutcome::Failure(FactoryError::InvalidDescriptor(String::from("bad wgsl"))),
    );
    assert_eq!(r.id.index, 0);
    // The failure consumed index 0; the next allocation still follows in order.
    let next = hub.next(ResourceKind::ShaderModule, Backend::Vulkan);
    assert_eq!(next.index, 1);
}

#[test]
fn replay_is_deterministic() {
    let ops = vec![
        (ResourceKind::Adapter, Backend::Vulkan),
        (ResourceKind::Device, Backend::Vulkan),
        (ResourceKind::Buffer, Backend::Vulkan),
        (ResourceKind::Buffer, Backend::Gl),
        (ResourceKind::Buffer, Backend::Vulkan),
        (ResourceKind::RenderPipeline, Backend::Vulkan),
        (ResourceKind::Buffer, Backend::Vulkan),
    ];
    let first = replay(&ops);
    let second = replay(&ops);
    assert_eq!(first, second);
    assert_eq!(
        first,
        vec![
            "Id(0,1,vk)",
            "Id(0,1,vk)",
            "Id(0,1,vk)",
            "Id(0,1,gl)",
            "Id(1,1,vk)",
            "Id(0,1,vk)",
            "Id(2,1,vk)",
        ]
    );
}

#[test]
fn replay_of_nothing_is_empty() {
    let ops: Vec<(ResourceKind, Backend)> = Vec::new();
    assert!(replay(&ops).is_empty());
    assert!(run_allocations(&ops).is_empty());
}

#[test]
fn run_allocations_matches_manual_run() {
    let ops = vec![
        (ResourceKind::Adapter, Backend::Vulkan),
        (ResourceKind::Adapter, Backend::Vulkan),
        (ResourceKind::Adapter, Backend::Metal),
    ];
    let ids = run_allocations(&ops);
    let mut hub = ResourceHub::new();
    let manual: Vec<_> = ops.iter().map(|&(k, b)| hub.next(k, b)).collect();
    assert_eq!(ids, manual);
}

#[test]
fn seed_scenario() {
    // The fixed scenario: adapter, device, two explicit bind-group layouts,
    // one pipeline layout referencing both layouts twice each (references
    // allocate nothing), then four more bind-group layouts.
    let mut hub = ResourceHub::new();
    let backend = Backend::Vulkan;

    let adapter = hub.next(ResourceKind::Adapter, backend);
    assert_eq!(adapter.text(), "Id(0,1,vk)");

    let device = hub.next(ResourceKind::Device, backend);
    assert_eq!(device.text(), "Id(0,1,vk)");

    let bgl0 = hub.next(ResourceKind::BindGroupLayout, backend);
    let bgl1 = hub.next(ResourceKind::BindGroupLayout, backend);
    assert_eq!(bgl0.text(), "Id(0,1,vk)");
    assert_eq!(bgl1.text(), "Id(1,1,vk)");

    let _referenced = [&bgl0, &bgl1, &bgl0, &bgl1];
    let layout = hub.next(ResourceKind::PipelineLayout, backend);
    assert_eq!(layout.text(), "Id(0,1,vk)");

    let more = hub.allocate_many(ResourceKind::BindGroupLayout, backend, 4);
    let texts: Vec<String> = more.iter().map(|id| id.text()).collect();
    assert_eq!(texts, vec!["Id(2,1,vk)", "Id(3,1,vk)", "Id(4,1,vk)", "Id(5,1,vk)"]);
}
