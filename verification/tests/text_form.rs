//! The textual form of identifiers.

use identity_hub::id::{Backend, Identifier};

#[test]
fn text_of_zero() {
    let id = Identifier { index: 0, generation: 1, backend: Backend::Vulkan };
    assert_eq!(id.text(), "Id(0,1,vk)");
}

#[test]
fn text_of_multi_digit_index() {
    let id = Identifier { index: 42, generation: 1, backend: Backend::Vulkan };
    assert_eq!(id.text(), "Id(42,1,vk)");
    let id = Identifier { index: 1000, generation: 1, backend: Backend::Vulkan };
    assert_eq!(id.text(), "Id(1000,1,vk)");
    let id = Identifier { index: 907, generation: 12, backend: Backend::Vulkan };
    assert_eq!(id.text(), "Id(907,12,vk)");
}

#[test]
fn text_of_largest_index() {
    let id = Identifier { index: u64::MAX, generation: 1, backend: Backend::Gl };
    assert_eq!(id.text(), "Id(18446744073709551615,1,gl)");
}

#[test]
fn text_of_every_backend() {
    let mk = |backend| Identifier { index: 7, generation: 1, backend };
    assert_eq!(mk(Backend::Vulkan).text(), "Id(7,1,vk)");
    assert_eq!(mk(Backend::Metal).text(), "Id(7,1,mtl)");
    assert_eq!(mk(Backend::Dx12).text(), "Id(7,1,dx12)");
    assert_eq!(mk(Backend::Gl).text(), "Id(7,1,gl)");
    assert_eq!(mk(Backend::WebGpu).text(), "Id(7,1,webgpu)");
}

#[test]
fn distinct_identifiers_print_distinctly() {
    let a = Identifier { index: 1, generation: 11, backend: Backend::Vulkan };
    let b = Identifier { index: 11, generation: 1, backend: Backend::Vulkan };
    assert_ne!(a.text(), b.text());
    let v = Identifier { index: 2, generation: 1, backend: Backend::Vulkan };
    let g = Identifier { index: 2, generation: 1, backend: Backend::Gl };
    assert_ne!(v.text(), g.text());
}

#[test]
fn text_has_no_leading_zeros() {
    let id = Identifier { index: 10, generation: 1, backend: Backend::Vulkan };
    assert_eq!(id.text(), "Id(10,1,vk)");
    let id = Identifier { index: 100, generation: 1, backend: Backend::Vulkan };
    assert_eq!(id.text(), "Id(100,1,vk)");
}
