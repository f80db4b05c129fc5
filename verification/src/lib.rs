//! Identity allocation for GPU-side resources.
//!
//! A [`hub::ResourceHub`] owns one [`registry::IdentityRegistry`] per resource
//! kind and hands out unique, generation-tagged, backend-tagged identifiers
//! for the objects a GPU driver creates. The registries are pure namers: they
//! hold no reference to the driver's objects, and the same call sequence
//! always yields the same identifiers, so callers can assert on the exact
//! textual form of every identifier they receive.

pub mod factory;
pub mod hub;
pub mod id;
pub mod registry;
pub mod replay;
pub mod text;
