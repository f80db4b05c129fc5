//! The object-factory protocol: how creation calls carry identifiers.
//!
//! The factory itself is the external GPU driver. The hub pre-allocates an
//! identifier before the driver runs (so the caller can report errors against
//! it and wire it into later descriptors without waiting on the driver), and
//! this module settles what the finished call returns: the prepared
//! identifier, echoed bit-identically whatever the driver reported, plus the
//! driver's error when it rejected the call.

use vstd::prelude::*;

use crate::hub::{prepared_id, ResourceHub};
use crate::id::{Backend, Identifier, ResourceKind};

verus! {

/// Why the external driver rejected a call, as consumed by the core. The
/// registry and hub themselves have no failure mode: every error originates
/// downstream, in the driver.
#[derive(Debug, PartialEq, Eq)]
pub enum FactoryError {
    /// Adapter acquisition found no compatible backend.
    NoCompatibleBackend,
    /// Device creation was rejected by the requested features or limits.
    DeviceRejected(String),
    /// A creation descriptor was invalid (malformed shader, incompatible
    /// binding layout).
    InvalidDescriptor(String),
    /// An operation touched an ended pass or a destroyed resource.
    UsageError(String),
}

/// What the external driver reported back for one creation call.
#[derive(Debug, PartialEq, Eq)]
pub enum FactoryOutcome {
    Success,
    Failure(FactoryError),
}

/// A finished creation call: the identifier the resource is registered
/// under, and the driver's error when it rejected the call. The identifier is
/// present even on failure, so errors can be reported against it; a failed
/// call never corrupts the hub's counters.
#[derive(Debug, PartialEq, Eq)]
pub struct CreationResult {
    pub id: Identifier,
    pub error: Option<FactoryError>,
}

/// The identifier a finished creation call returns: always the one prepared
/// beforehand, whatever the driver reported. Allocation is never the
/// factory's job.
pub open spec fn creation_id(prepared: Identifier, outcome: FactoryOutcome) -> Identifier {
    prepared
}

/// Close out a creation call once the external driver has reported back.
/// The prepared identifier is echoed bit-identically, and the result carries
/// an error exactly when the driver rejected the call; the error itself is
/// passed through unchanged, never suppressed or retried.
pub fn finish_creation(prepared: Identifier, outcome: FactoryOutcome) -> (r: CreationResult)
    ensures
        r.id == creation_id(prepared, outcome),
        r.error is Some <==> outcome is Failure,
        outcome matches FactoryOutcome::Failure(e) ==> r.error == Some(e),
{
    match outcome {
        FactoryOutcome::Success => CreationResult { id: prepared, error: None },
        FactoryOutcome::Failure(e) => CreationResult { id: prepared, error: Some(e) },
    }
}

/// Pre-allocation echo: when the caller supplies an identifier to a creation
/// call, the identifier the finished call returns is bit-identical to the
/// supplied one, whatever the hub's state and whatever the driver reported.
pub proof fn lemma_preallocation_echo(
    hub: ResourceHub,
    kind: ResourceKind,
    backend: Backend,
    supplied: Identifier,
    outcome: FactoryOutcome,
)
    ensures
        creation_id(prepared_id(hub, kind, backend, Some(supplied)), outcome) == supplied,
{
}

} // verus!
