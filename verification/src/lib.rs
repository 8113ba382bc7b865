//! A Kubernetes-style controller core for a custom `Application` resource.
//!
//! The library holds the verified control logic: the finalizer lifecycle
//! state machine, the reconciler that plans side effects from spec and
//! remembered status, an idempotent managed-workload model, the per-identity
//! scheduler, and the process-wide metrics and diagnostics. The surrounding
//! process (HTTP endpoints, the watch transport, the resource store client)
//! lives outside and hands this library plain values.

use vstd::prelude::*;

pub mod deployment;
pub mod driver;
pub mod finalizer;
pub mod operator;

verus! {

/// Failures that the controller distinguishes.
///
/// Store and finalizer-protocol failures are retried under a flat policy;
/// a serialization failure (a malformed workload descriptor) aborts the
/// handler; a bootstrap failure halts startup.
#[derive(Debug, Clone, PartialEq, Eq)]
pub enum Error {
    /// A resource-store operation failed (transient or permanent).
    StoreError(String),
    /// An add- or remove-finalizer patch failed.
    FinalizerError(String),
    /// A workload descriptor could not be constructed from the spec.
    SerializationError(String),
    /// The watched resource type is not registered in the store.
    BootstrapError(String),
}

impl Error {
    /// A short label for the failure kind, for event notes and logs.
    pub fn kind_label(&self) -> (r: &'static str)
        ensures
            self is StoreError ==> r@ == "StoreError"@,
            self is FinalizerError ==> r@ == "FinalizerError"@,
            self is SerializationError ==> r@ == "SerializationError"@,
            self is BootstrapError ==> r@ == "BootstrapError"@,
    {
        match self {
            Error::StoreError(_) => "StoreError",
            Error::FinalizerError(_) => "FinalizerError",
            Error::SerializationError(_) => "SerializationError",
            Error::BootstrapError(_) => "BootstrapError",
        }
    }
}

} // verus!
