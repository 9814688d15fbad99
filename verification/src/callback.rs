//! The callback that reports are dispatched to, the slot that holds it, and
//! the entry point through which the engine delivers a report.

use crate::domain::{marshal_domains, BlockedDomain, RawBlockedDomain};
use crate::metrics::{DnsMetrics, RawDnsMetrics};
use parking_lot::RwLock;
use std::sync::Arc;
use vstd::prelude::*;

verus! {

/// A sink for the stats that the engine reports.
pub trait TpLiteStatsCallback: Send + Sync {
    /// Takes the domains blocked since the last report, and the metrics.
    /// While this call lasts the engine keeps buffering, and may overwrite
    /// what it has not reported yet.
    fn collect(&self, domains: Vec<BlockedDomain>, metrics: DnsMetrics);
}

/// The callback that is active until another is registered. It takes a report
/// and does nothing with it.
#[derive(Debug)]
pub struct NoopCallback;

impl TpLiteStatsCallback for NoopCallback {
    fn collect(&self, _domains: Vec<BlockedDomain>, _metrics: DnsMetrics) {
    }
}

/// `parking_lot::RawRwLock`, the lock proper. Nothing of it is visible here.
#[verifier::external_type_specification]
#[verifier::external_body]
pub struct ExRawRwLock(parking_lot::RawRwLock);

/// `lock_api::RwLock`, which `parking_lot::RwLock` is an alias of. Nothing of
/// it is visible here: what it holds at a given moment depends on the other
/// threads.
#[verifier::external_type_specification]
#[verifier::external_body]
#[verifier::reject_recursive_types(R)]
#[verifier::reject_recursive_types(T)]
pub struct ExRwLock<R, T: ?Sized>(parking_lot::lock_api::RwLock<R, T>);

/// A callback as the slot holds it and as a lookup hands it out: shared, so
/// that it can be run after the lock has been let go.
pub type SharedCallback = Arc<Box<dyn TpLiteStatsCallback>>;

type Slot = RwLock<SharedCallback>;

/// Calls `Arc::clone`. Trusted: the result points to the same allocation,
/// so to the same lock, as the standard library documents it.
#[verifier::external_body]
fn share(slot: &Arc<Slot>) -> (other: Arc<Slot>)
    ensures
        other == *slot,
{
    Arc::clone(slot)
}

/// Calls `RwLock::new`. Trusted, with nothing claimed of the lock.
#[verifier::external_body]
fn new_slot(callback: SharedCallback) -> Slot {
    RwLock::new(callback)
}

/// Calls `RwLock::read`, and lets go of the lock once it has a reference to
/// the callback. Trusted, with nothing claimed of the result: which callback
/// it is depends on what other threads have registered.
#[verifier::external_body]
fn load(slot: &Slot) -> SharedCallback {
    slot.read().clone()
}

/// Calls `RwLock::write`, puts `callback` in the slot and hands out what was
/// there, so that it is dropped only after the lock has been let go. Trusted,
/// with nothing claimed of the result.
#[verifier::external_body]
fn swap(slot: &Slot, callback: SharedCallback) -> SharedCallback {
    std::mem::replace(&mut *slot.write(), callback)
}

/// Owns the slot of the one active callback. The callback can be replaced at
/// any time, from any thread, while the engine reports through a handle.
pub struct CallbackManager {
    slot: Arc<Slot>,
}

/// Stands for the slot of a manager's active callback. It is taken once and
/// given to the engine; it resolves to whatever callback is active when a
/// report comes, however often the callback was replaced since.
pub struct CallbackHandle {
    slot: Arc<Slot>,
}

impl CallbackManager {
    /// A manager whose active callback does nothing.
    pub fn new() -> CallbackManager {
        CallbackManager { slot: Arc::new(new_slot(Arc::new(Box::new(NoopCallback)))) }
    }

    /// Makes `callback` the active one. Waits for the lookups under way, never
    /// for a callback that is running. A report that is being delivered
    /// meanwhile goes to the callback it has already looked up.
    pub fn register(&self, callback: Box<dyn TpLiteStatsCallback>) {
        let _previous = swap(&self.slot, Arc::new(callback));
    }

    /// The handle to give to the engine. It stands for this manager's slot,
    /// not for the callback that is in it now.
    pub fn handle(&self) -> (handle: CallbackHandle)
        ensures
            handle.refers_to(self),
    {
        CallbackHandle { slot: share(&self.slot) }
    }
}

impl CallbackHandle {
    /// This handle stands for the slot of `manager`.
    pub closed spec fn refers_to(&self, manager: &CallbackManager) -> bool {
        self.slot == manager.slot
    }

    /// The callback that is active now. The lock is held only to take the
    /// reference, so the caller runs the callback without it.
    pub fn resolve(&self) -> SharedCallback {
        load(&self.slot)
    }
}

/// Delivers one report of the engine. Without a handle, collection is off and
/// nothing happens. With one, the report is copied into owned values and the
/// active callback is run on them, on the calling thread. Returns whether a
/// callback was run.
pub fn collect_stats(
    context: Option<&CallbackHandle>,
    domains: &[RawBlockedDomain<'_>],
    metrics: RawDnsMetrics<'_>,
) -> (dispatched: bool)
    ensures
        dispatched == context.is_some(),
{
    match context {
        None => false,
        Some(handle) => {
            let callback = handle.resolve();
            let domains = marshal_domains(domains);
            callback.collect(domains, DnsMetrics::from(metrics));
            true
        },
    }
}

} // verus!
