//! The shared state container: the operating context, written once by the
//! startup sequence, read by every event handler; and the bounded-wait
//! policy for handlers that cannot proceed without a populated context.

use vstd::prelude::*;

use crate::context::OperatingContext;
use crate::store::RecordStore;

verus! {

/// How many polls a handler waiting for the context may make before the
/// absence of a context is fatal.
pub const MAX_CONTEXT_WAIT_TRIES: u64 = 10;

/// State shared by every concurrent event handler: the operating context —
/// absent until the startup sequence resolves it — and the record store
/// handle. The sum type forces every reader to decide what "not yet
/// populated" means for it; no handler can read a partially valid context.
pub struct BouncerState {
    /// The resolved operating context, or `None` while resolution is pending.
    pub context: Option<OperatingContext>,
    /// Handle to the record store.
    pub store: RecordStore,
}

/// What a caller that needs a populated context should do next.
#[derive(Clone, Copy, PartialEq, Eq, Structural, Debug)]
pub enum WaitAction {
    /// The context is populated; processing may proceed.
    Proceed,
    /// Not yet populated; poll again after a fixed backoff.
    Retry,
    /// The bound is exhausted; treat the absence as fatal and stop.
    GiveUp,
}

impl BouncerState {
    /// The container is well-formed when its store is and, once populated,
    /// its context is.
    pub open spec fn wf(self) -> bool {
        &&& self.store.wf()
        &&& (self.context matches Some(ctx) ==> ctx.wf())
    }

    /// A container whose context is still unresolved.
    pub fn new(store: RecordStore) -> (s: Self)
        requires
            store.wf(),
        ensures
            s.context is None,
            s.store == store,
            s.wf(),
    {
        BouncerState { context: None, store }
    }

    /// Whether the startup sequence has populated the context.
    pub fn is_populated(&self) -> (r: bool)
        ensures
            r == (self.context is Some),
    {
        self.context.is_some()
    }

    /// Installs a resolved context. The startup sequence is the only writer:
    /// it writes once after resolution, or again only when a reconnect
    /// re-validates a fresh snapshot.
    pub fn set_context(&mut self, ctx: OperatingContext)
        requires
            old(self).wf(),
            ctx.wf(),
        ensures
            final(self).wf(),
            final(self).context == Some(ctx),
            final(self).store == old(self).store,
    {
        self.context = Some(ctx);
    }
}

/// The bounded startup wait, resolved one poll at a time. `attempt` counts
/// polls made so far, starting at one.
pub open spec fn spec_wait_decision(populated: bool, attempt: u64) -> WaitAction {
    if populated {
        WaitAction::Proceed
    } else if attempt >= MAX_CONTEXT_WAIT_TRIES {
        WaitAction::GiveUp
    } else {
        WaitAction::Retry
    }
}

/// Decides one poll of the startup wait: proceed once populated, retry while
/// polls remain, and give up — fatally — once the bound is reached. The
/// system cannot safely moderate without knowing its own roles.
pub fn wait_decision(populated: bool, attempt: u64) -> (r: WaitAction)
    ensures
        r == spec_wait_decision(populated, attempt),
{
    if populated {
        WaitAction::Proceed
    } else if attempt >= MAX_CONTEXT_WAIT_TRIES {
        WaitAction::GiveUp
    } else {
        WaitAction::Retry
    }
}

} // verus!
