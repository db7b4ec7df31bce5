use vstd::prelude::*;

use crate::fault::ProtocolViolation;

verus! {

/// The thread-confined hand-off slot: a single cell, one per OS thread,
/// through which the engine smuggles state past the provider's
/// fixed-signature entry point. It holds at most one in-flight
/// suspended-execution handle — parked by the resume that activated the
/// running routine, taken by that routine's next yield — and, transiently
/// during bootstrap, the not-yet-started body `F` of the routine.
///
/// The slot itself is plain data; confining one instance to each thread is
/// its owner's obligation.
pub struct HandoffSlot<F> {
    transfer: Option<context::Transfer>,
    pending: Option<F>,
}

impl<F> HandoffSlot<F> {
    /// The parked suspended-execution handle, if any.
    pub closed spec fn spec_transfer(self) -> Option<context::Transfer> {
        self.transfer
    }

    /// The staged not-yet-started body, if any.
    pub closed spec fn spec_pending(self) -> Option<F> {
        self.pending
    }

    /// Whether a live handle is parked here, that is whether the code that
    /// reads the slot is presently running as a coroutine body.
    pub open spec fn has_transfer(self) -> bool {
        self.spec_transfer() is Some
    }

    /// A slot holding neither a handle nor a pending body: the state of
    /// every thread that is not inside a coroutine.
    pub fn empty() -> (s: Self)
        ensures
            s.spec_transfer() is None,
            s.spec_pending() is None,
    {
        HandoffSlot { transfer: None, pending: None }
    }

    /// Whether a live handle is parked here.
    pub fn holds_transfer(&self) -> (r: bool)
        ensures
            r == self.has_transfer(),
    {
        self.transfer.is_some()
    }

    /// Whether a body is staged for bootstrap.
    pub fn holds_pending(&self) -> (r: bool)
        ensures
            r == (self.spec_pending() is Some),
    {
        self.pending.is_some()
    }

    /// Stage the not-yet-started body for the bootstrap hand-off. The slot
    /// must be free of a pending body: two routines may not bootstrap at
    /// once on one thread.
    pub fn store_pending(&mut self, body: F)
        requires
            old(self).spec_pending() is None,
        ensures
            final(self).spec_pending() == Some(body),
            final(self).spec_transfer() == old(self).spec_transfer(),
    {
        self.pending = Some(body);
    }

    /// Claim the staged body, leaving the slot's body half empty. The
    /// trampoline calls this exactly once, right after it starts; finding
    /// no body is the fatal bootstrap failure.
    pub fn take_pending(&mut self) -> (r: Result<F, ProtocolViolation>)
        ensures
            old(self).spec_pending() matches Some(body) ==> r == Ok::<F, ProtocolViolation>(body),
            old(self).spec_pending() is None ==> r == Err::<F, ProtocolViolation>(
                ProtocolViolation::BootstrapClosureMissing,
            ),
            final(self).spec_pending() is None,
            final(self).spec_transfer() == old(self).spec_transfer(),
    {
        match self.pending.take() {
            Some(body) => Ok(body),
            None => Err(ProtocolViolation::BootstrapClosureMissing),
        }
    }

    /// Park a suspended-execution handle: done by the trampoline with the
    /// transfer that first activated the routine, and by every yield with
    /// the transfer produced by the resume that reactivated it.
    pub fn store_transfer(&mut self, t: context::Transfer)
        ensures
            final(self).spec_transfer() == Some(t),
            final(self).spec_pending() == old(self).spec_pending(),
    {
        self.transfer = Some(t);
    }

    /// Take the parked handle out for a yield, leaving the slot empty while
    /// the resumer runs. An empty slot means the caller is not inside a
    /// coroutine: the fatal misuse of the yield primitive.
    pub fn take_transfer(&mut self) -> (r: Result<context::Transfer, ProtocolViolation>)
        ensures
            old(self).spec_transfer() matches Some(t) ==> r == Ok::<
                context::Transfer,
                ProtocolViolation,
            >(t),
            old(self).spec_transfer() is None ==> r == Err::<context::Transfer, ProtocolViolation>(
                ProtocolViolation::NotInsideCoroutine,
            ),
            final(self).spec_transfer() is None,
            final(self).spec_pending() == old(self).spec_pending(),
    {
        match self.transfer.take() {
            Some(t) => Ok(t),
            None => Err(ProtocolViolation::NotInsideCoroutine),
        }
    }
}

} // verus!
