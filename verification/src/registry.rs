//! The callback handle registry: one optional handle per logical role.
//!
//! The host side owns the real callback references and shares them behind a
//! lock; this is the verified model of that slot structure. A handle is an
//! opaque token standing for one registered callback reference; at most one
//! handle is held per role, absence is a valid state, and registering
//! replaces whatever was there. What a reader makes of a poisoned lock is
//! decided in `bridge::effective_presence`: absent, never an error.

use vstd::prelude::*;

verus! {

/// The fixed logical roles a callback can be registered under.
#[derive(Clone, Copy, Debug, PartialEq, Eq, Structural)]
pub enum CallbackRole {
    /// Receives streamed output chunks.
    Stream,
    /// Receives out-of-band status notifications.
    Status,
    /// Runs one complete request to a response.
    Runner,
}

/// The registry: zero or one opaque handle per role.
pub struct CallbackRegistry {
    stream: Option<u64>,
    status: Option<u64>,
    runner: Option<u64>,
}

impl CallbackRegistry {
    /// The handle currently registered for `role`.
    pub closed spec fn spec_slot(&self, role: CallbackRole) -> Option<u64> {
        match role {
            CallbackRole::Stream => self.stream,
            CallbackRole::Status => self.status,
            CallbackRole::Runner => self.runner,
        }
    }

    /// A registry with every role empty.
    pub fn new() -> (r: Self)
        ensures
            forall|role: CallbackRole| r.spec_slot(role) is None,
    {
        CallbackRegistry { stream: None, status: None, runner: None }
    }

    /// Register `handle` for `role`, replacing and thereby dropping any
    /// previous registration; every other role keeps its handle.
    pub fn register(&mut self, role: CallbackRole, handle: u64)
        ensures
            final(self).spec_slot(role) == Some(handle),
            forall|other: CallbackRole|
                other != role ==> final(self).spec_slot(other) == old(self).spec_slot(other),
    {
        match role {
            CallbackRole::Stream => self.stream = Some(handle),
            CallbackRole::Status => self.status = Some(handle),
            CallbackRole::Runner => self.runner = Some(handle),
        }
    }

    /// Remove any registration for `role`; every other role keeps its
    /// handle.
    pub fn unregister(&mut self, role: CallbackRole)
        ensures
            final(self).spec_slot(role) is None,
            forall|other: CallbackRole|
                other != role ==> final(self).spec_slot(other) == old(self).spec_slot(other),
    {
        match role {
            CallbackRole::Stream => self.stream = None,
            CallbackRole::Status => self.status = None,
            CallbackRole::Runner => self.runner = None,
        }
    }

    /// Whether a callback is currently registered for `role`.
    pub fn is_present(&self, role: CallbackRole) -> (r: bool)
        ensures
            r == (self.spec_slot(role) is Some),
    {
        match role {
            CallbackRole::Stream => self.stream.is_some(),
            CallbackRole::Status => self.status.is_some(),
            CallbackRole::Runner => self.runner.is_some(),
        }
    }

    /// The handle for `role`, cloned out so that no lock need be held while
    /// it is used.
    pub fn current(&self, role: CallbackRole) -> (r: Option<u64>)
        ensures
            r == self.spec_slot(role),
    {
        match role {
            CallbackRole::Stream => self.stream,
            CallbackRole::Status => self.status,
            CallbackRole::Runner => self.runner,
        }
    }
}

} // verus!
