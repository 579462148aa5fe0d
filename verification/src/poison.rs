//! What the lock-based workspaces answer when access is not simply granted.

use vstd::prelude::*;

verus! {

/// The access that was asked for, obtained from a workspace whose previous
/// holder failed while it had the lock. The value may be half-written; the
/// access is there all the same, for the caller to use or to discard.
#[derive(Debug)]
pub struct PoisonError<G> {
    guard: G,
}

impl<G> PoisonError<G> {
    /// The access that came with the error.
    pub closed spec fn inner(self) -> G {
        self.guard
    }

    /// Wraps `guard` as access to a poisoned workspace.
    pub fn new(guard: G) -> (e: Self)
        ensures
            e.inner() == guard,
    {
        PoisonError { guard }
    }

    /// Takes the access out of the error.
    pub fn into_inner(self) -> (guard: G)
        ensures
            guard == self.inner(),
    {
        self.guard
    }

    /// Looks at the access without taking it out.
    pub fn get_ref(&self) -> (guard: &G)
        ensures
            *guard == self.inner(),
    {
        &self.guard
    }

    /// Uses the access without taking it out.
    pub fn get_mut(&mut self) -> (guard: &mut G)
        ensures
            *guard == old(self).inner(),
            final(self).inner() == *final(guard),
    {
        &mut self.guard
    }
}

/// How a lock answers a request for access that does not wait.
pub enum Answer {
    /// Access, and nothing to report.
    Granted,
    /// Access, from a workspace whose previous holder failed.
    Poisoned,
    /// No access: somebody else holds the workspace.
    WouldBlock,
}

/// Why a request that does not wait came back without plain access.
#[derive(Debug)]
pub enum TryLockError<G> {
    /// Access was obtained, from a poisoned workspace.
    Poisoned(PoisonError<G>),
    /// Somebody else holds the workspace.
    WouldBlock,
}

} // verus!
