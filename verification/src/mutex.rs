//! The mutual-exclusion workspace: one holder at a time, every access
//! exclusive, and a poison flag that records a holder's failure.

use crate::poison::{Answer, PoisonError, TryLockError};
use crate::reset::{accepts_all, run};
use vstd::prelude::*;

verus! {

/// What a workspace is at one moment: the value, the reset function, whether
/// somebody holds the lock, and whether a holder has failed.
pub struct State<T, F> {
    pub value: T,
    pub reset: F,
    pub locked: bool,
    pub poisoned: bool,
}

impl<T, F> State<T, F> {
    /// The same state with the lock taken.
    pub open spec fn claim(self) -> Self {
        State { locked: true, ..self }
    }

    /// The same state with `value` in place of the value.
    pub open spec fn put(self, value: T) -> Self {
        State { value, ..self }
    }

    /// The state once the lock is given back and the value is `value`.
    pub open spec fn settle(self, value: T) -> Self {
        State { value, locked: false, ..self }
    }

    /// The state once a failed holder is gone and the value is `value`.
    pub open spec fn fail(self, value: T) -> Self {
        State { value, locked: false, poisoned: true, ..self }
    }

    /// The same state with the lock given back.
    pub open spec fn free(self) -> Self {
        State { locked: false, ..self }
    }

    /// The same state with the poison flag cleared.
    pub open spec fn cleared(self) -> Self {
        State { poisoned: false, ..self }
    }

    /// The answer to a request for the lock that does not wait.
    pub open spec fn answer(self) -> Answer {
        if self.locked {
            Answer::WouldBlock
        } else if self.poisoned {
            Answer::Poisoned
        } else {
            Answer::Granted
        }
    }
}

/// What a released handle leaves behind is what the next holder gets: once
/// the lock is given back with `value` in place, a sound workspace grants
/// the next request, and the value is `value`.
pub proof fn lemma_settled_is_open<T, F>(s: State<T, F>, value: T)
    requires
        !s.poisoned,
    ensures
        s.settle(value).answer() == Answer::Granted,
        s.settle(value).value == value,
{
}

/// Write exclusivity: while the lock is taken, a request that does not
/// wait is answered with `WouldBlock`, poisoned or not.
pub proof fn lemma_claimed_refuses<T, F>(s: State<T, F>)
    ensures
        s.claim().answer() == Answer::WouldBlock,
{
}

/// Poisoning surfaces and loses nothing: after a holder has failed, the next
/// request is answered with access to a poisoned workspace, the value is the
/// one the failed holder left, and clearing the flag makes the workspace
/// sound again.
pub proof fn lemma_failure_poisons<T, F>(s: State<T, F>, value: T)
    ensures
        s.fail(value).answer() == Answer::Poisoned,
        s.fail(value).value == value,
        s.fail(value).cleared().answer() == Answer::Granted,
        s.fail(value).cleared().value == value,
{
}

/// A value behind a lock, with a reset function that runs whenever a write
/// handle on the value is released.
pub struct Temp<T: Send, F: FnMut(&mut T) + Send> {
    value: T,
    reset: F,
    locked: bool,
    poisoned: bool,
}

/// The lock on a [`Temp`], with access to its value. Releasing the handle
/// resets the value; a handle that is let go of in any other way leaves the
/// workspace locked.
#[must_use]
pub struct TempRef<'a, T: Send, F: FnMut(&mut T) + Send> {
    owner: &'a mut Temp<T, F>,
}

/// The lock on a poisoned [`Temp`], with access to its value as the failed
/// holder left it. Releasing it gives the lock back and runs no reset.
#[must_use]
pub struct LockGuard<'a, T: Send, F: FnMut(&mut T) + Send> {
    owner: &'a mut Temp<T, F>,
}

impl<T: Send, F: FnMut(&mut T) + Send> View for Temp<T, F> {
    type V = State<T, F>;

    closed spec fn view(&self) -> State<T, F> {
        State { value: self.value, reset: self.reset, locked: self.locked, poisoned: self.poisoned }
    }
}

impl<T: Send, F: FnMut(&mut T) + Send> Temp<T, F> {
    /// The reset function can be run on whatever a holder leaves behind.
    pub open spec fn wf(self) -> bool {
        accepts_all(self@.reset)
    }

    /// Makes a workspace around `value`, which is kept as given.
    pub fn new(value: T, reset: F) -> (r: Self)
        requires
            accepts_all(reset),
        ensures
            r@ == (State { value, reset, locked: false, poisoned: false }),
    {
        Temp { value, reset, locked: false, poisoned: false }
    }

    /// Makes a workspace around `value` after running `reset` on it once.
    pub fn new_with(value: T, reset: F) -> (r: Self)
        requires
            accepts_all(reset),
        ensures
            exists|x: &mut T|
                *x == value && #[trigger] call_ensures(reset, (x,), ()) && r@ == (State {
                    value: *final(x),
                    reset,
                    locked: false,
                    poisoned: false,
                }),
    {
        let mut value = value;
        let mut reset = reset;
        run(&mut reset, &mut value);
        Temp { value, reset, locked: false, poisoned: false }
    }

    /// Takes the lock. From a sound workspace the answer is a write handle;
    /// from a poisoned one it is the error, and the lock comes inside it.
    ///
    /// A workspace that is locked already never answers, so the caller must
    /// know that it is free.
    pub fn lock<'a>(&'a mut self) -> (r: Result<
        TempRef<'a, T, F>,
        PoisonError<LockGuard<'a, T, F>>,
    >)
        requires
            !old(self)@.locked,
        ensures
            match r {
                Ok(g) => {
                    &&& old(self)@.answer() == Answer::Granted
                    &&& g@ == old(self)@.claim()
                    &&& *final(self) == *final(g.target())
                },
                Err(e) => {
                    &&& old(self)@.answer() == Answer::Poisoned
                    &&& e.inner()@ == old(self)@.claim()
                    &&& *final(self) == *final(e.inner().target())
                },
            },
    {
        TempRef::new(self)
    }

    /// Takes the lock if it is free. From a sound workspace the answer is a
    /// write handle; from a poisoned one it is `Poisoned`, with the lock
    /// inside; from a locked one it is `WouldBlock`, with nothing changed.
    pub fn try_lock<'a>(&'a mut self) -> (r: Result<
        TempRef<'a, T, F>,
        TryLockError<LockGuard<'a, T, F>>,
    >)
        ensures
            match r {
                Ok(g) => {
                    &&& old(self)@.answer() == Answer::Granted
                    &&& g@ == old(self)@.claim()
                    &&& *final(self) == *final(g.target())
                },
                Err(TryLockError::Poisoned(e)) => {
                    &&& old(self)@.answer() == Answer::Poisoned
                    &&& e.inner()@ == old(self)@.claim()
                    &&& *final(self) == *final(e.inner().target())
                },
                Err(TryLockError::WouldBlock) => {
                    &&& old(self)@.answer() == Answer::WouldBlock
                    &&& *final(self) == *old(self)
                },
            },
    {
        TempRef::try_new(self)
    }

    /// Gives up the workspace for its value, as it stands and without a reset.
    /// From a poisoned workspace the value comes inside the error.
    pub fn into_inner(self) -> (r: Result<T, PoisonError<T>>)
        ensures
            match r {
                Ok(v) => !self@.poisoned && v == self@.value,
                Err(e) => self@.poisoned && e.inner() == self@.value,
            },
    {
        if self.poisoned {
            Err(PoisonError::new(self.value))
        } else {
            Ok(self.value)
        }
    }

    /// Declares the value sound again.
    pub fn clear_poison(&mut self)
        ensures
            final(self)@ == old(self)@.cleared(),
    {
        self.poisoned = false;
    }

    /// Whether a holder has failed since the flag was last cleared.
    pub fn is_poisoned(&self) -> (r: bool)
        ensures
            r == self@.poisoned,
    {
        self.poisoned
    }

    /// Runs the reset function on the value, whatever the lock state is.
    fn run_reset(&mut self)
        requires
            old(self).wf(),
        ensures
            exists|x: &mut T|
                *x == old(self)@.value && #[trigger] call_ensures(old(self)@.reset, (x,), ())
                    && final(self)@ == old(self)@.put(*final(x)),
    {
        run(&mut self.reset, &mut self.value);
    }

    /// Takes the lock, runs the reset function on the value and gives the lock
    /// back. On a poisoned workspace nothing is reset: the answer is the
    /// error, and the lock comes inside it.
    ///
    /// A workspace that is locked already never answers, so the caller must
    /// know that it is free.
    pub fn reset<'a>(&'a mut self) -> (r: Result<(), PoisonError<LockGuard<'a, T, F>>>)
        requires
            old(self).wf(),
            !old(self)@.locked,
        ensures
            match r {
                Ok(_) => {
                    &&& old(self)@.answer() == Answer::Granted
                    &&& exists|x: &mut T|
                        *x == old(self)@.value && #[trigger] call_ensures(
                            old(self)@.reset,
                            (x,),
                            (),
                        ) && final(self)@ == old(self)@.put(*final(x))
                },
                Err(e) => {
                    &&& old(self)@.answer() == Answer::Poisoned
                    &&& e.inner()@ == old(self)@.claim()
                    &&& *final(self) == *final(e.inner().target())
                },
            },
    {
        if self.poisoned {
            self.locked = true;
            Err(PoisonError::new(LockGuard { owner: self }))
        } else {
            self.run_reset();
            Ok(())
        }
    }

    /// Does what [`Temp::reset`] does if the lock is free, and returns
    /// `WouldBlock`, with nothing changed, if it is not.
    pub fn try_reset<'a>(&'a mut self) -> (r: Result<(), TryLockError<LockGuard<'a, T, F>>>)
        requires
            old(self).wf(),
        ensures
            match r {
                Ok(_) => {
                    &&& old(self)@.answer() == Answer::Granted
                    &&& exists|x: &mut T|
                        *x == old(self)@.value && #[trigger] call_ensures(
                            old(self)@.reset,
                            (x,),
                            (),
                        ) && final(self)@ == old(self)@.put(*final(x))
                },
                Err(TryLockError::Poisoned(e)) => {
                    &&& old(self)@.answer() == Answer::Poisoned
                    &&& e.inner()@ == old(self)@.claim()
                    &&& *final(self) == *final(e.inner().target())
                },
                Err(TryLockError::WouldBlock) => {
                    &&& old(self)@.answer() == Answer::WouldBlock
                    &&& *final(self) == *old(self)
                },
            },
    {
        if self.locked {
            Err(TryLockError::WouldBlock)
        } else if self.poisoned {
            self.locked = true;
            Err(TryLockError::Poisoned(PoisonError::new(LockGuard { owner: self })))
        } else {
            self.run_reset();
            Ok(())
        }
    }
}

impl<T: Default + Send, F: FnMut(&mut T) + Send> Temp<T, F> {
    /// Makes a workspace around the default value of `T`.
    pub fn new_default(reset: F) -> (r: Self)
        requires
            accepts_all(reset),
        ensures
            exists|value: T| #[trigger]
                call_ensures(T::default, (), value) && r@ == (State {
                    value,
                    reset,
                    locked: false,
                    poisoned: false,
                }),
    {
        Temp { value: T::default(), reset, locked: false, poisoned: false }
    }

    /// Makes a workspace around the default value of `T` after running `reset`
    /// on it once.
    pub fn new_default_with(reset: F) -> (r: Self)
        requires
            accepts_all(reset),
        ensures
            exists|x: &mut T|
                call_ensures(T::default, (), *x) && #[trigger] call_ensures(reset, (x,), ()) && r@
                    == (State { value: *final(x), reset, locked: false, poisoned: false }),
    {
        let mut value = T::default();
        let mut reset = reset;
        run(&mut reset, &mut value);
        Temp { value, reset, locked: false, poisoned: false }
    }
}

impl<'a, T: Send, F: FnMut(&mut T) + Send> View for TempRef<'a, T, F> {
    type V = State<T, F>;

    /// The workspace as the handle sees it now.
    closed spec fn view(&self) -> State<T, F> {
        self.owner@
    }
}

impl<'a, T: Send, F: FnMut(&mut T) + Send> TempRef<'a, T, F> {
    /// The workspace that the handle was taken from. Its final state is the
    /// one that the handle leaves it in.
    pub closed spec fn target(self) -> &'a mut Temp<T, F> {
        self.owner
    }

    /// The workspace is locked by this handle and can be reset.
    pub open spec fn wf(self) -> bool {
        self@.locked && accepts_all(self@.reset)
    }

    /// Takes the lock on `temp`, which nobody holds. A poisoned workspace
    /// gives the lock without the reset on release.
    fn new(temp: &'a mut Temp<T, F>) -> (r: Result<Self, PoisonError<LockGuard<'a, T, F>>>)
        requires
            !old(temp)@.locked,
        ensures
            match r {
                Ok(g) => {
                    &&& old(temp)@.answer() == Answer::Granted
                    &&& g@ == old(temp)@.claim()
                    &&& *final(temp) == *final(g.target())
                },
                Err(e) => {
                    &&& old(temp)@.answer() == Answer::Poisoned
                    &&& e.inner()@ == old(temp)@.claim()
                    &&& *final(temp) == *final(e.inner().target())
                },
            },
    {
        temp.locked = true;
        if temp.poisoned {
            Err(PoisonError::new(LockGuard { owner: temp }))
        } else {
            Ok(TempRef { owner: temp })
        }
    }

    /// Takes the lock on `temp` unless somebody holds it.
    fn try_new(temp: &'a mut Temp<T, F>) -> (r: Result<Self, TryLockError<LockGuard<'a, T, F>>>)
        ensures
            match r {
                Ok(g) => {
                    &&& old(temp)@.answer() == Answer::Granted
                    &&& g@ == old(temp)@.claim()
                    &&& *final(temp) == *final(g.target())
                },
                Err(TryLockError::Poisoned(e)) => {
                    &&& old(temp)@.answer() == Answer::Poisoned
                    &&& e.inner()@ == old(temp)@.claim()
                    &&& *final(temp) == *final(e.inner().target())
                },
                Err(TryLockError::WouldBlock) => {
                    &&& old(temp)@.answer() == Answer::WouldBlock
                    &&& *final(temp) == *old(temp)
                },
            },
    {
        if temp.locked {
            Err(TryLockError::WouldBlock)
        } else {
            temp.locked = true;
            if temp.poisoned {
                Err(TryLockError::Poisoned(PoisonError::new(LockGuard { owner: temp })))
            } else {
                Ok(TempRef { owner: temp })
            }
        }
    }

    /// A handle that is let go of without `release` leaves the workspace as
    /// the handle saw it last: still locked, with the value as written.
    pub proof fn lemma_unreleased(self)
        requires
            has_resolved(self),
        ensures
            final(self.target())@ == self@,
    {
    }

    /// Runs the reset function on the value without giving the handle up.
    pub fn reset(&mut self)
        requires
            old(self).wf(),
        ensures
            exists|x: &mut T|
                *x == old(self)@.value && #[trigger] call_ensures(old(self)@.reset, (x,), ())
                    && final(self)@ == old(self)@.put(*final(x)),
            *final(final(self).target()) == *final(old(self).target()),
    {
        self.owner.run_reset();
    }

    /// Gives the handle up: the reset function runs on the value as the
    /// holder left it, and the lock is free again.
    pub fn release(self)
        requires
            self.wf(),
        ensures
            exists|x: &mut T|
                *x == self@.value && #[trigger] call_ensures(self@.reset, (x,), ())
                    && final(self.target())@ == self@.settle(*final(x)),
    {
        let TempRef { owner } = self;
        owner.run_reset();
        owner.locked = false;
    }

    /// Gives the handle up on behalf of a holder that failed in the middle of
    /// its work: the reset function runs, the lock is free again, and the
    /// workspace is poisoned.
    pub fn abandon(self)
        requires
            self.wf(),
        ensures
            exists|x: &mut T|
                *x == self@.value && #[trigger] call_ensures(self@.reset, (x,), ())
                    && final(self.target())@ == self@.fail(*final(x)),
    {
        let TempRef { owner } = self;
        owner.run_reset();
        owner.poisoned = true;
        owner.locked = false;
    }
}

impl<'a, T: Send, F: FnMut(&mut T) + Send> core::ops::Deref for TempRef<'a, T, F> {
    type Target = T;

    /// The value as the holder has left it so far.
    fn deref(&self) -> (r: &T)
        ensures
            *r == self@.value,
    {
        &self.owner.value
    }
}

impl<'a, T: Send, F: FnMut(&mut T) + Send> core::ops::DerefMut for TempRef<'a, T, F> {
    /// The value, to be changed at will: what is written here is what the
    /// handle holds afterwards.
    fn deref_mut(&mut self) -> (r: &mut T)
        ensures
            *r == old(self)@.value,
            final(self)@ == old(self)@.put(*final(r)),
            *final(final(self).target()) == *final(old(self).target()),
    {
        &mut self.owner.value
    }
}

impl<'a, T: Send, F: FnMut(&mut T) + Send> View for LockGuard<'a, T, F> {
    type V = State<T, F>;

    /// The workspace as the guard sees it now.
    closed spec fn view(&self) -> State<T, F> {
        self.owner@
    }
}

impl<'a, T: Send, F: FnMut(&mut T) + Send> LockGuard<'a, T, F> {
    /// The workspace that the guard was taken from. Its final state is the
    /// one that the guard leaves it in.
    pub closed spec fn target(self) -> &'a mut Temp<T, F> {
        self.owner
    }

    /// A guard that is let go of without `release` leaves the workspace as
    /// the guard saw it last: still locked.
    pub proof fn lemma_unreleased(self)
        requires
            has_resolved(self),
        ensures
            final(self.target())@ == self@,
    {
    }

    /// Gives the lock back. The value stays as it is.
    pub fn release(self)
        ensures
            final(self.target())@ == self@.free(),
    {
        let LockGuard { owner } = self;
        owner.locked = false;
    }
}

impl<'a, T: Send, F: FnMut(&mut T) + Send> core::ops::Deref for LockGuard<'a, T, F> {
    type Target = T;

    /// The value as it stands.
    fn deref(&self) -> (r: &T)
        ensures
            *r == self@.value,
    {
        &self.owner.value
    }
}

impl<'a, T: Send, F: FnMut(&mut T) + Send> core::ops::DerefMut for LockGuard<'a, T, F> {
    /// The value, to be changed at will.
    fn deref_mut(&mut self) -> (r: &mut T)
        ensures
            *r == old(self)@.value,
            final(self)@ == old(self)@.put(*final(r)),
            *final(final(self).target()) == *final(old(self).target()),
    {
        &mut self.owner.value
    }
}

} // verus!
