//! The read/write workspace: any number of readers or one writer, and a
//! poison flag that records a writer's failure.

use crate::poison::{Answer, PoisonError, TryLockError};
use crate::reset::{accepts_all, run};
use vstd::prelude::*;

verus! {

/// What a workspace is at one moment: the value, the reset function, whether
/// a writer holds the lock, and whether a writer has failed.
pub struct State<T, F> {
    pub value: T,
    pub reset: F,
    pub writing: bool,
    pub poisoned: bool,
}

impl<T, F> State<T, F> {
    /// The same state with the write lock taken.
    pub open spec fn claim(self) -> Self {
        State { writing: true, ..self }
    }

    /// The same state with `value` in place of the value.
    pub open spec fn put(self, value: T) -> Self {
        State { value, ..self }
    }

    /// The state once the write lock is given back and the value is `value`.
    pub open spec fn settle(self, value: T) -> Self {
        State { value, writing: false, ..self }
    }

    /// The state once a failed writer is gone and the value is `value`.
    pub open spec fn fail(self, value: T) -> Self {
        State { value, writing: false, poisoned: true, ..self }
    }

    /// The same state with the write lock given back.
    pub open spec fn free(self) -> Self {
        State { writing: false, ..self }
    }

    /// The same state with the poison flag cleared.
    pub open spec fn cleared(self) -> Self {
        State { poisoned: false, ..self }
    }

    /// The answer to a request for access, shared or exclusive, that does not
    /// wait. Readers hold no claim of their own, so only a writer stands in
    /// the way.
    pub open spec fn answer(self) -> Answer {
        if self.writing {
            Answer::WouldBlock
        } else if self.poisoned {
            Answer::Poisoned
        } else {
            Answer::Granted
        }
    }
}

/// What a released handle leaves behind is what the next holder gets: once
/// the write lock is given back with `value` in place, a sound workspace grants
/// the next request, and the value is `value`.
pub proof fn lemma_settled_is_open<T, F>(s: State<T, F>, value: T)
    requires
        !s.poisoned,
    ensures
        s.settle(value).answer() == Answer::Granted,
        s.settle(value).value == value,
{
}

/// Write exclusivity: while the write lock is taken, a request that does not
/// wait is answered with `WouldBlock`, poisoned or not.
pub proof fn lemma_claimed_refuses<T, F>(s: State<T, F>)
    ensures
        s.claim().answer() == Answer::WouldBlock,
{
}

/// Poisoning surfaces and loses nothing: after a writer has failed, the next
/// request is answered with access to a poisoned workspace, the value is the
/// one the failed writer left, and clearing the flag makes the workspace
/// sound again.
pub proof fn lemma_failure_poisons<T, F>(s: State<T, F>, value: T)
    ensures
        s.fail(value).answer() == Answer::Poisoned,
        s.fail(value).value == value,
        s.fail(value).cleared().answer() == Answer::Granted,
        s.fail(value).cleared().value == value,
{
}

/// Readers coexist: a reader holds no claim, so a workspace that no writer
/// holds gives each of them access, poisoned or not.
pub proof fn lemma_readers_coexist<T, F>(s: State<T, F>)
    requires
        !s.writing,
    ensures
        s.answer() != Answer::WouldBlock,
{
}

/// A value behind a read/write lock, with a reset function that runs whenever
/// a write handle on the value is released.
pub struct Temp<T: Send, F: FnMut(&mut T) + Sync> {
    value: T,
    reset: F,
    writing: bool,
    poisoned: bool,
}

/// The write lock on a [`Temp`], with access to its value. Releasing the
/// handle resets the value; a handle that is let go of in any other way
/// leaves the workspace locked.
#[must_use]
pub struct TempRef<'a, T: Send, F: FnMut(&mut T) + Sync> {
    owner: &'a mut Temp<T, F>,
}

/// The write lock on a poisoned [`Temp`], with access to its value as the
/// failed writer left it. Releasing it gives the lock back and runs no reset.
#[must_use]
pub struct WriteGuard<'a, T: Send, F: FnMut(&mut T) + Sync> {
    owner: &'a mut Temp<T, F>,
}

impl<T: Send, F: FnMut(&mut T) + Sync> View for Temp<T, F> {
    type V = State<T, F>;

    closed spec fn view(&self) -> State<T, F> {
        State { value: self.value, reset: self.reset, writing: self.writing, poisoned: self.poisoned }
    }
}

impl<T: Send, F: FnMut(&mut T) + Sync> Temp<T, F> {
    /// The reset function can be run on whatever a holder leaves behind.
    pub open spec fn wf(self) -> bool {
        accepts_all(self@.reset)
    }

    /// Makes a workspace around `value`, which is kept as given.
    pub fn new(value: T, reset: F) -> (r: Self)
        requires
            accepts_all(reset),
        ensures
            r@ == (State { value, reset, writing: false, poisoned: false }),
    {
        Temp { value, reset, writing: false, poisoned: false }
    }

    /// Makes a workspace around `value` after running `reset` on it once.
    pub fn new_with(value: T, reset: F) -> (r: Self)
        requires
            accepts_all(reset),
        ensures
            exists|x: &mut T|
                *x == value && #[trigger] call_ensures(reset, (x,), ()) && r@ == (State {
                    value: *final(x),
                    reset,
                    writing: false,
                    poisoned: false,
                }),
    {
        let mut value = value;
        let mut reset = reset;
        run(&mut reset, &mut value);
        Temp { value, reset, writing: false, poisoned: false }
    }

    /// A shared view of the value. Any number of them may exist side by side.
    /// From a poisoned workspace the view comes inside the error.
    ///
    /// A workspace that a writer holds never answers, so the caller must know
    /// that it is free.
    pub fn read(&self) -> (r: Result<&T, PoisonError<&T>>)
        requires
            !self@.writing,
        ensures
            match r {
                Ok(v) => self@.answer() == Answer::Granted && *v == self@.value,
                Err(e) => self@.answer() == Answer::Poisoned && *e.inner() == self@.value,
            },
    {
        if self.poisoned {
            Err(PoisonError::new(&self.value))
        } else {
            Ok(&self.value)
        }
    }

    /// A shared view of the value if no writer holds the workspace. From a
    /// poisoned workspace the view comes inside `Poisoned`; from one that a
    /// writer holds the answer is `WouldBlock`.
    pub fn try_read(&self) -> (r: Result<&T, TryLockError<&T>>)
        ensures
            match r {
                Ok(v) => self@.answer() == Answer::Granted && *v == self@.value,
                Err(TryLockError::Poisoned(e)) => self@.answer() == Answer::Poisoned
                    && *e.inner() == self@.value,
                Err(TryLockError::WouldBlock) => self@.answer() == Answer::WouldBlock,
            },
    {
        if self.writing {
            Err(TryLockError::WouldBlock)
        } else if self.poisoned {
            Err(TryLockError::Poisoned(PoisonError::new(&self.value)))
        } else {
            Ok(&self.value)
        }
    }

    /// Takes the write lock. From a sound workspace the answer is a write handle;
    /// from a poisoned one it is the error, and the lock comes inside it.
    ///
    /// A workspace that a writer holds never answers, so the caller must know
    /// that it is free.
    pub fn write<'a>(&'a mut self) -> (r: Result<
        TempRef<'a, T, F>,
        PoisonError<WriteGuard<'a, T, F>>,
    >)
        requires
            !old(self)@.writing,
        ensures
            match r {
                Ok(g) => {
                    &&& old(self)@.answer() == Answer::Granted
                    &&& g@ == old(self)@.claim()
                    &&& *final(self) == *final(g.target())
                },
                Err(e) => {
                    &&& old(self)@.answer() == Answer::Poisoned
                    &&& e.inner()@ == old(self)@.claim()
                    &&& *final(self) == *final(e.inner().target())
                },
            },
    {
        TempRef::new(self)
    }

    /// Takes the write lock if it is free. From a sound workspace the answer is a
    /// write handle; from a poisoned one it is `Poisoned`, with the lock
    /// inside; from one that a writer holds it is `WouldBlock`, with nothing
    /// changed.
    pub fn try_write<'a>(&'a mut self) -> (r: Result<
        TempRef<'a, T, F>,
        TryLockError<WriteGuard<'a, T, F>>,
    >)
        ensures
            match r {
                Ok(g) => {
                    &&& old(self)@.answer() == Answer::Granted
                    &&& g@ == old(self)@.claim()
                    &&& *final(self) == *final(g.target())
                },
                Err(TryLockError::Poisoned(e)) => {
                    &&& old(self)@.answer() == Answer::Poisoned
                    &&& e.inner()@ == old(self)@.claim()
                    &&& *final(self) == *final(e.inner().target())
                },
                Err(TryLockError::WouldBlock) => {
                    &&& old(self)@.answer() == Answer::WouldBlock
                    &&& *final(self) == *old(self)
                },
            },
    {
        TempRef::try_new(self)
    }

    /// Gives up the workspace for its value, as it stands and without a reset.
    /// From a poisoned workspace the value comes inside the error.
    pub fn into_inner(self) -> (r: Result<T, PoisonError<T>>)
        ensures
            match r {
                Ok(v) => !self@.poisoned && v == self@.value,
                Err(e) => self@.poisoned && e.inner() == self@.value,
            },
    {
        if self.poisoned {
            Err(PoisonError::new(self.value))
        } else {
            Ok(self.value)
        }
    }

    /// Declares the value sound again.
    pub fn clear_poison(&mut self)
        ensures
            final(self)@ == old(self)@.cleared(),
    {
        self.poisoned = false;
    }

    /// Whether a holder has failed since the flag was last cleared.
    pub fn is_poisoned(&self) -> (r: bool)
        ensures
            r == self@.poisoned,
    {
        self.poisoned
    }

    /// Runs the reset function on the value, whatever the lock state is.
    fn run_reset(&mut self)
        requires
            old(self).wf(),
        ensures
            exists|x: &mut T|
                *x == old(self)@.value && #[trigger] call_ensures(old(self)@.reset, (x,), ())
                    && final(self)@ == old(self)@.put(*final(x)),
    {
        run(&mut self.reset, &mut self.value);
    }

    /// Takes the write lock, runs the reset function on the value and gives the lock
    /// back. On a poisoned workspace nothing is reset: the answer is the
    /// error, and the lock comes inside it.
    ///
    /// A workspace that a writer holds never answers, so the caller must know
    /// that it is free.
    pub fn reset<'a>(&'a mut self) -> (r: Result<(), PoisonError<WriteGuard<'a, T, F>>>)
        requires
            old(self).wf(),
            !old(self)@.writing,
        ensures
            match r {
                Ok(_) => {
                    &&& old(self)@.answer() == Answer::Granted
                    &&& exists|x: &mut T|
                        *x == old(self)@.value && #[trigger] call_ensures(
                            old(self)@.reset,
                            (x,),
                            (),
                        ) && final(self)@ == old(self)@.put(*final(x))
                },
                Err(e) => {
                    &&& old(self)@.answer() == Answer::Poisoned
                    &&& e.inner()@ == old(self)@.claim()
                    &&& *final(self) == *final(e.inner().target())
                },
            },
    {
        if self.poisoned {
            self.writing = true;
            Err(PoisonError::new(WriteGuard { owner: self }))
        } else {
            self.run_reset();
            Ok(())
        }
    }

    /// Does what [`Temp::reset`] does if the lock is free, and returns
    /// `WouldBlock`, with nothing changed, if it is not.
    pub fn try_reset<'a>(&'a mut self) -> (r: Result<(), TryLockError<WriteGuard<'a, T, F>>>)
        requires
            old(self).wf(),
        ensures
            match r {
                Ok(_) => {
                    &&& old(self)@.answer() == Answer::Granted
                    &&& exists|x: &mut T|
                        *x == old(self)@.value && #[trigger] call_ensures(
                            old(self)@.reset,
                            (x,),
                            (),
                        ) && final(self)@ == old(self)@.put(*final(x))
                },
                Err(TryLockError::Poisoned(e)) => {
                    &&& old(self)@.answer() == Answer::Poisoned
                    &&& e.inner()@ == old(self)@.claim()
                    &&& *final(self) == *final(e.inner().target())
                },
                Err(TryLockError::WouldBlock) => {
                    &&& old(self)@.answer() == Answer::WouldBlock
                    &&& *final(self) == *old(self)
                },
            },
    {
        if self.writing {
            Err(TryLockError::WouldBlock)
        } else if self.poisoned {
            self.writing = true;
            Err(TryLockError::Poisoned(PoisonError::new(WriteGuard { owner: self })))
        } else {
            self.run_reset();
            Ok(())
        }
    }
}

impl<T: Default + Send, F: FnMut(&mut T) + Sync> Temp<T, F> {
    /// Makes a workspace around the default value of `T`.
    pub fn new_default(reset: F) -> (r: Self)
        requires
            accepts_all(reset),
        ensures
            exists|value: T| #[trigger]
                call_ensures(T::default, (), value) && r@ == (State {
                    value,
                    reset,
                    writing: false,
                    poisoned: false,
                }),
    {
        Temp { value: T::default(), reset, writing: false, poisoned: false }
    }

    /// Makes a workspace around the default value of `T` after running `reset`
    /// on it once.
    pub fn new_default_with(reset: F) -> (r: Self)
        requires
            accepts_all(reset),
        ensures
            exists|x: &mut T|
                call_ensures(T::default, (), *x) && #[trigger] call_ensures(reset, (x,), ()) && r@
                    == (State { value: *final(x), reset, writing: false, poisoned: false }),
    {
        let mut value = T::default();
        let mut reset = reset;
        run(&mut reset, &mut value);
        Temp { value, reset, writing: false, poisoned: false }
    }
}

impl<'a, T: Send, F: FnMut(&mut T) + Sync> View for TempRef<'a, T, F> {
    type V = State<T, F>;

    /// The workspace as the handle sees it now.
    closed spec fn view(&self) -> State<T, F> {
        self.owner@
    }
}

impl<'a, T: Send, F: FnMut(&mut T) + Sync> TempRef<'a, T, F> {
    /// The workspace that the handle was taken from. Its final state is the
    /// one that the handle leaves it in.
    pub closed spec fn target(self) -> &'a mut Temp<T, F> {
        self.owner
    }

    /// The workspace is locked by this handle and can be reset.
    pub open spec fn wf(self) -> bool {
        self@.writing && accepts_all(self@.reset)
    }

    /// Takes the write lock on `temp`, which nobody holds. A poisoned workspace
    /// gives the lock without the reset on release.
    fn new(temp: &'a mut Temp<T, F>) -> (r: Result<Self, PoisonError<WriteGuard<'a, T, F>>>)
        requires
            !old(temp)@.writing,
        ensures
            match r {
                Ok(g) => {
                    &&& old(temp)@.answer() == Answer::Granted
                    &&& g@ == old(temp)@.claim()
                    &&& *final(temp) == *final(g.target())
                },
                Err(e) => {
                    &&& old(temp)@.answer() == Answer::Poisoned
                    &&& e.inner()@ == old(temp)@.claim()
                    &&& *final(temp) == *final(e.inner().target())
                },
            },
    {
        temp.writing = true;
        if temp.poisoned {
            Err(PoisonError::new(WriteGuard { owner: temp }))
        } else {
            Ok(TempRef { owner: temp })
        }
    }

    /// Takes the write lock on `temp` unless somebody holds it.
    fn try_new(temp: &'a mut Temp<T, F>) -> (r: Result<Self, TryLockError<WriteGuard<'a, T, F>>>)
        ensures
            match r {
                Ok(g) => {
                    &&& old(temp)@.answer() == Answer::Granted
                    &&& g@ == old(temp)@.claim()
                    &&& *final(temp) == *final(g.target())
                },
                Err(TryLockError::Poisoned(e)) => {
                    &&& old(temp)@.answer() == Answer::Poisoned
                    &&& e.inner()@ == old(temp)@.claim()
                    &&& *final(temp) == *final(e.inner().target())
                },
                Err(TryLockError::WouldBlock) => {
                    &&& old(temp)@.answer() == Answer::WouldBlock
                    &&& *final(temp) == *old(temp)
                },
            },
    {
        if temp.writing {
            Err(TryLockError::WouldBlock)
        } else {
            temp.writing = true;
            if temp.poisoned {
                Err(TryLockError::Poisoned(PoisonError::new(WriteGuard { owner: temp })))
            } else {
                Ok(TempRef { owner: temp })
            }
        }
    }

    /// A handle that is let go of without `release` leaves the workspace as
    /// the handle saw it last: still locked, with the value as written.
    pub proof fn lemma_unreleased(self)
        requires
            has_resolved(self),
        ensures
            final(self.target())@ == self@,
    {
    }

    /// Runs the reset function on the value without giving the handle up.
    pub fn reset(&mut self)
        requires
            old(self).wf(),
        ensures
            exists|x: &mut T|
                *x == old(self)@.value && #[trigger] call_ensures(old(self)@.reset, (x,), ())
                    && final(self)@ == old(self)@.put(*final(x)),
            *final(final(self).target()) == *final(old(self).target()),
    {
        self.owner.run_reset();
    }

    /// Gives the handle up: the reset function runs on the value as the
    /// holder left it, and the lock is free again.
    pub fn release(self)
        requires
            self.wf(),
        ensures
            exists|x: &mut T|
                *x == self@.value && #[trigger] call_ensures(self@.reset, (x,), ())
                    && final(self.target())@ == self@.settle(*final(x)),
    {
        let TempRef { owner } = self;
        owner.run_reset();
        owner.writing = false;
    }

    /// Gives the handle up on behalf of a holder that failed in the middle of
    /// its work: the reset function runs, the lock is free again, and the
    /// workspace is poisoned.
    pub fn abandon(self)
        requires
            self.wf(),
        ensures
            exists|x: &mut T|
                *x == self@.value && #[trigger] call_ensures(self@.reset, (x,), ())
                    && final(self.target())@ == self@.fail(*final(x)),
    {
        let TempRef { owner } = self;
        owner.run_reset();
        owner.poisoned = true;
        owner.writing = false;
    }
}

impl<'a, T: Send, F: FnMut(&mut T) + Sync> core::ops::Deref for TempRef<'a, T, F> {
    type Target = T;

    /// The value as the holder has left it so far.
    fn deref(&self) -> (r: &T)
        ensures
            *r == self@.value,
    {
        &self.owner.value
    }
}

impl<'a, T: Send, F: FnMut(&mut T) + Sync> core::ops::DerefMut for TempRef<'a, T, F> {
    /// The value, to be changed at will: what is written here is what the
    /// handle holds afterwards.
    fn deref_mut(&mut self) -> (r: &mut T)
        ensures
            *r == old(self)@.value,
            final(self)@ == old(self)@.put(*final(r)),
            *final(final(self).target()) == *final(old(self).target()),
    {
        &mut self.owner.value
    }
}

impl<'a, T: Send, F: FnMut(&mut T) + Sync> View for WriteGuard<'a, T, F> {
    type V = State<T, F>;

    /// The workspace as the guard sees it now.
    closed spec fn view(&self) -> State<T, F> {
        self.owner@
    }
}

impl<'a, T: Send, F: FnMut(&mut T) + Sync> WriteGuard<'a, T, F> {
    /// The workspace that the guard was taken from. Its final state is the
    /// one that the guard leaves it in.
    pub closed spec fn target(self) -> &'a mut Temp<T, F> {
        self.owner
    }

    /// A guard that is let go of without `release` leaves the workspace as
    /// the guard saw it last: still locked.
    pub proof fn lemma_unreleased(self)
        requires
            has_resolved(self),
        ensures
            final(self.target())@ == self@,
    {
    }

    /// Gives the lock back. The value stays as it is.
    pub fn release(self)
        ensures
            final(self.target())@ == self@.free(),
    {
        let WriteGuard { owner } = self;
        owner.writing = false;
    }
}

impl<'a, T: Send, F: FnMut(&mut T) + Sync> core::ops::Deref for WriteGuard<'a, T, F> {
    type Target = T;

    /// The value as it stands.
    fn deref(&self) -> (r: &T)
        ensures
            *r == self@.value,
    {
        &self.owner.value
    }
}

impl<'a, T: Send, F: FnMut(&mut T) + Sync> core::ops::DerefMut for WriteGuard<'a, T, F> {
    /// The value, to be changed at will.
    fn deref_mut(&mut self) -> (r: &mut T)
        ensures
            *r == old(self)@.value,
            final(self)@ == old(self)@.put(*final(r)),
            *final(final(self).target()) == *final(old(self).target()),
    {
        &mut self.owner.value
    }
}

} // verus!
