//! The single-owner workspace: any number of shared views or one write
//! handle, with a conflict reported when the access is asked for.

use crate::reset::{accepts_all, run};
use vstd::prelude::*;

verus! {

/// A shared view was asked for while a write handle was outstanding.
#[derive(Debug, Clone, Copy, PartialEq, Eq)]
pub struct BorrowError;

/// Exclusive access was asked for while a write handle was outstanding.
#[derive(Debug, Clone, Copy, PartialEq, Eq)]
pub struct BorrowMutError;

/// What a workspace is at one moment: the value, the reset function, and
/// whether a write handle is outstanding.
pub struct State<T, F> {
    pub value: T,
    pub reset: F,
    pub held: bool,
}

impl<T, F> State<T, F> {
    /// The same state with the write handle handed out.
    pub open spec fn claim(self) -> Self {
        State { held: true, ..self }
    }

    /// The same state with `value` in place of the value.
    pub open spec fn put(self, value: T) -> Self {
        State { value, ..self }
    }

    /// The state once the write handle is back and the value is `value`.
    pub open spec fn settle(self, value: T) -> Self {
        State { value, held: false, ..self }
    }

    /// The answer to a request for a shared view: the value, unless a write
    /// handle is outstanding.
    pub open spec fn shared(self) -> Result<T, BorrowError> {
        if self.held {
            Err(BorrowError)
        } else {
            Ok(self.value)
        }
    }

    /// The answer to a request for the write handle: the state with the
    /// handle out, unless one is outstanding already.
    pub open spec fn exclusive(self) -> Result<Self, BorrowMutError> {
        if self.held {
            Err(BorrowMutError)
        } else {
            Ok(self.claim())
        }
    }
}

/// What a released handle leaves behind is what the next borrower gets:
/// once the write handle is back with `value` in place, a shared view shows
/// `value` and the write handle can be had again.
pub proof fn lemma_settled_is_open<T, F>(s: State<T, F>, value: T)
    ensures
        s.settle(value).shared() == Ok::<T, BorrowError>(value),
        s.settle(value).exclusive() == Ok::<State<T, F>, BorrowMutError>(
            s.settle(value).claim(),
        ),
{
}

/// Shared views coexist: a request for one claims nothing, so a workspace
/// that no write handle claims answers each of them with the value as it
/// stands.
pub proof fn lemma_shared_views_coexist<T, F>(s: State<T, F>)
    requires
        !s.held,
    ensures
        s.shared() == Ok::<T, BorrowError>(s.value),
{
}

/// Write exclusivity: while the write handle is out, a request for another
/// one is refused, and so is a request for a shared view.
pub proof fn lemma_claimed_refuses<T, F>(s: State<T, F>)
    ensures
        s.claim().exclusive() == Err::<State<T, F>, BorrowMutError>(BorrowMutError),
        s.claim().shared() == Err::<T, BorrowError>(BorrowError),
{
}

/// A value that is put in directly is the value the next borrower sees, and
/// the reset function stays as it was.
pub proof fn lemma_put_then_read<T, F>(s: State<T, F>, value: T)
    requires
        !s.held,
    ensures
        s.put(value).shared() == Ok::<T, BorrowError>(value),
        s.put(value).reset == s.reset,
{
}

/// A value with a reset function that runs whenever a write handle on the
/// value is released.
pub struct Temp<T, F: FnMut(&mut T)> {
    value: T,
    reset: F,
    held: bool,
}

/// Exclusive access to the value of a [`Temp`]. Releasing the handle resets
/// the value; a handle that is let go of in any other way leaves the
/// workspace claimed.
#[must_use]
pub struct TempRef<'a, T, F: FnMut(&mut T)> {
    owner: &'a mut Temp<T, F>,
}

impl<T, F: FnMut(&mut T)> View for Temp<T, F> {
    type V = State<T, F>;

    closed spec fn view(&self) -> State<T, F> {
        State { value: self.value, reset: self.reset, held: self.held }
    }
}

impl<T, F: FnMut(&mut T)> Temp<T, F> {
    /// The reset function can be run on whatever a holder leaves behind.
    pub open spec fn wf(self) -> bool {
        accepts_all(self@.reset)
    }

    /// Makes a workspace around `value`, which is kept as given.
    pub fn new(value: T, reset: F) -> (r: Self)
        requires
            accepts_all(reset),
        ensures
            r@ == (State { value, reset, held: false }),
    {
        Temp { value, reset, held: false }
    }

    /// Makes a workspace around `value` after running `reset` on it once.
    pub fn new_with(value: T, reset: F) -> (r: Self)
        requires
            accepts_all(reset),
        ensures
            exists|x: &mut T|
                *x == value && #[trigger] call_ensures(reset, (x,), ()) && r@ == (State {
                    value: *final(x),
                    reset,
                    held: false,
                }),
    {
        let mut value = value;
        let mut reset = reset;
        run(&mut reset, &mut value);
        Temp { value, reset, held: false }
    }

    /// A shared view of the value. Any number of them may exist side by side,
    /// and each sees the value as it stands.
    pub fn borrow(&self) -> (r: &T)
        requires
            !self@.held,
        ensures
            *r == self@.value,
    {
        &self.value
    }

    /// A shared view of the value, or `BorrowError` while a write handle is
    /// outstanding. The workspace is not claimed by it, so asking again gives
    /// the same.
    pub fn try_borrow(&self) -> (r: Result<&T, BorrowError>)
        ensures
            match r {
                Ok(v) => self@.shared() == Ok::<T, BorrowError>(*v),
                Err(e) => self@.shared() == Err::<T, BorrowError>(e),
            },
    {
        if self.held {
            Err(BorrowError)
        } else {
            Ok(&self.value)
        }
    }

    /// Hands out the write handle. The workspace ends up as the handle
    /// leaves it.
    pub fn borrow_mut<'a>(&'a mut self) -> (g: TempRef<'a, T, F>)
        requires
            !old(self)@.held,
        ensures
            g@ == old(self)@.claim(),
            *final(self) == *final(g.target()),
    {
        TempRef::new(self)
    }

    /// Hands out the write handle, or returns `BorrowMutError`, with nothing
    /// changed, while another one is outstanding.
    pub fn try_borrow_mut<'a>(&'a mut self) -> (r: Result<TempRef<'a, T, F>, BorrowMutError>)
        ensures
            match r {
                Ok(g) => old(self)@.exclusive() == Ok::<State<T, F>, BorrowMutError>(g@)
                    && *final(self) == *final(g.target()),
                Err(e) => old(self)@.exclusive() == Err::<State<T, F>, BorrowMutError>(e)
                    && *final(self) == *old(self),
            },
    {
        TempRef::try_new(self)
    }

    /// Gives up the workspace for its value, as it stands and without a reset.
    pub fn into_inner(self) -> (v: T)
        ensures
            v == self@.value,
    {
        self.value
    }

    /// Puts `value` in and hands back what was there. The reset function is
    /// not run on either.
    pub fn replace(&mut self, value: T) -> (previous: T)
        requires
            !old(self)@.held,
        ensures
            previous == old(self)@.value,
            final(self)@ == old(self)@.put(value),
    {
        let mut incoming = value;
        core::mem::swap(&mut self.value, &mut incoming);
        incoming
    }

    /// Lets `f` work out the next value from the present one, puts that in and
    /// hands back the present one as `f` left it. The reset function is not
    /// run.
    pub fn replace_with<C: FnOnce(&mut T) -> T>(&mut self, f: C) -> (previous: T)
        requires
            !old(self)@.held,
            forall|x: &mut T| *x == old(self)@.value ==> call_requires(f, (x,)),
        ensures
            exists|x: &mut T, next: T|
                *x == old(self)@.value && *final(x) == previous && #[trigger] call_ensures(
                    f,
                    (x,),
                    next,
                ) && final(self)@ == old(self)@.put(next),
    {
        let mut incoming = f(&mut self.value);
        core::mem::swap(&mut self.value, &mut incoming);
        incoming
    }

    /// Exchanges the value with the one behind `other`. The reset function is
    /// not run on either.
    pub fn swap(&mut self, other: &mut T)
        requires
            !old(self)@.held,
        ensures
            final(self)@ == old(self)@.put(*old(other)),
            *final(other) == old(self)@.value,
    {
        core::mem::swap(&mut self.value, other);
    }

    /// Runs the reset function on the value, whatever the borrow state is.
    fn run_reset(&mut self)
        requires
            old(self).wf(),
        ensures
            exists|x: &mut T|
                *x == old(self)@.value && #[trigger] call_ensures(old(self)@.reset, (x,), ())
                    && final(self)@ == old(self)@.put(*final(x)),
    {
        run(&mut self.reset, &mut self.value);
    }

    /// Runs the reset function on the value, here and now.
    pub fn reset(&mut self)
        requires
            old(self).wf(),
            !old(self)@.held,
        ensures
            exists|x: &mut T|
                *x == old(self)@.value && #[trigger] call_ensures(old(self)@.reset, (x,), ())
                    && final(self)@ == old(self)@.put(*final(x)),
    {
        self.run_reset();
    }

    /// Runs the reset function on the value, or returns `BorrowMutError`, with
    /// nothing changed, while a write handle is outstanding.
    pub fn try_reset(&mut self) -> (r: Result<(), BorrowMutError>)
        requires
            old(self).wf(),
        ensures
            r is Err <==> old(self)@.held,
            r is Err ==> *final(self) == *old(self),
            r is Ok ==> exists|x: &mut T|
                *x == old(self)@.value && #[trigger] call_ensures(old(self)@.reset, (x,), ())
                    && final(self)@ == old(self)@.put(*final(x)),
    {
        if self.held {
            Err(BorrowMutError)
        } else {
            self.run_reset();
            Ok(())
        }
    }
}

impl<T: Default, F: FnMut(&mut T)> Temp<T, F> {
    /// Makes a workspace around the default value of `T`.
    pub fn new_default(reset: F) -> (r: Self)
        requires
            accepts_all(reset),
        ensures
            exists|value: T| #[trigger]
                call_ensures(T::default, (), value) && r@ == (State { value, reset, held: false }),
    {
        Temp { value: T::default(), reset, held: false }
    }

    /// Makes a workspace around the default value of `T` after running `reset`
    /// on it once.
    pub fn new_default_with(reset: F) -> (r: Self)
        requires
            accepts_all(reset),
        ensures
            exists|x: &mut T|
                call_ensures(T::default, (), *x) && #[trigger] call_ensures(reset, (x,), ()) && r@
                    == (State { value: *final(x), reset, held: false }),
    {
        let mut value = T::default();
        let mut reset = reset;
        run(&mut reset, &mut value);
        Temp { value, reset, held: false }
    }
}

impl<'a, T, F: FnMut(&mut T)> View for TempRef<'a, T, F> {
    type V = State<T, F>;

    /// The workspace as the handle sees it now.
    closed spec fn view(&self) -> State<T, F> {
        self.owner@
    }
}

impl<'a, T, F: FnMut(&mut T)> TempRef<'a, T, F> {
    /// The workspace that the handle was taken from. Its final state is the
    /// one that the handle leaves it in.
    pub closed spec fn target(self) -> &'a mut Temp<T, F> {
        self.owner
    }

    /// The workspace is claimed by this handle and can be reset.
    pub open spec fn wf(self) -> bool {
        self@.held && accepts_all(self@.reset)
    }

    /// Claims `temp`, which no write handle claims yet.
    fn new(temp: &'a mut Temp<T, F>) -> (g: Self)
        requires
            !old(temp)@.held,
        ensures
            g@ == old(temp)@.claim(),
            *final(temp) == *final(g.target()),
    {
        temp.held = true;
        TempRef { owner: temp }
    }

    /// Claims `temp` unless a write handle claims it already.
    fn try_new(temp: &'a mut Temp<T, F>) -> (r: Result<Self, BorrowMutError>)
        ensures
            match r {
                Ok(g) => old(temp)@.exclusive() == Ok::<State<T, F>, BorrowMutError>(g@)
                    && *final(temp) == *final(g.target()),
                Err(e) => old(temp)@.exclusive() == Err::<State<T, F>, BorrowMutError>(e)
                    && *final(temp) == *old(temp),
            },
    {
        if temp.held {
            Err(BorrowMutError)
        } else {
            temp.held = true;
            Ok(TempRef { owner: temp })
        }
    }

    /// A handle that is let go of without `release` leaves the workspace as
    /// the handle saw it last: still claimed, with the value as written.
    pub proof fn lemma_unreleased(self)
        requires
            has_resolved(self),
        ensures
            final(self.target())@ == self@,
    {
    }

    /// Runs the reset function on the value without giving the handle up.
    pub fn reset(&mut self)
        requires
            old(self).wf(),
        ensures
            exists|x: &mut T|
                *x == old(self)@.value && #[trigger] call_ensures(old(self)@.reset, (x,), ())
                    && final(self)@ == old(self)@.put(*final(x)),
            *final(final(self).target()) == *final(old(self).target()),
    {
        self.owner.run_reset();
    }

    /// Gives the handle up: the reset function runs on the value as the
    /// holder left it, and the workspace is free again.
    pub fn release(self)
        requires
            self.wf(),
        ensures
            exists|x: &mut T|
                *x == self@.value && #[trigger] call_ensures(self@.reset, (x,), ())
                    && final(self.target())@ == self@.settle(*final(x)),
    {
        let TempRef { owner } = self;
        owner.run_reset();
        owner.held = false;
    }
}

impl<'a, T, F: FnMut(&mut T)> core::ops::Deref for TempRef<'a, T, F> {
    type Target = T;

    /// The value as the holder has left it so far.
    fn deref(&self) -> (r: &T)
        ensures
            *r == self@.value,
    {
        &self.owner.value
    }
}

impl<'a, T, F: FnMut(&mut T)> core::ops::DerefMut for TempRef<'a, T, F> {
    /// The value, to be changed at will: what is written here is what the
    /// handle holds afterwards.
    fn deref_mut(&mut self) -> (r: &mut T)
        ensures
            *r == old(self)@.value,
            final(self)@ == old(self)@.put(*final(r)),
            *final(final(self).target()) == *final(old(self).target()),
    {
        &mut self.owner.value
    }
}

} // verus!
