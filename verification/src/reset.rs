//! Running a caller-supplied reset function.

use vstd::prelude::*;

verus! {

/// The reset function `f` may be run on every value of `T`.
pub open spec fn accepts_all<T, F: FnMut(&mut T)>(f: F) -> bool {
    forall|x: &mut T| call_requires(f, (x,))
}

/// Runs `f` on the value behind `v`.
///
/// What `v` holds afterwards is something `f` can leave behind when it is
/// started on what `v` held before.
pub fn run<T, F: FnMut(&mut T)>(f: &mut F, v: &mut T)
    requires
        accepts_all(*old(f)),
    ensures
        *final(f) == *old(f),
        exists|x: &mut T|
            *x == *old(v) && *final(x) == *final(v) && #[trigger] call_ensures(*old(f), (x,), ()),
{
    f(v);
}

/// Resetting twice in a row gives what resetting once gives, for a reset
/// function that leaves its own results as they are.
pub proof fn lemma_reset_twice<T, F: FnMut(&mut T)>(f: F, start: T, once: T, twice: T)
    requires
        forall|x: &mut T, y: &mut T|
            #[trigger] call_ensures(f, (x,), ()) && #[trigger] call_ensures(f, (y,), ()) && *y
                == *final(x) ==> *final(y) == *y,
        exists|x: &mut T| *x == start && *final(x) == once && #[trigger] call_ensures(f, (x,), ()),
        exists|y: &mut T| *y == once && *final(y) == twice && #[trigger] call_ensures(f, (y,), ()),
    ensures
        twice == once,
{
}

} // verus!
