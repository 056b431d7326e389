//! Laws of the cell's state machine, proved over the transition relations
//! that the operations of [`crate::RCell`] promise in their contracts.

use vstd::prelude::*;

use crate::state::release_step;
use crate::state::request_step;
use crate::state::retain_step;
use crate::state::State;

verus! {

/// A cell that owns a strong handle to `v` — as a fresh cell made by
/// `RCell::new(v)` does — yields exactly `v` from `retain`, and is still
/// strong over `v` afterwards.
pub proof fn lemma_retain_from_strong<T>(v: T, post: State<T>, yielded: Option<T>)
    requires
        retain_step(State::Strong(v), post, yielded),
    ensures
        yielded == Some(v),
        post == State::<T>::Strong(v),
{
}

/// A removed cell is inert: it is not retained, and `request` on it yields
/// nothing — and this holds whatever state the cell was in before, since
/// `remove` leaves it empty unconditionally.
pub proof fn lemma_removed_cell_yields_nothing<T>(yielded: Option<T>)
    requires
        request_step(State::<T>::Empty, yielded),
    ensures
        yielded is None,
        !(State::<T>::Empty is Strong),
{
}

/// A cell overwritten with a strong handle to `v` — the state `replace`
/// with an owning handle leaves behind — is retained, and `request` on it
/// yields exactly `v`.
pub proof fn lemma_replaced_strong_yields_supplied<T>(v: T, yielded: Option<T>)
    requires
        request_step(State::Strong(v), yielded),
    ensures
        yielded == Some(v),
        State::<T>::Strong(v) is Strong,
{
}

/// A cell overwritten with a weak handle over `v` — the state `replace`
/// with a non-owning handle leaves behind — is not retained, and whatever
/// `request` on it yields, if anything, is exactly `v`.
pub proof fn lemma_replaced_weak_yields_supplied_or_nothing<T>(v: T, yielded: Option<T>)
    requires
        request_step(State::Weak(v), yielded),
    ensures
        yielded is Some ==> yielded == Some(v),
        !(State::<T>::Weak(v) is Strong),
{
}

/// A `retain` that yielded a handle has pinned its target: the cell is now
/// strong over exactly the yielded value, so a later `request` — however
/// many other holders have come or gone meanwhile — yields that same value
/// again, with no further upgrade to attempt.
pub proof fn lemma_successful_retain_pins<T>(
    pre: State<T>,
    post: State<T>,
    v: T,
    later: Option<T>,
)
    requires
        retain_step(pre, post, Some(v)),
        request_step(post, later),
    ensures
        post == State::<T>::Strong(v),
        later == Some(v),
{
}

/// `release` of a strong cell always settles into the weak mode over the
/// same target — however many holders outside the cell come or go: the
/// cell's own handle is alive through the liveness check, so the check can
/// never find the target dead. The cell is then no longer retained, and
/// whatever `request` yields afterwards, if anything, is that same target.
pub proof fn lemma_release_of_strong_settles_weak<T>(v: T, post: State<T>, later: Option<T>)
    requires
        release_step(State::Strong(v), post),
        request_step(post, later),
    ensures
        post == State::<T>::Weak(v),
        !(post is Strong),
        later is Some ==> later == Some(v),
{
}

} // verus!
