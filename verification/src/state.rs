//! The abstract state of a cell and the transition relations of its
//! operations.
//!
//! A cell's spec view is a [`State`]: which retention mode it is in and,
//! when it holds a handle, the value that handle targets. Each mutating or
//! yielding operation of [`crate::RCell`] promises in its contract that the
//! pair of old and new state (and what the call handed out) satisfies the
//! relation named here for it.

use vstd::prelude::*;

verus! {

/// The retention mode of a cell, together with the target value of the
/// handle it holds, if any.
pub enum State<T> {
    /// The cell owns a strong handle to a value.
    Strong(T),
    /// The cell holds a non-owning handle whose target was this value.
    Weak(T),
    /// The cell holds nothing.
    Empty,
}

/// What `retain` may do: a strong cell yields its value and stays as it
/// is; a weak cell either upgrades — it becomes strong and yields its
/// target — or is left exactly as it was, yielding nothing; an empty cell
/// stays empty and yields nothing.
pub open spec fn retain_step<T>(pre: State<T>, post: State<T>, yielded: Option<T>) -> bool {
    match pre {
        State::Strong(t) => post == pre && yielded == Some(t),
        State::Weak(t) => (post == State::<T>::Strong(t) && yielded == Some(t)) || (post == pre
            && yielded is None),
        State::Empty => post == pre && yielded is None,
    }
}

/// What `release` may do: a strong cell always settles into the weak mode
/// over its own target — its own handle keeps the target alive through the
/// liveness check, so the check can never find it dead; a weak cell
/// settles into the weak mode over its target, or into the empty mode when
/// the target turns out dead; an empty cell stays empty. No step ever
/// leaves the cell strong.
pub open spec fn release_step<T>(pre: State<T>, post: State<T>) -> bool {
    match pre {
        State::Strong(t) => post == State::<T>::Weak(t),
        State::Weak(t) => post == pre || post == State::<T>::Empty,
        State::Empty => post == pre,
    }
}

/// What `request` may yield, without touching the cell: a strong cell
/// yields its value; a weak cell yields its target or, when the target is
/// no longer alive, nothing; an empty cell yields nothing.
pub open spec fn request_step<T>(s: State<T>, yielded: Option<T>) -> bool {
    match s {
        State::Strong(t) => yielded == Some(t),
        State::Weak(t) => yielded == Some(t) || yielded is None,
        State::Empty => yielded is None,
    }
}

/// The value behind an optional owning handle, if one is there.
pub open spec fn handle_value<T>(r: Option<std::sync::Arc<T>>) -> Option<T> {
    match r {
        Some(s) => Some(*s),
        None => None,
    }
}

} // verus!
