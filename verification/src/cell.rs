//! The retention cell itself and its operations.

use vstd::prelude::*;

use std::sync::Arc;

use crate::handle::clone_strong;
use crate::handle::strong_count_of;
use crate::handle::Weak;
use crate::state::handle_value;
use crate::state::release_step;
use crate::state::request_step;
use crate::state::retain_step;
use crate::state::State;

verus! {

/// A cell holding either an owning `Strong<T>` handle, a non-owning
/// [`Weak<T>`] handle, or nothing.
///
/// Its spec view is the [`State`] it is in: the retention mode plus the
/// target value of the handle it holds, if any.
#[verifier::reject_recursive_types(T)]
pub enum RCell<T> {
    /// An owning handle: the target is kept alive by this cell.
    Strong(Arc<T>),
    /// A non-owning handle: the target stays revivable while it is kept
    /// alive elsewhere.
    Weak(Weak<T>),
    /// No handle at all.
    Empty,
}

impl<T> View for RCell<T> {
    type V = State<T>;

    open spec fn view(&self) -> State<T> {
        match self {
            RCell::Strong(strong) => State::Strong(**strong),
            RCell::Weak(weak) => State::Weak(weak@),
            RCell::Empty => State::Empty,
        }
    }
}

impl<T> RCell<T> {
    /// Creates a cell that owns a fresh strong handle to `value`.
    pub fn new(value: T) -> (cell: Self)
        ensures
            cell@ == State::Strong(value),
    {
        RCell::Strong(Arc::new(value))
    }

    /// Returns `true` exactly when this cell owns a strong handle.
    pub fn retained(&self) -> (r: bool)
        ensures
            r <==> self@ is Strong,
    {
        match self {
            RCell::Strong(_) => true,
            _ => false,
        }
    }

    /// Returns the number of strong holders keeping the target alive: read
    /// through the held handle when there is one, zero for an empty cell.
    /// The count is informal only: other holders may change it
    /// concurrently, so it can be stale the instant it is returned.
    pub fn refcount(&self) -> (n: usize)
        ensures
            self@ is Empty ==> n == 0,
            self@ is Strong ==> n >= 1,
    {
        match self {
            RCell::Strong(strong) => strong_count_of(strong),
            RCell::Weak(weak) => weak.strong_count(),
            RCell::Empty => 0,
        }
    }

    /// Pins the target: a strong cell hands out one more owning handle; a
    /// weak cell attempts an upgrade and, on success, caches the result by
    /// becoming strong, so that later calls need no further upgrade; an
    /// empty cell, or a weak cell whose target died, yields nothing and is
    /// left as it was. The exact relation of old state, new state and
    /// yielded value is [`retain_step`].
    pub fn retain(&mut self) -> (r: Option<Arc<T>>)
        ensures
            retain_step(old(self)@, final(self)@, handle_value(r)),
    {
        match self {
            RCell::Strong(strong) => Some(clone_strong(strong)),
            RCell::Weak(weak) => {
                match weak.upgrade() {
                    Some(strong) => {
                        let r = clone_strong(&strong);
                        *self = RCell::Strong(strong);
                        Some(r)
                    },
                    None => None,
                }
            },
            RCell::Empty => None,
        }
    }

    /// Lets go of ownership: a strong cell derives a weak handle over its
    /// own target and, since its own handle keeps the target alive through
    /// the liveness check, always settles into the weak mode; a weak cell
    /// recomputes the same check and settles into the weak mode over its
    /// target or, when no strong holder is left, into the empty mode rather
    /// than keeping a dead handle; an empty cell is untouched. The cell is
    /// never strong afterwards. The exact relation of old and new state is
    /// [`release_step`].
    pub fn release(&mut self)
        ensures
            release_step(old(self)@, final(self)@),
    {
        match self {
            RCell::Strong(strong) => {
                let weak = Weak::downgrade(strong);
                if strong_count_of(strong) > 0 {
                    *self = RCell::Weak(weak);
                } else {
                    *self = RCell::Empty;
                }
            },
            RCell::Weak(weak) => {
                let weak = weak.clone();
                if weak.strong_count() > 0 {
                    *self = RCell::Weak(weak);
                } else {
                    *self = RCell::Empty;
                }
            },
            RCell::Empty => {},
        }
    }

    /// Drops whatever handle the cell holds, unconditionally leaving it
    /// empty; meant for eagerly freeing any resource tied to the cell when
    /// it is known that the target will never be needed again.
    pub fn remove(&mut self)
        ensures
            final(self)@ == State::<T>::Empty,
    {
        *self = RCell::Empty;
    }

    /// Hands out an owning handle without touching the cell: a strong cell
    /// always yields its value; a weak cell attempts an upgrade and yields
    /// the result, caching nothing (unlike [`RCell::retain`]); an empty
    /// cell yields nothing. The exact relation of state and yielded value
    /// is [`request_step`].
    pub fn request(&self) -> (r: Option<Arc<T>>)
        ensures
            request_step(self@, handle_value(r)),
    {
        match self {
            RCell::Strong(strong) => Some(clone_strong(strong)),
            RCell::Weak(weak) => weak.upgrade(),
            RCell::Empty => None,
        }
    }
}

impl<T> Clone for RCell<T> {
    /// Duplicates the current mode into a new, independent cell over the
    /// same target: a strong cell clones its owning handle, a weak cell its
    /// non-owning one, an empty cell stays empty.
    fn clone(&self) -> (cell: Self)
        ensures
            cell@ == self@,
    {
        match self {
            RCell::Strong(strong) => RCell::Strong(clone_strong(strong)),
            RCell::Weak(weak) => RCell::Weak(weak.clone()),
            RCell::Empty => RCell::Empty,
        }
    }
}

impl<T> Default for RCell<T> {
    /// Creates a cell that holds no handle.
    fn default() -> (cell: Self)
        ensures
            cell@ == State::<T>::Empty,
    {
        RCell::Empty
    }
}

/// Overwriting the content of a cell with a new handle.
pub trait Replace<T> {
    /// Replaces the held content with `new`, dropping the prior handle.
    fn replace(&mut self, new: T);
}

impl<T> Replace<Arc<T>> for RCell<T> {
    /// Overwrites the cell with the supplied owning handle; whatever was
    /// held before is dropped.
    fn replace(&mut self, new: Arc<T>)
        ensures
            final(self)@ == State::Strong(*new),
    {
        *self = RCell::Strong(new);
    }
}

impl<T> Replace<Weak<T>> for RCell<T> {
    /// Overwrites the cell with the supplied non-owning handle; whatever
    /// was held before is dropped.
    fn replace(&mut self, new: Weak<T>)
        ensures
            final(self)@ == State::Weak(new@),
    {
        *self = RCell::Weak(new);
    }
}

impl<T> From<Arc<T>> for RCell<T> {
    /// Creates a strong cell around the supplied owning handle.
    fn from(strong: Arc<T>) -> (cell: Self)
        ensures
            cell@ == State::Strong(*strong),
    {
        RCell::Strong(strong)
    }
}

impl<T> vstd::std_specs::convert::FromSpecImpl<Arc<T>> for RCell<T> {
    open spec fn obeys_from_spec() -> bool {
        true
    }

    open spec fn from_spec(strong: Arc<T>) -> Self {
        RCell::Strong(strong)
    }
}

impl<T> From<Weak<T>> for RCell<T> {
    /// Creates a weak cell around the supplied non-owning handle.
    fn from(weak: Weak<T>) -> (cell: Self)
        ensures
            cell@ == State::Weak(weak@),
    {
        RCell::Weak(weak)
    }
}

impl<T> vstd::std_specs::convert::FromSpecImpl<Weak<T>> for RCell<T> {
    open spec fn obeys_from_spec() -> bool {
        true
    }

    open spec fn from_spec(weak: Weak<T>) -> Self {
        RCell::Weak(weak)
    }
}

} // verus!
