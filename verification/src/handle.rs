//! Owning and non-owning handles to a shared allocation.
//!
//! The owning handle is `std::sync::Arc`, re-exported at the crate root as
//! [`crate::Strong`]. The non-owning handle is [`Weak`], a pair of the
//! standard weak pointer and a ghost record of the value it was derived
//! from; the ghost record is what contracts speak of, since an upgrade can
//! only ever hand back the value the weak handle was created over.

use vstd::prelude::*;

use std::sync::Arc;

verus! {

/// Opaque holder for a standard weak pointer.
///
/// `std::sync::Weak` cannot stand in verified signatures, so it is carried
/// behind this opaque struct; nothing is known of the value inside.
#[verifier::external_body]
#[verifier::reject_recursive_types(T)]
struct WeakRaw<T> {
    handle: std::sync::Weak<T>,
}

/// The value held by the allocation behind an owning handle.
pub(crate) open spec fn arc_value<T>(strong: &Arc<T>) -> T {
    **strong
}

/// Relies on `std::sync::Arc::downgrade`: the returned weak pointer refers
/// to the same allocation as `strong`.
#[verifier::external_body]
fn downgrade_raw<T>(strong: &Arc<T>) -> WeakRaw<T> {
    WeakRaw { handle: Arc::downgrade(strong) }
}

/// Relies on `std::sync::Weak::clone`: the clone refers to the same
/// allocation as `raw`.
#[verifier::external_body]
fn clone_raw<T>(raw: &WeakRaw<T>) -> WeakRaw<T> {
    WeakRaw { handle: raw.handle.clone() }
}

/// Relies on `std::sync::Weak::strong_count`: a racy snapshot of the number
/// of strong holders of the allocation `raw` refers to; nothing is claimed
/// of the snapshot.
#[verifier::external_body]
fn strong_count_raw<T>(raw: &WeakRaw<T>) -> usize {
    raw.handle.strong_count()
}

/// Relies on `std::sync::Arc::clone`: the clone is one more owning handle
/// to the same allocation, so it holds the same value as `strong`.
#[verifier::external_body]
pub(crate) fn clone_strong<T>(strong: &Arc<T>) -> (r: Arc<T>)
    ensures
        *r == **strong,
{
    Arc::clone(strong)
}

/// Relies on `std::sync::Arc::strong_count`: a racy snapshot of the number
/// of strong holders of the allocation; `strong` itself is one of them for
/// the whole call, so the snapshot is at least one.
#[verifier::external_body]
pub(crate) fn strong_count_of<T>(strong: &Arc<T>) -> (n: usize)
    ensures
        n >= 1,
{
    Arc::strong_count(strong)
}

/// A non-owning handle to a shared value.
///
/// It keeps the target allocation revivable without keeping it alive: as
/// long as some owning handle exists elsewhere, [`Weak::upgrade`] can
/// produce a fresh owning handle; once the last owning handle is gone, the
/// upgrade fails.
///
/// The spec view of a `Weak<T>` is the `T` value it was derived from. The
/// pairing of the two fields is this module's invariant: `raw` refers to an
/// allocation that holds the value `target@`. The only constructors,
/// [`Weak::downgrade`] and `clone`, both establish it, and nothing else
/// touches the fields.
#[verifier::reject_recursive_types(T)]
pub struct Weak<T> {
    raw: WeakRaw<T>,
    target: Ghost<T>,
}

impl<T> View for Weak<T> {
    type V = T;

    closed spec fn view(&self) -> T {
        self.target@
    }
}

impl<T> Weak<T> {
    /// Derives a non-owning handle from an owning one; the new handle's
    /// target is the value `strong` holds.
    pub fn downgrade(strong: &Arc<T>) -> (w: Weak<T>)
        ensures
            w@ == **strong,
    {
        Weak { raw: downgrade_raw(strong), target: Ghost(arc_value(strong)) }
    }

    /// Attempts to produce an owning handle; succeeds only while some other
    /// owning handle keeps the target alive.
    ///
    /// Relies on `std::sync::Weak::upgrade`: when it succeeds it returns an
    /// owning handle to the allocation this weak pointer was created from,
    /// which by this module's field pairing holds exactly `self@`. Whether
    /// it succeeds depends on the other holders at that instant, so nothing
    /// is claimed of that.
    #[verifier::external_body]
    pub fn upgrade(&self) -> (r: Option<Arc<T>>)
        ensures
            r matches Some(s) ==> *s == self@,
    {
        self.raw.handle.upgrade()
    }

    /// Reports how many owning handles of the target exist right now. The
    /// snapshot is racy: it can be stale the instant it is read.
    pub fn strong_count(&self) -> usize {
        strong_count_raw(&self.raw)
    }
}

impl<T> Clone for Weak<T> {
    /// The clone is a handle to the same target.
    fn clone(&self) -> (r: Self)
        ensures
            r@ == self@,
    {
        Weak { raw: clone_raw(&self.raw), target: Ghost(self.target@) }
    }
}

} // verus!
