//! A thin convenience wrapper around a shared, mutex-protected value.
//!
//! `ArcGuard<T>` owns one reference-counted, mutually-exclusive cell holding a
//! value of type `T`. Instead of cloning a shared handle, locking it, and
//! remembering to drop the clone, a caller hands [`ArcGuard::execute`] a
//! callback; the callback receives a fresh handle to the cell and its result
//! is returned unchanged. Locking is entirely the callback's business: the
//! guard itself never takes the lock.

use vstd::prelude::*;

use std::sync::Arc;
use std::sync::Mutex;

verus! {

#[verifier::external_type_specification]
#[verifier::external_body]
#[verifier::reject_recursive_types(T)]
pub struct ExMutex<T: ?Sized>(Mutex<T>);

/// Relies on `std::sync::Mutex::new`: it wraps `t` in a fresh mutex and
/// cannot fail. The mutex is opaque here, so nothing is stated of the result.
#[verifier::external_body]
fn mutex_new<T>(t: T) -> Mutex<T> {
    Mutex::new(t)
}

/// Relies on `std::sync::Arc::clone`: the clone refers to the very same
/// allocation as the original, so as a value it equals the original.
#[verifier::external_body]
fn arc_clone<T>(a: &Arc<Mutex<T>>) -> (r: Arc<Mutex<T>>)
    ensures
        r == *a,
{
    a.clone()
}

/// A guard owning one shared, reference-counted, mutex-protected cell.
///
/// Every guard produced from this one by [`ArcGuard::clone`], and every raw
/// handle produced by [`ArcGuard::arc`], refers to the same cell; the
/// protected value lives until the last such owner is dropped.
#[verifier::reject_recursive_types(T)]
pub struct ArcGuard<T> {
    arc: Arc<Mutex<T>>,
}

impl<T> ArcGuard<T> {
    /// The shared cell this guard refers to. Two guards alias the same
    /// protected value exactly when their cells are equal.
    pub closed spec fn cell(&self) -> Arc<Mutex<T>> {
        self.arc
    }

    /// Constructs a new `ArcGuard<T>` owning a fresh cell that holds `t`.
    pub fn new(t: T) -> Self {
        ArcGuard { arc: Arc::new(mutex_new(t)) }
    }

    /// Runs `callback` with a fresh handle to this guard's cell and returns
    /// the callback's result unchanged. The handle clone made for the call is
    /// dropped when the callback returns; locking the handle, and handling a
    /// poisoned lock, is the callback's own concern.
    pub fn execute<R, F: FnMut(Arc<Mutex<T>>) -> R>(&self, callback: F) -> (r: R)
        requires
            call_requires(callback, (self.cell(),)),
        ensures
            call_ensures(callback, (self.cell(),), r),
    {
        let mut callback = callback;
        callback(arc_clone(&self.arc))
    }

    /// Returns a clone of the inner handle. The caller owns the clone: the
    /// cell's reference count stays raised until the clone is dropped.
    pub fn arc(&self) -> (r: Arc<Mutex<T>>)
        ensures
            r == self.cell(),
    {
        arc_clone(&self.arc)
    }

    /// Returns a new `ArcGuard` wrapping a clone of the inner handle: a
    /// structural copy that aliases this guard's cell, so a value mutated
    /// through one is seen through the other.
    pub fn clone(&self) -> (c: Self)
        ensures
            c.cell() == self.cell(),
    {
        ArcGuard { arc: arc_clone(&self.arc) }
    }
}

/// Law: an access yields exactly what its callback produces. If every result
/// the callback admits for this guard's cell equals `v`, then the value that
/// [`ArcGuard::execute`] returned for that callback equals `v`.
pub proof fn lemma_execute_yields_callback_value<T, R, F: FnMut(Arc<Mutex<T>>) -> R>(
    g: &ArcGuard<T>,
    f: F,
    r: R,
    v: R,
)
    requires
        call_ensures(f, (g.cell(),), r),
        forall|y: R| call_ensures(f, (g.cell(),), y) ==> y == v,
    ensures
        r == v,
{
}

/// Law: a structural copy aliases the original. When `c` and `g` share one
/// cell, a result the callback admits for an access through `c` it admits for
/// an access through `g`: both accesses hand the callback the same cell.
pub proof fn lemma_copy_accesses_original_cell<T, R, F: FnMut(Arc<Mutex<T>>) -> R>(
    g: &ArcGuard<T>,
    c: &ArcGuard<T>,
    f: &F,
    r: R,
)
    requires
        c.cell() == g.cell(),
        call_ensures(*f, (c.cell(),), r),
    ensures
        call_ensures(*f, (g.cell(),), r),
{
}

} // verus!
