//! A render graph over a logical graphics device.
//!
//! Render nodes are described by commands and uniform data, compiled against
//! a cache of shared resources, and replayed every frame. The library
//! decides what to create and what to draw; it records those decisions as
//! requests to a [`device::Device`] and as passes of a
//! [`render_pass::CommandEncoder`], which a backend carries out.

pub mod bytes;
pub mod device;
pub mod pipeline;
pub mod render_graph;
pub mod render_pass;
pub mod surface_wrapper;
pub mod types;

use std::sync::Arc;
use std::sync::LockResult;
use std::sync::Mutex;
use std::sync::MutexGuard;
use std::sync::PoisonError;
use vstd::prelude::*;

pub use render_graph::Command;
pub use types::UniformBufferType;

verus! {

/// `std::sync::Mutex`, of which nothing is known here but that it exists.
#[verifier::external_type_specification]
#[verifier::external_body]
#[verifier::reject_recursive_types(T)]
pub struct ExMutex<T: ?Sized>(Mutex<T>);

/// `std::sync::MutexGuard`: the proof of holding a lock.
#[verifier::external_type_specification]
#[verifier::external_body]
#[verifier::reject_recursive_types(T)]
pub struct ExMutexGuard<'a, T: ?Sized + 'a>(MutexGuard<'a, T>);

/// `std::sync::PoisonError`: what a lock hands out after a holder panicked.
#[verifier::external_type_specification]
#[verifier::external_body]
#[verifier::reject_recursive_types(T)]
pub struct ExPoisonError<T>(PoisonError<T>);

/// Calls `Arc::clone`, which gives a second pointer to the same value, so
/// the new pointer points to a value equal to the one behind `a`.
#[verifier::external_body]
fn arc_clone<T>(a: &Arc<T>) -> (r: Arc<T>)
    ensures
        *r == **a,
{
    Arc::clone(a)
}

/// Calls `Mutex::new`. Nothing is claimed: what a mutex holds can change
/// behind any reference to it.
#[verifier::external_body]
fn mutex_new<T>(value: T) -> Mutex<T> {
    Mutex::new(value)
}

/// Calls `Mutex::lock`, which blocks until the lock is free. Nothing is
/// claimed of the guard. A thread that asks for a lock that it holds itself
/// may wait for ever or panic; no condition on the arguments can rule that out.
#[verifier::external_body]
fn mutex_lock<'a, T>(mutex: &'a Mutex<T>) -> LockResult<MutexGuard<'a, T>> {
    mutex.lock()
}

/// Calls `PoisonError::into_inner`, which gives up the guard that the error carries.
#[verifier::external_body]
fn poison_into_inner<T>(error: PoisonError<T>) -> T {
    error.into_inner()
}

/// A shared, read-only value.
pub struct Handle<T> {
    inner: Arc<T>,
}

impl<T> View for Handle<T> {
    type V = T;

    closed spec fn view(&self) -> T {
        *self.inner
    }
}

impl<T> Handle<T> {
    /// Shares `inner`.
    pub fn new(inner: T) -> (handle: Self)
        ensures
            handle@ == inner,
    {
        Handle { inner: Arc::new(inner) }
    }

    /// The shared value.
    pub fn get(&self) -> (value: &T)
        ensures
            *value == self@,
    {
        &*self.inner
    }
}

impl<T> core::ops::Deref for Handle<T> {
    type Target = T;

    fn deref(&self) -> (value: &T)
        ensures
            *value == self@,
    {
        &*self.inner
    }
}

impl<T> Clone for Handle<T> {
    /// Another handle to the same value.
    fn clone(&self) -> (handle: Self)
        ensures
            handle@ == self@,
    {
        Handle { inner: arc_clone(&self.inner) }
    }
}

/// A shared value behind an exclusive lock.
#[verifier::reject_recursive_types(T)]
pub struct MutHandle<T> {
    inner: Handle<Mutex<T>>,
}

impl<T> MutHandle<T> {
    /// Shares `inner` behind a lock.
    pub fn new(inner: T) -> Self {
        MutHandle { inner: Handle::new(mutex_new(inner)) }
    }

    /// Waits for the lock. The error case tells that an earlier holder
    /// panicked. The caller must not hold the lock already.
    pub fn lock(&self) -> LockResult<MutexGuard<'_, T>> {
        mutex_lock(self.inner.get())
    }

    /// Waits for the lock and takes it even if an earlier holder panicked.
    /// The caller must not hold the lock already.
    pub fn borrow<'a>(&'a self) -> MutexGuard<'a, T> {
        match mutex_lock(self.inner.get()) {
            Ok(guard) => guard,
            Err(poisoned) => poison_into_inner(poisoned),
        }
    }
}

impl<T> core::ops::Deref for MutHandle<T> {
    type Target = Handle<Mutex<T>>;

    /// The handle to the lock.
    fn deref(&self) -> (handle: &Handle<Mutex<T>>)
        ensures
            *handle == self.handle(),
    {
        &self.inner
    }
}

impl<T> core::ops::DerefMut for MutHandle<T> {
    /// The handle to the lock, to be changed in place: whatever handle
    /// the caller leaves there is the one that this value holds afterwards.
    fn deref_mut(&mut self) -> (handle: &mut Handle<Mutex<T>>)
        ensures
            *handle == old(self).handle(),
            final(self).handle() == *final(handle),
    {
        &mut self.inner
    }
}

impl<T> MutHandle<T> {
    /// The handle to the lock that this value holds.
    pub closed spec fn handle(&self) -> Handle<Mutex<T>> {
        self.inner
    }
}

impl<T> Clone for MutHandle<T> {
    /// Another handle to the same lock.
    fn clone(&self) -> Self {
        MutHandle { inner: self.inner.clone() }
    }
}

} // verus!
