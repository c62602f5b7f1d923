//! The callback handles stored in listener records.
//!
//! A callback is a reference-counted, shared closure.  The closure itself
//! is opaque to the verifier: each handle type hides it behind a small
//! trusted surface — construction, duplication, and invocation or
//! submission to an executor.  Everything a handle's contract claims is
//! backed by `Rc`/`Arc` reference-count semantics or by the tokio
//! functions named in the doc comments.

use vstd::prelude::*;

use crate::args::Arg;
use crate::registry::{Dup, Listener};
use core::future::Future;
use core::pin::Pin;
use std::rc::Rc;
use std::sync::Arc;

verus! {

/// A listener record of the single-thread bus.
pub type Handler = Listener<Callback>;

/// A listener record of the thread-safe bus.
pub type ThreadSafeHandler = Listener<ThreadSafeCallback>;

/// Relies on Rc::clone: the duplicate is a handle to the same argument
/// sequence, not a copy of it.
#[verifier::external_body]
pub(crate) fn share_args(args: &Rc<Vec<Arg>>) -> (r: Rc<Vec<Arg>>)
    ensures
        r == *args,
{
    Rc::clone(args)
}

/// Relies on Arc::clone: the duplicate is a handle to the same argument
/// sequence, not a copy of it.
#[verifier::external_body]
pub(crate) fn share_args_threaded(args: &Arc<Vec<Arg>>) -> (r: Arc<Vec<Arg>>)
    ensures
        r == *args,
{
    Arc::clone(args)
}

/// A shared handle to a synchronous listener body for the single-thread
/// bus.  The closure borrows the argument sequence and runs to completion
/// before returning.
#[verifier::external_body]
pub struct SyncCallback {
    f: Rc<dyn Fn(&Vec<Arg>)>,
}

impl SyncCallback {
    /// Relies on Rc::new: wraps the closure in a fresh shared handle.
    #[verifier::external_body]
    pub(crate) fn new<F: Fn(&Vec<Arg>) + 'static>(f: F) -> Self {
        SyncCallback { f: Rc::new(f) }
    }

    /// Invokes the shared closure with the argument sequence.  A panic in
    /// the listener body propagates to the caller, by design.
    #[verifier::external_body]
    pub(crate) fn invoke(&self, args: &Rc<Vec<Arg>>) {
        (self.f)(args)
    }

    /// Relies on Rc::clone: the duplicate is a handle to the same closure.
    #[verifier::external_body]
    fn clone_handle(&self) -> (r: Self)
        ensures
            r == *self,
    {
        SyncCallback { f: Rc::clone(&self.f) }
    }
}

impl Dup for SyncCallback {
    fn dup(&self) -> (r: Self) {
        self.clone_handle()
    }
}

/// A shared handle to an asynchronous listener body for the single-thread
/// bus.  The closure consumes a shared argument handle and returns a
/// suspended computation driven later by the thread's own task driver.
#[verifier::external_body]
pub struct AsyncCallback {
    f: Rc<dyn Fn(Rc<Vec<Arg>>) -> Pin<Box<dyn Future<Output = ()>>>>,
}

impl AsyncCallback {
    /// Relies on Rc::new: wraps the closure in a fresh shared handle.
    #[verifier::external_body]
    pub(crate) fn new<F, Fut>(f: F) -> Self where
        F: Fn(Rc<Vec<Arg>>) -> Fut + 'static,
        Fut: Future<Output = ()> + 'static,
     {
        AsyncCallback { f: Rc::new(move |a: Rc<Vec<Arg>>| Box::pin(f(a)) as Pin<Box<dyn Future<Output = ()>>>) }
    }

    /// Relies on tokio::task::spawn_local: submits the listener's
    /// computation to the current thread's task queue, without waiting for
    /// it.  As tokio documents, it panics when no local task context is
    /// running on this thread.
    #[verifier::external_body]
    pub(crate) fn submit_local(&self, args: Rc<Vec<Arg>>) {
        let fut = (self.f)(args);
        tokio::task::spawn_local(fut);
    }

    /// Relies on Rc::clone: the duplicate is a handle to the same closure.
    #[verifier::external_body]
    fn clone_handle(&self) -> (r: Self)
        ensures
            r == *self,
    {
        AsyncCallback { f: Rc::clone(&self.f) }
    }
}

impl Dup for AsyncCallback {
    fn dup(&self) -> (r: Self) {
        self.clone_handle()
    }
}

/// A listener callback of the single-thread bus: either shape, behind one
/// record type.
pub enum Callback {
    Sync(SyncCallback),
    Async(AsyncCallback),
}

impl Dup for Callback {
    fn dup(&self) -> (r: Self) {
        match self {
            Callback::Sync(c) => Callback::Sync(c.dup()),
            Callback::Async(c) => Callback::Async(c.dup()),
        }
    }
}

/// tokio's handle to a running runtime; the thread-safe bus submits
/// asynchronous listeners through it.
#[verifier::external_type_specification]
#[verifier::external_body]
pub struct ExRuntimeHandle(tokio::runtime::Handle);

/// A shared handle to a synchronous listener body for the thread-safe
/// bus.
#[verifier::external_body]
pub struct SyncThreadSafeCallback {
    f: Arc<dyn Fn(&Vec<Arg>) + Send + Sync>,
}

impl SyncThreadSafeCallback {
    /// Relies on Arc::new: wraps the closure in a fresh shared handle.
    #[verifier::external_body]
    pub(crate) fn new<F: Fn(&Vec<Arg>) + Send + Sync + 'static>(f: F) -> Self {
        SyncThreadSafeCallback { f: Arc::new(f) }
    }

    /// Invokes the shared closure with the argument sequence, inline on
    /// the calling thread.  A panic in the listener body propagates to the
    /// caller, by design.
    #[verifier::external_body]
    pub(crate) fn invoke(&self, args: &Arc<Vec<Arg>>) {
        (self.f)(args)
    }

    /// Relies on Arc::clone: the duplicate is a handle to the same
    /// closure.
    #[verifier::external_body]
    fn clone_handle(&self) -> (r: Self)
        ensures
            r == *self,
    {
        SyncThreadSafeCallback { f: Arc::clone(&self.f) }
    }
}

impl Dup for SyncThreadSafeCallback {
    fn dup(&self) -> (r: Self) {
        self.clone_handle()
    }
}

/// A shared handle to an asynchronous listener body for the thread-safe
/// bus.  The closure consumes a shared argument handle and returns a
/// suspended computation run to completion by an external executor.
#[verifier::external_body]
pub struct AsyncThreadSafeCallback {
    f: Arc<dyn Fn(Arc<Vec<Arg>>) -> Pin<Box<dyn Future<Output = ()> + Send>> + Send + Sync>,
}

impl AsyncThreadSafeCallback {
    /// Relies on Arc::new: wraps the closure in a fresh shared handle.
    #[verifier::external_body]
    pub(crate) fn new<F, Fut>(f: F) -> Self where
        F: Fn(Arc<Vec<Arg>>) -> Fut + Send + Sync + 'static,
        Fut: Future<Output = ()> + Send + 'static,
     {
        AsyncThreadSafeCallback {
            f: Arc::new(move |a: Arc<Vec<Arg>>| Box::pin(f(a)) as Pin<Box<dyn Future<Output = ()> + Send>>),
        }
    }

    /// Relies on tokio::runtime::Handle::spawn: submits the listener's
    /// computation to the runtime behind the handle, without waiting for
    /// it.
    #[verifier::external_body]
    pub(crate) fn submit_on(&self, handle: &tokio::runtime::Handle, args: Arc<Vec<Arg>>) {
        let fut = (self.f)(args);
        handle.spawn(fut);
    }

    /// Relies on tokio::spawn: submits the listener's computation to the
    /// runtime the calling thread runs under, without waiting for it.  As
    /// tokio documents, it panics when the calling thread is not under a
    /// runtime.
    #[verifier::external_body]
    pub(crate) fn submit_ambient(&self, args: Arc<Vec<Arg>>) {
        let fut = (self.f)(args);
        tokio::spawn(fut);
    }

    /// Relies on Arc::clone: the duplicate is a handle to the same
    /// closure.
    #[verifier::external_body]
    fn clone_handle(&self) -> (r: Self)
        ensures
            r == *self,
    {
        AsyncThreadSafeCallback { f: Arc::clone(&self.f) }
    }
}

impl Dup for AsyncThreadSafeCallback {
    fn dup(&self) -> (r: Self) {
        self.clone_handle()
    }
}

/// A listener callback of the thread-safe bus: either shape, behind one
/// record type.
pub enum ThreadSafeCallback {
    Sync(SyncThreadSafeCallback),
    Async(AsyncThreadSafeCallback),
}

impl Dup for ThreadSafeCallback {
    fn dup(&self) -> (r: Self) {
        match self {
            ThreadSafeCallback::Sync(c) => ThreadSafeCallback::Sync(c.dup()),
            ThreadSafeCallback::Async(c) => ThreadSafeCallback::Async(c.dup()),
        }
    }
}

} // verus!
