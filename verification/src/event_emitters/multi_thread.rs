//! The thread-safe bus.
//!
//! A mutual-exclusion lock guards the registry; every registration and
//! removal holds it only for its single registry operation, and dispatch
//! releases it before any listener code runs, so listeners may freely
//! call back into the bus without deadlocking.

use vstd::prelude::*;

use crate::args::Arg;
use crate::basis::{
    share_args_threaded, AsyncThreadSafeCallback, SyncThreadSafeCallback, ThreadSafeCallback,
    ThreadSafeHandler,
};
use crate::registry::Registry;
use core::future::Future;
use std::sync::Arc;
use vstd::rwlock::RwLock;

verus! {

/// Registration and dispatch of synchronous listeners on the thread-safe
/// bus.
pub trait ThreadSafeEventEmitter {
    /// Registers a persistent synchronous listener; yields its
    /// identifier.
    fn on<F: Fn(&Vec<Arg>) + Send + Sync + 'static>(&self, event: &str, f: F) -> u64;

    /// Registers a synchronous listener that is removed again after the
    /// first emission that invokes it; yields its identifier.
    fn once<F: Fn(&Vec<Arg>) + Send + Sync + 'static>(&self, event: &str, f: F) -> u64;

    /// Removes the listener with the given identifier; `true` iff a
    /// listener was actually removed.
    fn off(&self, event: &str, id: u64) -> bool;

    /// Removes every listener of the event.
    fn off_all(&self, event: &str);

    /// Dispatches the event to its current listeners.
    fn emit(&self, event: &str, args: Vec<Arg>);
}

/// Registration of asynchronous listeners on the thread-safe bus.
pub trait ThreadSafeAsyncEventEmitter {
    /// Registers a persistent asynchronous listener; yields its
    /// identifier.
    fn on_async<F, Fut>(&self, event: &str, f: F) -> u64 where
        F: Fn(Arc<Vec<Arg>>) -> Fut + Send + Sync + 'static,
        Fut: Future<Output = ()> + Send + 'static,
    ;

    /// Registers an asynchronous listener that is removed again after the
    /// first emission that submits it; yields its identifier.
    fn once_async<F, Fut>(&self, event: &str, f: F) -> u64 where
        F: Fn(Arc<Vec<Arg>>) -> Fut + Send + Sync + 'static,
        Fut: Future<Output = ()> + Send + 'static,
    ;
}

/// The lock predicate of the bus: any well-formed registry may be
/// stored.  Well-formedness itself is the registry's type invariant, so
/// nothing more needs to be said here.
pub struct AnyRegistry;

impl vstd::rwlock::RwLockPredicate<Registry<ThreadSafeCallback>> for AnyRegistry {
    open spec fn inv(self, v: Registry<ThreadSafeCallback>) -> bool {
        true
    }
}

/// The bus safe for concurrent use from many threads.  Handles are
/// cheaply cloned; all of them share one registry behind one lock.
#[derive(Clone)]
pub struct MultiThreadEventEmitter {
    registry: Arc<RwLock<Registry<ThreadSafeCallback>, AnyRegistry>>,
    executor: Option<tokio::runtime::Handle>,
}

impl MultiThreadEventEmitter {
    /// An empty bus, not yet attached to an executor.
    pub fn new() -> (r: Self)
        ensures
            !r.has_executor(),
    {
        MultiThreadEventEmitter {
            registry: Arc::new(RwLock::new(Registry::new(), Ghost(AnyRegistry))),
            executor: None,
        }
    }

    /// Whether an executor handle is attached for asynchronous listeners.
    pub closed spec fn has_executor(self) -> bool {
        self.executor is Some
    }

    /// Attaches the executor handle that asynchronous listeners are
    /// submitted to.  Call it before the first emission that reaches an
    /// asynchronous listener; without a handle, such an emission falls
    /// back to the runtime of the emitting thread and panics outside one,
    /// as tokio documents.
    pub fn set_handle(self, handle: tokio::runtime::Handle) -> (r: Self)
        ensures
            r.has_executor(),
    {
        MultiThreadEventEmitter { registry: self.registry, executor: Some(handle) }
    }

    /// One registration under the lock, taken only for the registry
    /// operation itself.
    fn register_locked(&self, event: &str, cb: ThreadSafeCallback, once: bool) -> u64 {
        let (mut reg, write_handle) = self.registry.acquire_write();
        let id = if reg.at_capacity() {
            u64::MAX
        } else {
            reg.register(event, cb, once)
        };
        write_handle.release_write(reg);
        id
    }

    /// Registers a persistent synchronous listener for the event and
    /// returns its fresh identifier.  Never fails; once the identifier
    /// space is exhausted, registration is refused and `u64::MAX` comes
    /// back.
    pub fn on<F: Fn(&Vec<Arg>) + Send + Sync + 'static>(&self, event: &str, f: F) -> u64 {
        let cb = ThreadSafeCallback::Sync(SyncThreadSafeCallback::new(f));
        self.register_locked(event, cb, false)
    }

    /// Registers a synchronous listener that is removed again after the
    /// first emission that invokes it; returns its fresh identifier.
    pub fn once<F: Fn(&Vec<Arg>) + Send + Sync + 'static>(&self, event: &str, f: F) -> u64 {
        let cb = ThreadSafeCallback::Sync(SyncThreadSafeCallback::new(f));
        self.register_locked(event, cb, true)
    }

    /// Registers a persistent asynchronous listener for the event and
    /// returns its fresh identifier.
    pub fn on_async<F, Fut>(&self, event: &str, f: F) -> u64 where
        F: Fn(Arc<Vec<Arg>>) -> Fut + Send + Sync + 'static,
        Fut: Future<Output = ()> + Send + 'static,
     {
        let cb = ThreadSafeCallback::Async(AsyncThreadSafeCallback::new(f));
        self.register_locked(event, cb, false)
    }

    /// Registers an asynchronous listener that is removed again after the
    /// first emission that submits it; returns its fresh identifier.
    pub fn once_async<F, Fut>(&self, event: &str, f: F) -> u64 where
        F: Fn(Arc<Vec<Arg>>) -> Fut + Send + Sync + 'static,
        Fut: Future<Output = ()> + Send + 'static,
     {
        let cb = ThreadSafeCallback::Async(AsyncThreadSafeCallback::new(f));
        self.register_locked(event, cb, true)
    }

    /// Removes the listener with the given identifier from the event.
    /// Returns `true` iff such a listener was registered there at the
    /// moment the lock was held; an unknown event or identifier yields
    /// `false`, never an error.
    pub fn off(&self, event: &str, id: u64) -> bool {
        let (mut reg, write_handle) = self.registry.acquire_write();
        let removed = reg.unregister(event, id);
        write_handle.release_write(reg);
        removed
    }

    /// Removes every listener of the event; a no-op when the event is
    /// unknown.
    pub fn off_all(&self, event: &str) {
        let (mut reg, write_handle) = self.registry.acquire_write();
        reg.unregister_all(event);
        write_handle.release_write(reg);
    }

    /// Dispatches the event.  The lock is held only long enough to copy
    /// the listener records out; each callback of that snapshot is then
    /// invoked in registration order with no lock held — synchronous ones
    /// inline on the emitting thread, asynchronous ones submitted to the
    /// attached executor without waiting — all sharing one argument
    /// sequence; finally the lock is retaken and exactly the
    /// once-listeners this pass invoked are pruned, so a once-listener
    /// registered concurrently after the snapshot still gets its one
    /// invocation later.  Listeners may call back into the bus;
    /// registration-order invocation holds within one emission, while
    /// concurrent emissions interleave without any order between them.
    pub fn emit(&self, event: &str, args: Vec<Arg>) {
        let read_handle = self.registry.acquire_read();
        let snapshot: Vec<ThreadSafeHandler> = read_handle.borrow().snapshot_records(event);
        read_handle.release_read();
        let shared: Arc<Vec<Arg>> = Arc::new(args);
        let mut invoked_once: Vec<u64> = Vec::new();
        let n = snapshot.len();
        let mut k: usize = 0;
        while k < n
            invariant
                n == snapshot@.len(),
            decreases n - k,
        {
            let l = &snapshot[k];
            match &l.callback {
                ThreadSafeCallback::Sync(c) => c.invoke(&shared),
                ThreadSafeCallback::Async(c) => match &self.executor {
                    Some(h) => c.submit_on(h, share_args_threaded(&shared)),
                    None => c.submit_ambient(share_args_threaded(&shared)),
                },
            }
            if l.once {
                invoked_once.push(l.id);
            }
            k += 1;
        }
        let (mut reg, write_handle) = self.registry.acquire_write();
        reg.prune_invoked(event, &invoked_once);
        write_handle.release_write(reg);
    }
}

impl ThreadSafeEventEmitter for MultiThreadEventEmitter {
    fn on<F: Fn(&Vec<Arg>) + Send + Sync + 'static>(&self, event: &str, f: F) -> u64 {
        MultiThreadEventEmitter::on(self, event, f)
    }

    fn once<F: Fn(&Vec<Arg>) + Send + Sync + 'static>(&self, event: &str, f: F) -> u64 {
        MultiThreadEventEmitter::once(self, event, f)
    }

    fn off(&self, event: &str, id: u64) -> bool {
        MultiThreadEventEmitter::off(self, event, id)
    }

    fn off_all(&self, event: &str) {
        MultiThreadEventEmitter::off_all(self, event)
    }

    fn emit(&self, event: &str, args: Vec<Arg>) {
        MultiThreadEventEmitter::emit(self, event, args)
    }
}

impl ThreadSafeAsyncEventEmitter for MultiThreadEventEmitter {
    fn on_async<F, Fut>(&self, event: &str, f: F) -> u64 where
        F: Fn(Arc<Vec<Arg>>) -> Fut + Send + Sync + 'static,
        Fut: Future<Output = ()> + Send + 'static,
     {
        MultiThreadEventEmitter::on_async(self, event, f)
    }

    fn once_async<F, Fut>(&self, event: &str, f: F) -> u64 where
        F: Fn(Arc<Vec<Arg>>) -> Fut + Send + Sync + 'static,
        Fut: Future<Output = ()> + Send + 'static,
     {
        MultiThreadEventEmitter::once_async(self, event, f)
    }
}

} // verus!
