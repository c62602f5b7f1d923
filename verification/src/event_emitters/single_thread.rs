//! The single-thread bus.
//!
//! One logical thread owns the bus, so no lock is needed: registration
//! and dispatch mutate the registry through exclusive access.  Dispatch
//! follows the snapshot-then-invoke protocol: the listener set is copied
//! out first, every callback of the copy is then run without any access
//! to the registry, and the event's once-listeners are pruned last.

use vstd::prelude::*;

use crate::args::Arg;
use crate::basis::{share_args, AsyncCallback, Callback, SyncCallback};
use crate::registry::{appended, has_id, persistent_only, without_id, Listener, Registry};
use core::future::Future;
use std::rc::Rc;

verus! {

/// Registration and dispatch of synchronous listeners on the
/// single-thread bus.
pub trait EventEmitter {
    /// Registers a persistent synchronous listener; yields its
    /// identifier.
    fn on<F: Fn(&Vec<Arg>) + 'static>(&mut self, event: &str, f: F) -> u64;

    /// Registers a synchronous listener that is removed again after the
    /// first emission that invokes it; yields its identifier.
    fn once<F: Fn(&Vec<Arg>) + 'static>(&mut self, event: &str, f: F) -> u64;

    /// Removes the listener with the given identifier; `true` iff a
    /// listener was actually removed.
    fn off(&mut self, event: &str, id: u64) -> bool;

    /// Removes every listener of the event.
    fn off_all(&mut self, event: &str);

    /// Dispatches the event to its current listeners.
    fn emit(&mut self, event: &str, args: Vec<Arg>);
}

/// Registration of asynchronous listeners on the single-thread bus.
pub trait AsyncEventEmitter {
    /// Registers a persistent asynchronous listener; yields its
    /// identifier.
    fn on_async<F, Fut>(&mut self, event: &str, f: F) -> u64 where
        F: Fn(Rc<Vec<Arg>>) -> Fut + 'static,
        Fut: Future<Output = ()> + 'static,
    ;

    /// Registers an asynchronous listener that is removed again after the
    /// first emission that submits it; yields its identifier.
    fn once_async<F, Fut>(&mut self, event: &str, f: F) -> u64 where
        F: Fn(Rc<Vec<Arg>>) -> Fut + 'static,
        Fut: Future<Output = ()> + 'static,
    ;
}

/// The bus confined to a single thread of control.  Asynchronous
/// listeners are cooperative: they are submitted to the same thread's
/// task queue and run when that queue is driven.
pub struct SingleThreadEventEmitter {
    registry: Registry<Callback>,
}

impl SingleThreadEventEmitter {
    /// The listeners currently registered for an event, in registration
    /// order.
    pub closed spec fn listeners(self, e: Seq<char>) -> Seq<Listener<Callback>> {
        self.registry.listeners(e)
    }

    /// The identifier the next registration will return.
    pub closed spec fn next_listener_id(self) -> u64 {
        self.registry.next_id()
    }

    /// An empty bus.
    pub fn new() -> (r: Self)
        ensures
            r.next_listener_id() == 1,
            forall|e: Seq<char>| r.listeners(e) == Seq::<Listener<Callback>>::empty(),
    {
        SingleThreadEventEmitter { registry: Registry::new() }
    }

    /// Registers a persistent synchronous listener for the event and
    /// returns its fresh identifier.  Never fails; once the identifier
    /// space is exhausted, registration is refused and `u64::MAX` comes
    /// back.
    pub fn on<F: Fn(&Vec<Arg>) + 'static>(&mut self, event: &str, f: F) -> (id: u64)
        ensures
            old(self).next_listener_id() < u64::MAX ==> {
                &&& id == old(self).next_listener_id()
                &&& final(self).next_listener_id() == old(self).next_listener_id() + 1
                &&& appended(old(self).listeners(event@), final(self).listeners(event@), id, false)
                &&& final(self).listeners(event@).last().callback is Sync
            },
            old(self).next_listener_id() == u64::MAX ==> *final(self) == *old(self) && id
                == u64::MAX,
            forall|e: Seq<char>|
                e != event@ ==> final(self).listeners(e) == old(self).listeners(e),
    {
        if self.registry.at_capacity() {
            return u64::MAX;
        }
        let cb = Callback::Sync(SyncCallback::new(f));
        let id = self.registry.register(event, cb, false);
        proof {
            assert(self.listeners(event@).drop_last() =~= old(self).listeners(event@));
        }
        id
    }

    /// Registers a synchronous listener that is removed again after the
    /// first emission that invokes it; returns its fresh identifier.
    pub fn once<F: Fn(&Vec<Arg>) + 'static>(&mut self, event: &str, f: F) -> (id: u64)
        ensures
            old(self).next_listener_id() < u64::MAX ==> {
                &&& id == old(self).next_listener_id()
                &&& final(self).next_listener_id() == old(self).next_listener_id() + 1
                &&& appended(old(self).listeners(event@), final(self).listeners(event@), id, true)
                &&& final(self).listeners(event@).last().callback is Sync
            },
            old(self).next_listener_id() == u64::MAX ==> *final(self) == *old(self) && id
                == u64::MAX,
            forall|e: Seq<char>|
                e != event@ ==> final(self).listeners(e) == old(self).listeners(e),
    {
        if self.registry.at_capacity() {
            return u64::MAX;
        }
        let cb = Callback::Sync(SyncCallback::new(f));
        let id = self.registry.register(event, cb, true);
        proof {
            assert(self.listeners(event@).drop_last() =~= old(self).listeners(event@));
        }
        id
    }

    /// Registers a persistent asynchronous listener for the event and
    /// returns its fresh identifier.
    pub fn on_async<F, Fut>(&mut self, event: &str, f: F) -> (id: u64) where
        F: Fn(Rc<Vec<Arg>>) -> Fut + 'static,
        Fut: Future<Output = ()> + 'static,

        ensures
            old(self).next_listener_id() < u64::MAX ==> {
                &&& id == old(self).next_listener_id()
                &&& final(self).next_listener_id() == old(self).next_listener_id() + 1
                &&& appended(old(self).listeners(event@), final(self).listeners(event@), id, false)
                &&& final(self).listeners(event@).last().callback is Async
            },
            old(self).next_listener_id() == u64::MAX ==> *final(self) == *old(self) && id
                == u64::MAX,
            forall|e: Seq<char>|
                e != event@ ==> final(self).listeners(e) == old(self).listeners(e),
    {
        if self.registry.at_capacity() {
            return u64::MAX;
        }
        let cb = Callback::Async(AsyncCallback::new(f));
        let id = self.registry.register(event, cb, false);
        proof {
            assert(self.listeners(event@).drop_last() =~= old(self).listeners(event@));
        }
        id
    }

    /// Registers an asynchronous listener that is removed again after the
    /// first emission that submits it; returns its fresh identifier.
    pub fn once_async<F, Fut>(&mut self, event: &str, f: F) -> (id: u64) where
        F: Fn(Rc<Vec<Arg>>) -> Fut + 'static,
        Fut: Future<Output = ()> + 'static,

        ensures
            old(self).next_listener_id() < u64::MAX ==> {
                &&& id == old(self).next_listener_id()
                &&& final(self).next_listener_id() == old(self).next_listener_id() + 1
                &&& appended(old(self).listeners(event@), final(self).listeners(event@), id, true)
                &&& final(self).listeners(event@).last().callback is Async
            },
            old(self).next_listener_id() == u64::MAX ==> *final(self) == *old(self) && id
                == u64::MAX,
            forall|e: Seq<char>|
                e != event@ ==> final(self).listeners(e) == old(self).listeners(e),
    {
        if self.registry.at_capacity() {
            return u64::MAX;
        }
        let cb = Callback::Async(AsyncCallback::new(f));
        let id = self.registry.register(event, cb, true);
        proof {
            assert(self.listeners(event@).drop_last() =~= old(self).listeners(event@));
        }
        id
    }

    /// Removes the listener with the given identifier from the event.
    /// Returns `true` iff such a listener was registered there; an
    /// unknown event or identifier yields `false`, never an error.
    pub fn off(&mut self, event: &str, id: u64) -> (removed: bool)
        ensures
            removed == has_id(old(self).listeners(event@), id),
            final(self).listeners(event@) == without_id(old(self).listeners(event@), id),
            forall|e: Seq<char>|
                e != event@ ==> final(self).listeners(e) == old(self).listeners(e),
            final(self).next_listener_id() == old(self).next_listener_id(),
    {
        self.registry.unregister(event, id)
    }

    /// Removes every listener of the event; a no-op when the event is
    /// unknown.
    pub fn off_all(&mut self, event: &str)
        ensures
            final(self).listeners(event@) == Seq::<Listener<Callback>>::empty(),
            forall|e: Seq<char>|
                e != event@ ==> final(self).listeners(e) == old(self).listeners(e),
            final(self).next_listener_id() == old(self).next_listener_id(),
    {
        self.registry.unregister_all(event)
    }

    /// Dispatches the event.  A snapshot of the event's current callbacks
    /// is taken first; each callback of the snapshot is then invoked in
    /// registration order — synchronous ones inline on this thread,
    /// asynchronous ones submitted to this thread's task queue without
    /// waiting — with all of them sharing one argument sequence; finally
    /// the event's once-listeners are pruned.  The bus is exclusively
    /// borrowed for the whole emission, so those are exactly the
    /// once-listeners the snapshot just ran.  Emitting an event with no
    /// listeners is a pure no-op.
    pub fn emit(&mut self, event: &str, args: Vec<Arg>)
        ensures
            final(self).listeners(event@) == persistent_only(old(self).listeners(event@)),
            forall|e: Seq<char>|
                e != event@ ==> final(self).listeners(e) == old(self).listeners(e),
            final(self).next_listener_id() == old(self).next_listener_id(),
    {
        let snapshot: Vec<Callback> = self.registry.snapshot(event);
        let shared: Rc<Vec<Arg>> = Rc::new(args);
        let n = snapshot.len();
        let mut k: usize = 0;
        while k < n
            invariant
                n == snapshot@.len(),
            decreases n - k,
        {
            match &snapshot[k] {
                Callback::Sync(c) => c.invoke(&shared),
                Callback::Async(c) => c.submit_local(share_args(&shared)),
            }
            k += 1;
        }
        self.registry.prune_once(event);
    }
}

impl EventEmitter for SingleThreadEventEmitter {
    fn on<F: Fn(&Vec<Arg>) + 'static>(&mut self, event: &str, f: F) -> u64 {
        SingleThreadEventEmitter::on(self, event, f)
    }

    fn once<F: Fn(&Vec<Arg>) + 'static>(&mut self, event: &str, f: F) -> u64 {
        SingleThreadEventEmitter::once(self, event, f)
    }

    fn off(&mut self, event: &str, id: u64) -> bool {
        SingleThreadEventEmitter::off(self, event, id)
    }

    fn off_all(&mut self, event: &str) {
        SingleThreadEventEmitter::off_all(self, event)
    }

    fn emit(&mut self, event: &str, args: Vec<Arg>) {
        SingleThreadEventEmitter::emit(self, event, args)
    }
}

impl AsyncEventEmitter for SingleThreadEventEmitter {
    fn on_async<F, Fut>(&mut self, event: &str, f: F) -> u64 where
        F: Fn(Rc<Vec<Arg>>) -> Fut + 'static,
        Fut: Future<Output = ()> + 'static,
     {
        SingleThreadEventEmitter::on_async(self, event, f)
    }

    fn once_async<F, Fut>(&mut self, event: &str, f: F) -> u64 where
        F: Fn(Rc<Vec<Arg>>) -> Fut + 'static,
        Fut: Future<Output = ()> + 'static,
     {
        SingleThreadEventEmitter::once_async(self, event, f)
    }
}

} // verus!
