//! An embeddable publish/subscribe event bus.
//!
//! Producers announce a named event together with a sequence of
//! dynamically-typed arguments; consumers that registered a listener for
//! that name are invoked with the arguments, in registration order.
//! Two buses are offered: one confined to a single thread of control and
//! one safe for concurrent use from many threads.

pub mod args;
pub mod basis;
pub mod event_emitters;
pub mod registry;

pub use args::Arg;
pub use basis::{
    AsyncCallback, AsyncThreadSafeCallback, Callback, Handler, SyncCallback,
    SyncThreadSafeCallback, ThreadSafeCallback, ThreadSafeHandler,
};
pub use event_emitters::{
    AsyncEventEmitter, EventEmitter, MultiThreadEventEmitter, SingleThreadEventEmitter,
    ThreadSafeAsyncEventEmitter, ThreadSafeEventEmitter,
};
pub use registry::{Dup, Listener, Registry};
