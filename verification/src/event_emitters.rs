//! The two buses: one confined to a single thread of control, one safe
//! for concurrent use from many threads.

pub mod multi_thread;
pub mod single_thread;

pub use multi_thread::{MultiThreadEventEmitter, ThreadSafeAsyncEventEmitter, ThreadSafeEventEmitter};
pub use single_thread::{AsyncEventEmitter, EventEmitter, SingleThreadEventEmitter};
