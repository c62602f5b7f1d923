//! The single-thread bus exercised from outside, including cooperative
//! asynchronous listeners driven by a local task queue.

use event_bus::{Arg, SingleThreadEventEmitter};
use std::cell::RefCell;
use std::rc::Rc;

#[test]
fn single_thread_test_test_basic_on_and_emit() {
    let mut emitter = SingleThreadEventEmitter::new();
    let call_count = Rc::new(RefCell::new(0));

    let call_count_clone = call_count.clone();
    emitter.on("test", move |_args| {
        *call_count_clone.borrow_mut() += 1;
    });

    emitter.emit("test", vec![]);
    emitter.emit("test", vec![]);

    assert_eq!(*call_count.borrow(), 2);
}

#[test]
fn single_thread_test_test_event_arguments() {
    let mut emitter = SingleThreadEventEmitter::new();
    let received_args = Rc::new(RefCell::new(Vec::<String>::new()));

    let received_args_clone = received_args.clone();
    emitter.on("data", move |args| {
        for arg in args.iter() {
            if let Some(s) = arg.as_str() {
                received_args_clone.borrow_mut().push(s.clone());
            }
        }
    });

    let args = vec![
        Arg::Str(String::from("hello")),
        Arg::Str(String::from("world")),
    ];

    emitter.emit("data", args);

    assert_eq!(*received_args.borrow(), vec!["hello", "world"]);
}

#[test]
fn single_thread_test_test_once_listener() {
    let mut emitter = SingleThreadEventEmitter::new();
    let call_count = Rc::new(RefCell::new(0));

    let call_count_clone = call_count.clone();
    emitter.once("once_test", move |_args| {
        *call_count_clone.borrow_mut() += 1;
    });

    emitter.emit("once_test", vec![]);
    emitter.emit("once_test", vec![]);

    assert_eq!(*call_count.borrow(), 1);
}

#[test]
fn single_thread_test_test_off_removal() {
    let mut emitter = SingleThreadEventEmitter::new();
    let call_count = Rc::new(RefCell::new(0));

    let call_count_clone = call_count.clone();
    let id = emitter.on("removable", move |_args| {
        *call_count_clone.borrow_mut() += 1;
    });

    emitter.emit("removable", vec![]);
    assert_eq!(*call_count.borrow(), 1);

    assert!(emitter.off("removable", id));

    emitter.emit("removable", vec![]);
    assert_eq!(*call_count.borrow(), 1);
}

#[test]
fn single_thread_test_test_off_nonexistent() {
    let mut emitter = SingleThreadEventEmitter::new();

    assert!(!emitter.off("nonexistent", 999));
}

#[test]
fn single_thread_test_test_off_all() {
    let mut emitter = SingleThreadEventEmitter::new();
    let call_count1 = Rc::new(RefCell::new(0));
    let call_count2 = Rc::new(RefCell::new(0));

    let count1_clone = call_count1.clone();
    let count2_clone = call_count2.clone();

    emitter.on("multi", move |_args| {
        *count1_clone.borrow_mut() += 1;
    });

    emitter.on("multi", move |_args| {
        *count2_clone.borrow_mut() += 1;
    });

    emitter.emit("multi", vec![]);
    assert_eq!(*call_count1.borrow(), 1);
    assert_eq!(*call_count2.borrow(), 1);

    emitter.off_all("multi");

    emitter.emit("multi", vec![]);
    assert_eq!(*call_count1.borrow(), 1);
    assert_eq!(*call_count2.borrow(), 1);
}

#[test]
fn single_thread_test_test_multiple_events() {
    let mut emitter = SingleThreadEventEmitter::new();
    let event1_count = Rc::new(RefCell::new(0));
    let event2_count = Rc::new(RefCell::new(0));

    let count1_clone = event1_count.clone();
    let count2_clone = event2_count.clone();

    emitter.on("event1", move |_args| {
        *count1_clone.borrow_mut() += 1;
    });

    emitter.on("event2", move |_args| {
        *count2_clone.borrow_mut() += 1;
    });

    emitter.emit("event1", vec![]);
    emitter.emit("event2", vec![]);
    emitter.emit("event1", vec![]);

    assert_eq!(*event1_count.borrow(), 2);
    assert_eq!(*event2_count.borrow(), 1);
}

#[test]
fn single_thread_test_test_listener_id_uniqueness() {
    let mut emitter = SingleThreadEventEmitter::new();

    let id1 = emitter.on("test", |_args| {});
    let id2 = emitter.on("test", |_args| {});
    let id3 = emitter.once("test", |_args| {});

    assert_ne!(id1, id2);
    assert_ne!(id2, id3);
    assert_ne!(id1, id3);
}

#[test]
fn single_thread_test_test_empty_args() {
    let mut emitter = SingleThreadEventEmitter::new();
    let called = Rc::new(RefCell::new(false));

    let called_clone = called.clone();
    emitter.on("empty", move |args| {
        assert!(args.is_empty());
        *called_clone.borrow_mut() = true;
    });

    emitter.emit("empty", vec![]);
    assert!(*called.borrow());
}

#[test]
fn single_thread_test_test_nonexistent_event_emit() {
    let mut emitter = SingleThreadEventEmitter::new();

    emitter.emit("nonexistent", vec![]);
}

#[test]
fn single_thread_test_test_multiple_data_types() {
    let mut emitter = SingleThreadEventEmitter::new();
    let results = Rc::new(RefCell::new(Vec::<String>::new()));

    let results_clone = results.clone();
    emitter.on("mixed", move |args| {
        for arg in args.iter() {
            if let Some(num) = arg.as_i32() {
                results_clone.borrow_mut().push(format!("i32: {}", num));
            } else if let Some(b) = arg.as_bool() {
                results_clone.borrow_mut().push(format!("bool: {}", b));
            } else if let Some(s) = arg.as_str() {
                results_clone.borrow_mut().push(format!("str: {}", s));
            }
        }
    });

    let args = vec![Arg::I32(42), Arg::Bool(true), Arg::Str("hello".to_string())];

    emitter.emit("mixed", args);

    let expected = vec!["i32: 42", "bool: true", "str: hello"];
    assert_eq!(*results.borrow(), expected);
}

#[test]
fn single_thread_test_test_async_on_and_emit() {
    let rt = tokio::runtime::Builder::new_current_thread().build().unwrap();
    let local = tokio::task::LocalSet::new();
    local.block_on(&rt, async {
        let mut emitter = SingleThreadEventEmitter::new();
        let called = Rc::new(RefCell::new(0));

        let called_clone = called.clone();
        emitter.on_async("async_event", move |_args| {
            let called_clone = called_clone.clone();
            async move {
                *called_clone.borrow_mut() += 1;
            }
        });

        emitter.emit("async_event", vec![]);

        tokio::task::yield_now().await;

        assert_eq!(*called.borrow(), 1);
    });
}

#[test]
fn test_async_once() {
    let rt = tokio::runtime::Builder::new_current_thread().build().unwrap();
    let local = tokio::task::LocalSet::new();
    local.block_on(&rt, async {
        let mut emitter = SingleThreadEventEmitter::new();
        let called = Rc::new(RefCell::new(0));

        let called_clone = called.clone();
        emitter.once_async("once_async", move |_args| {
            let called_clone = called_clone.clone();
            async move {
                *called_clone.borrow_mut() += 1;
            }
        });

        emitter.emit("once_async", vec![]);
        tokio::task::yield_now().await;

        emitter.emit("once_async", vec![]);
        tokio::task::yield_now().await;

        assert_eq!(*called.borrow(), 1);
    });
}

#[test]
fn single_thread_test_test_sync_and_async_mixed() {
    let rt = tokio::runtime::Builder::new_current_thread().build().unwrap();
    let local = tokio::task::LocalSet::new();
    local.block_on(&rt, async {
        let mut emitter = SingleThreadEventEmitter::new();
        let sync_called = Rc::new(RefCell::new(0));
        let async_called = Rc::new(RefCell::new(0));

        let sync_clone = sync_called.clone();
        emitter.on("mixed", move |_args| {
            *sync_clone.borrow_mut() += 1;
        });

        let async_clone = async_called.clone();
        emitter.on_async("mixed", move |_args| {
            let async_clone = async_clone.clone();
            async move {
                *async_clone.borrow_mut() += 1;
            }
        });

        emitter.emit("mixed", vec![]);
        tokio::task::yield_now().await;

        assert_eq!(*sync_called.borrow(), 1);
        assert_eq!(*async_called.borrow(), 1);
    });
}
