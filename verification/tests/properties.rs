//! Scenario tests for the bus's stated guarantees: dispatch order, once
//! semantics, removal reporting, isolation, identifier uniqueness and
//! no-op safety.

use event_bus::{Arg, MultiThreadEventEmitter, SingleThreadEventEmitter};
use std::cell::RefCell;
use std::rc::Rc;
use std::sync::{Arc, Mutex};

#[test]
fn test_dispatch_order_single_thread() {
    let mut emitter = SingleThreadEventEmitter::new();
    let order = Rc::new(RefCell::new(Vec::<i32>::new()));

    for i in 0..5 {
        let order_clone = order.clone();
        emitter.on("ordered", move |_args| {
            order_clone.borrow_mut().push(i);
        });
    }

    emitter.emit("ordered", vec![]);

    assert_eq!(*order.borrow(), vec![0, 1, 2, 3, 4]);
}

#[test]
fn test_dispatch_order_multi_thread() {
    let emitter = MultiThreadEventEmitter::new();
    let order = Arc::new(Mutex::new(Vec::<i32>::new()));

    for i in 0..5 {
        let order_clone = order.clone();
        emitter.on("ordered", move |_args| {
            order_clone.lock().unwrap().push(i);
        });
    }

    emitter.emit("ordered", vec![]);

    assert_eq!(*order.lock().unwrap(), vec![0, 1, 2, 3, 4]);
}

#[test]
fn test_off_true_exactly_once() {
    let mut emitter = SingleThreadEventEmitter::new();
    let id = emitter.on("evt", |_args| {});

    assert!(emitter.off("evt", id));
    assert!(!emitter.off("evt", id));
    assert!(!emitter.off("evt", id));
    assert!(!emitter.off("other", id));
}

#[test]
fn test_off_wrong_event_does_not_remove() {
    let mut emitter = SingleThreadEventEmitter::new();
    let count = Rc::new(RefCell::new(0));

    let count_clone = count.clone();
    let id = emitter.on("here", move |_args| {
        *count_clone.borrow_mut() += 1;
    });

    assert!(!emitter.off("elsewhere", id));
    emitter.emit("here", vec![]);
    assert_eq!(*count.borrow(), 1);
}

#[test]
fn test_once_across_many_emits() {
    let mut emitter = SingleThreadEventEmitter::new();
    let count = Rc::new(RefCell::new(0));

    let count_clone = count.clone();
    emitter.once("burst", move |_args| {
        *count_clone.borrow_mut() += 1;
    });

    for _ in 0..5 {
        emitter.emit("burst", vec![]);
    }

    assert_eq!(*count.borrow(), 1);
}

#[test]
fn test_once_keeps_persistent_neighbours() {
    let mut emitter = SingleThreadEventEmitter::new();
    let persistent = Rc::new(RefCell::new(0));
    let fleeting = Rc::new(RefCell::new(0));

    let p = persistent.clone();
    emitter.on("both", move |_args| {
        *p.borrow_mut() += 1;
    });
    let f = fleeting.clone();
    emitter.once("both", move |_args| {
        *f.borrow_mut() += 1;
    });

    emitter.emit("both", vec![]);
    emitter.emit("both", vec![]);

    assert_eq!(*persistent.borrow(), 2);
    assert_eq!(*fleeting.borrow(), 1);
}

#[test]
fn test_ids_unique_across_events() {
    let mut emitter = SingleThreadEventEmitter::new();

    let a = emitter.on("alpha", |_args| {});
    let b = emitter.once("beta", |_args| {});
    let c = emitter.on("gamma", |_args| {});

    assert_ne!(a, b);
    assert_ne!(b, c);
    assert_ne!(a, c);
}

#[test]
fn test_ids_not_reused_after_removal() {
    let mut emitter = SingleThreadEventEmitter::new();

    let a = emitter.on("evt", |_args| {});
    assert!(emitter.off("evt", a));
    let b = emitter.on("evt", |_args| {});

    assert_ne!(a, b);
}

#[test]
fn test_off_all_unknown_event_is_noop() {
    let mut emitter = SingleThreadEventEmitter::new();
    let count = Rc::new(RefCell::new(0));

    let count_clone = count.clone();
    emitter.on("kept", move |_args| {
        *count_clone.borrow_mut() += 1;
    });

    emitter.off_all("unknown");
    emitter.emit("kept", vec![]);

    assert_eq!(*count.borrow(), 1);
}

#[test]
fn test_checked_argument_queries() {
    let number = Arg::I32(7);
    let wide = Arg::I64(-9);
    let flag = Arg::Bool(true);
    let text = Arg::Str("seven".to_string());

    assert_eq!(number.as_i32(), Some(7));
    assert_eq!(number.as_bool(), None);
    assert_eq!(number.as_i64(), None);
    assert!(number.as_str().is_none());

    assert_eq!(wide.as_i64(), Some(-9));
    assert_eq!(wide.as_i32(), None);

    assert_eq!(flag.as_bool(), Some(true));
    assert_eq!(flag.as_i32(), None);

    assert_eq!(text.as_str().map(|s| s.as_str()), Some("seven"));
    assert_eq!(text.as_bool(), None);
}

#[test]
fn test_separate_buses_are_independent() {
    let mut one = SingleThreadEventEmitter::new();
    let mut two = SingleThreadEventEmitter::new();
    let count = Rc::new(RefCell::new(0));

    let count_clone = count.clone();
    one.on("shared_name", move |_args| {
        *count_clone.borrow_mut() += 1;
    });

    two.emit("shared_name", vec![]);
    assert_eq!(*count.borrow(), 0);

    one.emit("shared_name", vec![]);
    assert_eq!(*count.borrow(), 1);
}

#[test]
fn test_multi_counters_scenario() {
    let mut emitter = SingleThreadEventEmitter::new();
    let c1 = Rc::new(RefCell::new(0));
    let c2 = Rc::new(RefCell::new(0));

    let c1_clone = c1.clone();
    emitter.on("multi", move |_args| {
        *c1_clone.borrow_mut() += 1;
    });
    let c2_clone = c2.clone();
    emitter.on("multi", move |_args| {
        *c2_clone.borrow_mut() += 1;
    });

    emitter.emit("multi", vec![]);
    assert_eq!(*c1.borrow(), 1);
    assert_eq!(*c2.borrow(), 1);

    emitter.off_all("multi");
    emitter.emit("multi", vec![]);
    assert_eq!(*c1.borrow(), 1);
    assert_eq!(*c2.borrow(), 1);
}

#[test]
fn test_async_listener_receives_arguments_single_thread() {
    let rt = tokio::runtime::Builder::new_current_thread().build().unwrap();
    let local = tokio::task::LocalSet::new();
    local.block_on(&rt, async {
        let mut emitter = event_bus::SingleThreadEventEmitter::new();
        let seen = Rc::new(RefCell::new(Vec::<String>::new()));

        let seen_clone = seen.clone();
        emitter.on_async("data", move |args| {
            let seen_clone = seen_clone.clone();
            async move {
                if let Some(s) = args[0].as_str() {
                    seen_clone.borrow_mut().push(s.clone());
                }
            }
        });

        emitter.emit("data", vec![Arg::Str("payload".to_string())]);
        tokio::task::yield_now().await;

        assert_eq!(*seen.borrow(), vec!["payload"]);
    });
}

#[test]
fn test_async_listener_receives_arguments_multi_thread() {
    let rt = tokio::runtime::Builder::new_current_thread().build().unwrap();
    rt.block_on(async {
        let emitter = MultiThreadEventEmitter::new().set_handle(tokio::runtime::Handle::current());
        let seen = Arc::new(Mutex::new(Vec::<i32>::new()));

        let seen_clone = seen.clone();
        emitter.on_async("data", move |args| {
            let seen_clone = seen_clone.clone();
            async move {
                if let Some(n) = args[0].as_i32() {
                    seen_clone.lock().unwrap().push(n);
                }
            }
        });

        emitter.emit("data", vec![Arg::I32(31)]);
        tokio::task::yield_now().await;

        assert_eq!(*seen.lock().unwrap(), vec![31]);
    });
}

#[test]
fn test_reentrant_emit_from_listener() {
    let emitter = MultiThreadEventEmitter::new();
    let hits = Arc::new(Mutex::new(Vec::new()));

    let h1 = hits.clone();
    let e2 = emitter.clone();
    emitter.on("outer", move |_args| {
        h1.lock().unwrap().push("outer");
        e2.emit("inner", vec![]);
    });
    let h2 = hits.clone();
    emitter.on("inner", move |_args| {
        h2.lock().unwrap().push("inner");
    });

    emitter.emit("outer", vec![]);

    assert_eq!(*hits.lock().unwrap(), vec!["outer", "inner"]);
}

#[test]
fn test_once_registered_during_emit_survives() {
    let emitter = MultiThreadEventEmitter::new();
    let counter = Arc::new(Mutex::new(0));

    let e2 = emitter.clone();
    let c2 = counter.clone();
    emitter.once("e", move |_args| {
        let c3 = c2.clone();
        e2.once("e", move |_args| {
            *c3.lock().unwrap() += 1;
        });
    });

    // The first pass runs the outer once-listener, which registers the
    // inner one after the snapshot was taken; pruning goes by the
    // identifiers actually invoked, so the inner one must survive.
    emitter.emit("e", vec![]);
    assert_eq!(*counter.lock().unwrap(), 0);

    emitter.emit("e", vec![]);
    assert_eq!(*counter.lock().unwrap(), 1);

    emitter.emit("e", vec![]);
    assert_eq!(*counter.lock().unwrap(), 1);
}

#[test]
fn test_removal_during_emission_spares_current_pass() {
    let emitter = MultiThreadEventEmitter::new();
    let count_b = Arc::new(Mutex::new(0));
    let b_id = Arc::new(Mutex::new(0u64));

    let e2 = emitter.clone();
    let b_id_clone = b_id.clone();
    emitter.on("e", move |_args| {
        let id = *b_id_clone.lock().unwrap();
        e2.off("e", id);
    });
    let cb = count_b.clone();
    let id = emitter.on("e", move |_args| {
        *cb.lock().unwrap() += 1;
    });
    *b_id.lock().unwrap() = id;

    // The first listener removes the second mid-pass; the snapshot taken
    // at emission start still runs it this one time.
    emitter.emit("e", vec![]);
    assert_eq!(*count_b.lock().unwrap(), 1);

    emitter.emit("e", vec![]);
    assert_eq!(*count_b.lock().unwrap(), 1);
}

#[test]
fn test_async_counter_after_delay() {
    let rt = tokio::runtime::Builder::new_multi_thread()
        .worker_threads(2)
        .enable_time()
        .build()
        .unwrap();
    let emitter = MultiThreadEventEmitter::new().set_handle(rt.handle().clone());
    let counter = Arc::new(Mutex::new(0));

    let counter_clone = counter.clone();
    emitter.on_async("e", move |_args| {
        let counter_clone = counter_clone.clone();
        async move {
            tokio::time::sleep(std::time::Duration::from_millis(10)).await;
            *counter_clone.lock().unwrap() += 1;
        }
    });

    emitter.emit("e", vec![]);
    rt.block_on(async {
        tokio::time::sleep(std::time::Duration::from_millis(500)).await;
    });

    assert_eq!(*counter.lock().unwrap(), 1);
}
