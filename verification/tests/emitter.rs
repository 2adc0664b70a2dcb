use sfo_event::emitter::EventEmitter;
use std::sync::{Arc, Mutex};

trait TestTrait1: 'static + Sync + Send {
    fn test(&self) -> Result<(), ()>;
    fn test2(&self) -> Result<(), ()>;
}

struct Recorder {
    name: &'static str,
    log: Arc<Mutex<Vec<&'static str>>>,
    fails: bool,
}

impl TestTrait1 for Recorder {
    fn test(&self) -> Result<(), ()> {
        self.log.lock().unwrap().push(self.name);
        if self.fails {
            Err(())
        } else {
            Ok(())
        }
    }

    fn test2(&self) -> Result<(), ()> {
        self.log.lock().unwrap().push(self.name);
        Ok(())
    }
}

fn recorder(name: &'static str, log: &Arc<Mutex<Vec<&'static str>>>, fails: bool) -> Box<dyn TestTrait1> {
    Box::new(Recorder { name, log: log.clone(), fails })
}

fn taken(log: &Arc<Mutex<Vec<&'static str>>>) -> Vec<&'static str> {
    std::mem::take(&mut *log.lock().unwrap())
}

#[test]
fn test_trait() {
    let emitter: EventEmitter<Box<dyn TestTrait1>> = EventEmitter::new();
    // emitter.add_listener(TestTrait1Listener::new());
    emitter.dispatch(|listener| listener.test2());
}

#[test]
fn new_emitter_is_empty_and_starts_at_zero() {
    let emitter: EventEmitter<Box<dyn TestTrait1>> = EventEmitter::new();
    assert_eq!(emitter.len(), 0);
    assert!(emitter.is_empty());
    assert_eq!(emitter.next_handle(), 0);
    assert_eq!(emitter.snapshot().len(), 0);
}

#[test]
fn handles_count_up_from_zero() {
    let log = Arc::new(Mutex::new(Vec::new()));
    let mut emitter = EventEmitter::new();
    for expected in 0..10u64 {
        assert_eq!(emitter.add_listener(recorder("x", &log, false)), expected);
    }
    assert_eq!(emitter.len(), 10);
    assert_eq!(emitter.next_handle(), 10);
}

#[test]
fn handles_are_not_reused_after_removal_or_clear() {
    let log = Arc::new(Mutex::new(Vec::new()));
    let mut emitter = EventEmitter::new();
    assert_eq!(emitter.add_listener(recorder("a", &log, false)), 0);
    assert_eq!(emitter.add_listener(recorder("b", &log, false)), 1);
    emitter.remove_listener(1);
    assert_eq!(emitter.add_listener(recorder("c", &log, false)), 2);
    emitter.clear();
    assert_eq!(emitter.add_listener(recorder("d", &log, false)), 3);
    assert_eq!(emitter.len(), 1);
}

#[test]
fn add_remove_clear_scenario() {
    let log = Arc::new(Mutex::new(Vec::new()));
    let mut emitter = EventEmitter::new();
    assert_eq!(emitter.add_listener(recorder("A", &log, false)), 0);
    assert_eq!(emitter.add_listener(recorder("B", &log, false)), 1);

    emitter.dispatch(|listener| listener.test());
    assert_eq!(taken(&log), vec!["A", "B"]);

    emitter.remove_listener(0);
    emitter.dispatch(|listener| listener.test());
    assert_eq!(taken(&log), vec!["B"]);

    emitter.clear();
    emitter.dispatch(|listener| listener.test());
    assert_eq!(taken(&log), Vec::<&'static str>::new());
}

#[test]
fn removing_twice_or_a_missing_handle_changes_nothing() {
    let log = Arc::new(Mutex::new(Vec::new()));
    let mut emitter = EventEmitter::new();
    emitter.add_listener(recorder("A", &log, false));
    emitter.add_listener(recorder("B", &log, false));
    emitter.add_listener(recorder("C", &log, false));
    emitter.remove_listener(1);
    emitter.remove_listener(1);
    emitter.remove_listener(77);
    assert_eq!(emitter.len(), 2);
    assert_eq!(emitter.next_handle(), 3);
    emitter.dispatch(|listener| listener.test());
    assert_eq!(taken(&log), vec!["A", "C"]);
}

#[test]
fn clear_then_dispatch_calls_nobody() {
    let log = Arc::new(Mutex::new(Vec::new()));
    let mut emitter = EventEmitter::new();
    emitter.add_listener(recorder("A", &log, false));
    emitter.clear();
    emitter.clear();
    assert!(emitter.is_empty());
    assert_eq!(emitter.deliver(|listener| listener.test()).len(), 0);
    assert_eq!(taken(&log), Vec::<&'static str>::new());
}

#[test]
fn deliver_calls_each_listener_once_in_registration_order() {
    let log = Arc::new(Mutex::new(Vec::new()));
    let mut emitter = EventEmitter::new();
    emitter.add_listener(recorder("one", &log, false));
    emitter.add_listener(recorder("two", &log, false));
    emitter.add_listener(recorder("three", &log, false));
    let results = emitter.deliver(|listener| listener.test());
    assert_eq!(results, vec![Ok(()), Ok(()), Ok(())]);
    assert_eq!(taken(&log), vec!["one", "two", "three"]);
}

#[test]
fn a_failing_listener_does_not_stop_the_others() {
    let log = Arc::new(Mutex::new(Vec::new()));
    let mut emitter = EventEmitter::new();
    emitter.add_listener(recorder("first", &log, false));
    emitter.add_listener(recorder("broken", &log, true));
    emitter.add_listener(recorder("last", &log, false));
    let results = emitter.deliver(|listener| listener.test());
    assert_eq!(results, vec![Ok(()), Err(()), Ok(())]);
    assert_eq!(taken(&log), vec!["first", "broken", "last"]);
    emitter.dispatch(|listener| listener.test());
    assert_eq!(taken(&log), vec!["first", "broken", "last"]);
}

#[test]
fn snapshot_shares_the_registered_listeners() {
    let mut emitter = EventEmitter::new();
    emitter.add_listener(String::from("a"));
    emitter.add_listener(String::from("b"));
    let first = emitter.snapshot();
    let second = emitter.snapshot();
    assert_eq!(first.len(), 2);
    assert_eq!(*first[0], "a");
    assert_eq!(*first[1], "b");
    assert!(Arc::ptr_eq(&first[0], &second[0]));
    assert!(Arc::ptr_eq(&first[1], &second[1]));
    assert!(!Arc::ptr_eq(&first[0], &first[1]));
}

#[test]
fn snapshot_is_not_changed_by_later_registration() {
    let mut emitter = EventEmitter::new();
    emitter.add_listener(1u32);
    let snapshot = emitter.snapshot();
    emitter.add_listener(2u32);
    emitter.remove_listener(0);
    let seen: Vec<u32> = snapshot.iter().map(|listener| **listener).collect();
    assert_eq!(seen, vec![1]);
    assert_eq!(emitter.deliver(|listener| *listener), vec![2]);
}

struct Growing {
    emitter: Arc<Mutex<EventEmitter<Box<dyn Fn() + Send + Sync>>>>,
    calls: Arc<Mutex<Vec<&'static str>>>,
}

fn dispatch_shared(emitter: &Arc<Mutex<EventEmitter<Box<dyn Fn() + Send + Sync>>>>) {
    let snapshot = emitter.lock().unwrap().snapshot();
    for listener in snapshot.iter() {
        (**listener)();
    }
}

#[test]
fn listener_added_during_dispatch_waits_for_the_next_one() {
    let shared = Growing {
        emitter: Arc::new(Mutex::new(EventEmitter::new())),
        calls: Arc::new(Mutex::new(Vec::new())),
    };
    let emitter = shared.emitter.clone();
    let calls = shared.calls.clone();
    let handle = shared.emitter.lock().unwrap().add_listener(Box::new(move || {
        calls.lock().unwrap().push("outer");
        let inner_calls = calls.clone();
        let mut guard = emitter.lock().unwrap();
        if guard.len() == 1 {
            guard.add_listener(Box::new(move || {
                inner_calls.lock().unwrap().push("inner");
            }));
        }
    }));
    assert_eq!(handle, 0);

    dispatch_shared(&shared.emitter);
    assert_eq!(taken(&shared.calls), vec!["outer"]);
    assert_eq!(shared.emitter.lock().unwrap().len(), 2);

    dispatch_shared(&shared.emitter);
    assert_eq!(taken(&shared.calls), vec!["outer", "inner"]);
}
