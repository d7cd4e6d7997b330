use std::future::Future;
use std::pin::Pin;
use std::task::Context;

use task_signals::{RegistryError, ThreadResultMap};

fn poll_is_ready<F: Future<Output = ()> + Unpin>(fut: &mut F) -> bool {
    let waker = futures_task::noop_waker();
    let mut cx = Context::from_waker(&waker);
    Pin::new(fut).poll(&mut cx).is_ready()
}

#[test]
fn track_then_is_tracked() {
    let mut map: ThreadResultMap<u64> = ThreadResultMap::new();
    assert!(!map.is_tracked(1));
    map.track(1);
    assert!(map.is_tracked(1));
    map.track(1);
    assert!(map.is_tracked(1));
}

#[test]
fn remove_without_result_changes_nothing() {
    let mut map: ThreadResultMap<u64> = ThreadResultMap::new();
    map.track(1);
    assert_eq!(map.remove(1), None);
    assert!(map.is_tracked(1));
    assert_eq!(map.remove(2), None);
    assert!(!map.is_tracked(2));
}

#[test]
fn remove_yields_the_result_exactly_once() {
    let mut map: ThreadResultMap<&str> = ThreadResultMap::new();
    map.track(1);
    assert_eq!(map.insert(1, "finished"), Ok(()));
    assert_eq!(map.remove(1), Some("finished"));
    assert!(!map.is_tracked(1));
    assert_eq!(map.remove(1), None);
}

#[test]
fn insert_overwrites_a_previous_result() {
    let mut map: ThreadResultMap<u64> = ThreadResultMap::new();
    map.track(1);
    assert_eq!(map.insert(1, 10), Ok(()));
    assert_eq!(map.insert(1, 20), Ok(()));
    assert_eq!(map.remove(1), Some(20));
}

#[test]
fn insert_and_listen_reject_untracked_ids() {
    let mut map: ThreadResultMap<u64> = ThreadResultMap::new();
    assert_eq!(map.insert(9, 1), Err(RegistryError::UnknownTaskId));
    match map.listen(9) {
        Err(e) => assert_eq!(e, RegistryError::UnknownTaskId),
        Ok(_) => panic!("listen on an untracked id must fail"),
    }
    assert!(!map.is_tracked(9));
}

#[test]
fn listen_after_insert_resolves_without_suspending() {
    let mut map: ThreadResultMap<&str> = ThreadResultMap::new();
    map.track(1);
    assert_eq!(map.insert(1, "ready"), Ok(()));
    match map.listen(1) {
        Ok(None) => {}
        _ => panic!("listen after insert must not hand out a waiter"),
    }
    assert_eq!(map.remove(1), Some("ready"));
}

#[test]
fn one_insert_wakes_every_pending_listener() {
    let mut map: ThreadResultMap<&str> = ThreadResultMap::new();
    map.track(1);
    let mut first = match map.listen(1) {
        Ok(Some(waiter)) => waiter,
        _ => panic!("listen before insert must hand out a waiter"),
    };
    let mut second = match map.listen(1) {
        Ok(Some(waiter)) => waiter,
        _ => panic!("listen before insert must hand out a waiter"),
    };
    assert!(!poll_is_ready(&mut first));
    assert!(!poll_is_ready(&mut second));
    assert_eq!(map.insert(1, "done"), Ok(()));
    assert!(poll_is_ready(&mut first));
    assert!(poll_is_ready(&mut second));
    assert_eq!(map.remove(1), Some("done"));
}

#[test]
fn registry_round_trip() {
    let mut map: ThreadResultMap<String> = ThreadResultMap::new();
    map.track(42);
    let mut waiter = match map.listen(42) {
        Ok(Some(waiter)) => waiter,
        _ => panic!("listen before insert must hand out a waiter"),
    };
    assert!(!poll_is_ready(&mut waiter));
    assert_eq!(map.insert(42, String::from("done")), Ok(()));
    assert!(poll_is_ready(&mut waiter));
    assert_eq!(map.remove(42), Some(String::from("done")));
    assert!(!map.is_tracked(42));
}
