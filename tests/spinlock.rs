use learn_rust::spinlock::SpinLock;
use std::sync::Arc;

fn shareable<T: Send + Sync>(_: &T) {}

#[test]
fn lock_reads_initial_value() {
    let lock = SpinLock::new(41);
    let guard = lock.lock();
    assert_eq!(*guard, 41);
}

#[test]
fn write_through_guard_is_kept() {
    let lock = SpinLock::new(0u64);
    {
        let mut guard = lock.lock();
        *guard += 1;
    }
    assert_eq!(*lock.lock(), 1);
}

#[test]
fn lock_again_after_scope_exit() {
    let lock = SpinLock::new(String::from("a"));
    {
        let mut guard = lock.lock();
        guard.push('b');
    }
    let guard = lock.lock();
    assert_eq!(guard.as_str(), "ab");
}

#[test]
fn lock_again_after_explicit_drop() {
    let lock = SpinLock::new(5i32);
    let mut guard = lock.lock();
    *guard = 6;
    drop(guard);
    let guard = lock.lock();
    assert_eq!(*guard, 6);
}

#[test]
fn repeated_lock_and_release() {
    let lock = SpinLock::new(0u32);
    for _ in 0..100_000 {
        let mut guard = lock.lock();
        *guard += 1;
    }
    assert_eq!(*lock.lock(), 100_000);
}

#[test]
fn heap_payload_written_then_read_under_lock() {
    let lock = SpinLock::new(Vec::<String>::new());
    {
        let mut guard = lock.lock();
        guard.push(String::from("first"));
        guard.push(String::from("second"));
    }
    let guard = lock.lock();
    assert_eq!(guard.len(), 2);
    assert_eq!(guard[0], "first");
    assert_eq!(guard[1], "second");
}

#[test]
fn shared_handles_see_one_value() {
    let counter = Arc::new(SpinLock::new(0i32));
    let handles: Vec<Arc<SpinLock<i32>>> = (0..10).map(|_| Arc::clone(&counter)).collect();
    for handle in &handles {
        for _ in 0..1000 {
            let mut guard = handle.lock();
            *guard += 1;
        }
    }
    assert_eq!(*counter.lock(), 10_000);
}

#[test]
fn lock_is_send_and_sync_for_send_values() {
    let lock = SpinLock::new(vec![1u8, 2, 3]);
    shareable(&lock);
    let shared = Arc::new(SpinLock::new(String::new()));
    shareable(&shared);
}

#[test]
fn dropping_lock_drops_value() {
    let payload = std::rc::Rc::new(7);
    let lock = SpinLock::new(std::rc::Rc::clone(&payload));
    assert_eq!(std::rc::Rc::strong_count(&payload), 2);
    {
        let guard = lock.lock();
        assert_eq!(**guard, 7);
    }
    drop(lock);
    assert_eq!(std::rc::Rc::strong_count(&payload), 1);
}

#[test]
fn dropping_unused_lock_drops_value() {
    let payload = std::rc::Rc::new(String::from("kept"));
    let lock = SpinLock::new(std::rc::Rc::clone(&payload));
    drop(lock);
    assert_eq!(std::rc::Rc::strong_count(&payload), 1);
}
