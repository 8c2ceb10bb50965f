use kleinos::{busy_spin, Mutex};

#[test]
fn try_lock_succeeds_on_free_lock() {
    let mut m = Mutex::new(41u32);
    let guard = m.try_lock().expect("a free lock must be acquirable");
    assert_eq!(*guard.get(), 41);
    m.unlock(guard);
}

#[test]
fn try_lock_fails_while_guard_lives() {
    let mut m = Mutex::new(7u32);
    let first = m.try_lock();
    assert!(first.is_some());
    // At most one live guard: a second attempt must fail with no effect.
    let second = m.try_lock();
    assert!(second.is_none());
    let third = m.try_lock();
    assert!(third.is_none());
    m.unlock(first.unwrap());
    // Once the guard is dropped the lock is free again.
    let fourth = m.try_lock();
    assert!(fourth.is_some());
    m.unlock(fourth.unwrap());
}

#[test]
fn guard_observes_last_write() {
    let mut m = Mutex::new(1u64);
    let mut guard = m.lock();
    guard.set(99);
    m.unlock(guard);
    // The next acquirer sees the last write made under the previous guard.
    let guard = m.lock();
    assert_eq!(*guard.get(), 99);
    m.unlock(guard);
    assert_eq!(m.into_inner(), 99);
}

#[test]
fn guard_data_field_reads_and_writes() {
    let mut m = Mutex::new(vec![1u8, 2, 3]);
    let mut guard = m.lock();
    guard.data.push(4);
    m.unlock(guard);
    assert_eq!(m.into_inner(), vec![1u8, 2, 3, 4]);
}

#[test]
fn into_inner_returns_initial_value() {
    let m = Mutex::new(String::from("payload"));
    assert_eq!(m.into_inner(), "payload");
}

#[test]
fn busy_spin_returns() {
    busy_spin(10_000);
}
