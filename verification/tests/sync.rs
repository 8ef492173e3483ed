use windows_kernel_rs::sync::fast_mutex::FastMutex;
use windows_kernel_rs::sync::push_lock::PushLock;
use windows_kernel_rs::sync::{Mutex, RwLock};

#[test]
fn readers_hold_the_lock_together() {
    let mut lock = PushLock::new(17u32);
    let mut guards = Vec::new();
    for expected in 0u64..50 {
        let guard = lock.read().unwrap();
        assert_eq!(guard.ticket(), expected);
        guards.push(guard);
    }
    for guard in &guards {
        assert!(lock.holds_read(guard));
        assert_eq!(lock.get(guard), Some(&17));
    }
    for guard in guards {
        lock.release_read(guard);
    }
    let writer = lock.write().unwrap();
    assert!(lock.holds_write(&writer));
}

#[test]
fn reader_that_comes_after_a_waiting_writer_waits_for_it() {
    let mut lock = PushLock::new(0u32);
    let first = lock.read().unwrap();
    let second = lock.read().unwrap();
    let writer = lock.write().unwrap();
    assert!(!lock.holds_write(&writer));
    let late = lock.read().unwrap();
    assert!(lock.holds_read(&first));
    assert!(lock.holds_read(&second));
    assert!(!lock.holds_read(&late));
    assert_eq!(lock.get(&late), None);

    lock.release_read(first);
    assert!(!lock.holds_write(&writer));
    assert!(!lock.holds_read(&late));
    lock.release_read(second);
    assert!(lock.holds_write(&writer));
    assert!(!lock.holds_read(&late));

    *lock.get_mut(&writer).unwrap() = 5;
    assert!(!lock.holds_read(&late));
    lock.release_write(writer);
    assert!(lock.holds_read(&late));
    assert_eq!(lock.get(&late), Some(&5));
    lock.release_read(late);
    assert_eq!(lock.into_inner(), 5);
}

#[test]
fn writer_excludes_readers_and_writers() {
    let mut lock = PushLock::new(String::from("a"));
    let writer = lock.write().unwrap();
    assert!(lock.holds_write(&writer));
    let reader = lock.read().unwrap();
    let other = lock.write().unwrap();
    let last = lock.read().unwrap();
    assert!(!lock.holds_read(&reader));
    assert!(!lock.holds_write(&other));
    assert!(lock.get_mut(&other).is_none());
    lock.get_mut(&writer).unwrap().push('b');

    lock.release_write(writer);
    assert!(lock.holds_read(&reader));
    assert!(!lock.holds_write(&other));
    assert!(!lock.holds_read(&last));
    assert_eq!(lock.get(&reader).map(|text| text.as_str()), Some("ab"));

    lock.release_read(reader);
    assert!(lock.holds_write(&other));
    assert!(!lock.holds_read(&last));
    lock.release_write(other);
    assert!(lock.holds_read(&last));
}

#[test]
fn readers_that_wait_together_are_let_in_together() {
    let mut lock = PushLock::new(());
    let writer = lock.write().unwrap();
    let readers: Vec<_> = (0..4).map(|_| lock.read().unwrap()).collect();
    let next_writer = lock.write().unwrap();
    let behind = lock.read().unwrap();
    assert!(readers.iter().all(|reader| !lock.holds_read(reader)));
    lock.release_write(writer);
    assert!(readers.iter().all(|reader| lock.holds_read(reader)));
    assert!(!lock.holds_write(&next_writer));
    assert!(!lock.holds_read(&behind));
    for reader in readers {
        assert!(!lock.holds_write(&next_writer));
        lock.release_read(reader);
    }
    assert!(lock.holds_write(&next_writer));
    assert!(!lock.holds_read(&behind));
}

#[test]
fn waiter_that_gives_up_lets_the_others_through() {
    let mut lock = PushLock::new(());
    let reader = lock.read().unwrap();
    let writer = lock.write().unwrap();
    let late = lock.read().unwrap();
    assert!(!lock.holds_read(&late));
    lock.release_write(writer);
    assert!(lock.holds_read(&reader));
    assert!(lock.holds_read(&late));
    let writer = lock.write().unwrap();
    let waiting = lock.read().unwrap();
    lock.release_read(waiting);
    lock.release_read(reader);
    assert!(!lock.holds_write(&writer));
    lock.release_read(late);
    assert!(lock.holds_write(&writer));
}

#[test]
fn guard_of_another_lock_changes_nothing() {
    let mut lock = PushLock::new(1u8);
    let mut other = PushLock::new(2u8);
    let held = lock.write().unwrap();
    let _skipped = other.read().unwrap();
    let stranger = other.write().unwrap();
    assert_ne!(held.ticket(), stranger.ticket());
    assert!(!lock.holds_write(&stranger));
    assert!(lock.get_mut(&stranger).is_none());
    lock.release_write(stranger);
    assert!(lock.holds_write(&held));
    assert_eq!(lock.get_mut(&held).copied(), Some(1));
}

#[test]
fn lock_gives_its_data_back() {
    let lock: RwLock<Vec<u8>> = PushLock::new(vec![1, 2, 3]);
    assert_eq!(lock.into_inner(), vec![1, 2, 3]);
    let mutex: Mutex<&str> = FastMutex::new("x");
    assert_eq!(mutex.into_inner(), "x");
}

#[test]
fn mutex_passes_to_the_oldest_waiter() {
    let mut mutex = FastMutex::new(0u32);
    let first = mutex.lock().unwrap();
    let second = mutex.lock().unwrap();
    let third = mutex.lock().unwrap();
    assert_eq!((first.ticket(), second.ticket(), third.ticket()), (0, 1, 2));
    assert!(mutex.holds(&first));
    assert!(!mutex.holds(&second));
    assert!(!mutex.holds(&third));
    assert!(mutex.get_mut(&second).is_none());
    *mutex.get_mut(&first).unwrap() += 1;
    mutex.unlock(first);
    assert!(mutex.holds(&second));
    assert!(!mutex.holds(&third));
    *mutex.get_mut(&second).unwrap() += 1;
    mutex.unlock(second);
    assert!(mutex.holds(&third));
    mutex.unlock(third);
    let again = mutex.lock().unwrap();
    assert!(mutex.holds(&again));
    assert_eq!(mutex.into_inner(), 2);
}

#[test]
fn mutex_waiter_that_gives_up_is_passed_over() {
    let mut mutex = FastMutex::new(());
    let first = mutex.lock().unwrap();
    let second = mutex.lock().unwrap();
    let third = mutex.lock().unwrap();
    mutex.unlock(second);
    assert!(mutex.holds(&first));
    mutex.unlock(first);
    assert!(mutex.holds(&third));
}

#[test]
fn mutex_holder_that_asks_again_waits_for_itself() {
    let mut mutex = FastMutex::new(());
    let held = mutex.lock().unwrap();
    let again = mutex.lock().unwrap();
    assert!(mutex.holds(&held));
    assert!(!mutex.holds(&again));
}
