use safesync::Mutex;
use safesync::PoisonError;
use safesync::RwLock;
use safesync::SpinLock;
use safesync::TryLockError;

#[test]
fn mutex_lock_read_write_unlock() {
    let m = Mutex::new(5u64);
    let mut g = match m.lock() {
        Ok(g) => g,
        Err(_) => panic!("fresh mutex must not be poisoned"),
    };
    assert_eq!(*g.borrow(), 5);
    g.set(7);
    assert_eq!(*g.borrow(), 7);
    *g.borrow_mut() += 1;
    g.unlock();

    let g = m.lock().ok().unwrap();
    assert_eq!(*g.borrow(), 8);
    g.unlock();

    match m.into_inner() {
        Ok(v) => assert_eq!(v, 8),
        Err(_) => panic!("unpoisoned mutex must yield its data plainly"),
    }
}

#[test]
fn mutex_replace_exchanges_the_payload() {
    let mut m = Mutex::new(5u64);
    match m.replace(6) {
        Ok(old) => assert_eq!(old, 5),
        Err(_) => panic!("an unpoisoned mutex must exchange plainly"),
    }
    let g = m.lock().ok().unwrap();
    assert_eq!(*g.borrow(), 6);
    g.unlock();

    // On a poisoned mutex the old data comes back inside the error.
    m.lock().ok().unwrap().unlock_poisoned();
    match m.replace(7) {
        Ok(_) => panic!("a poisoned mutex must surface the flag"),
        Err(e) => assert_eq!(e.into_inner(), 6),
    }
    match m.into_inner() {
        Ok(_) => panic!("the flag must stay set"),
        Err(e) => assert_eq!(e.into_inner(), 7),
    }
}

#[test]
fn mutex_poisoning_is_reported_and_sticky() {
    let m = Mutex::new(1u32);
    assert!(!m.is_poisoned());

    let g = m.lock().ok().unwrap();
    g.unlock_poisoned();
    assert!(m.is_poisoned());

    // The guard still comes back, wrapped in the error, and the data is
    // reachable through it.
    let e = match m.lock() {
        Ok(_) => panic!("a poisoned mutex must report the poisoning"),
        Err(e) => e,
    };
    let mut g = e.into_inner();
    assert_eq!(*g.borrow(), 1);
    g.set(2);
    g.unlock();

    // Poisoning never clears, and poisoning twice changes nothing more.
    let e = match m.lock() {
        Ok(_) => panic!("poisoning must be sticky"),
        Err(e) => e,
    };
    let g = e.into_inner();
    g.unlock_poisoned();
    assert!(m.is_poisoned());
    let e = match m.lock() {
        Ok(_) => panic!("poisoning twice must leave the flag set"),
        Err(e) => e,
    };
    e.into_inner().unlock();

    match m.into_inner() {
        Ok(_) => panic!("a poisoned mutex must surface the flag"),
        Err(e) => assert_eq!(e.into_inner(), 2),
    }
}

#[test]
fn mutex_try_lock_would_block_while_held() {
    let m = Mutex::new(9i32);
    let g = m.lock().ok().unwrap();
    match m.try_lock() {
        Err(TryLockError::WouldBlock) => {}
        _ => panic!("a held mutex must refuse a non-blocking attempt"),
    }
    g.unlock();
    let g = match m.try_lock() {
        Ok(g) => g,
        _ => panic!("a free mutex must answer a non-blocking attempt"),
    };
    assert_eq!(*g.borrow(), 9);
    g.unlock();
}

#[test]
fn mutex_try_lock_reports_poisoning() {
    let m = Mutex::new(3u8);
    m.lock().ok().unwrap().unlock_poisoned();
    match m.try_lock() {
        Err(TryLockError::Poisoned(e)) => {
            let g = e.into_inner();
            assert_eq!(*g.borrow(), 3);
            g.unlock();
        }
        _ => panic!("a free poisoned mutex must hand the guard over in the error"),
    };
}

#[test]
fn poison_error_exposes_its_guard() {
    let mut e = PoisonError::new(41u64);
    assert_eq!(*e.get_ref(), 41);
    *e.get_mut() += 1;
    assert_eq!(e.into_inner(), 42);
}

#[test]
fn poison_error_converts_into_try_lock_error() {
    let e = PoisonError::new(7u8);
    match TryLockError::from(e) {
        TryLockError::Poisoned(inner) => assert_eq!(inner.into_inner(), 7),
        TryLockError::WouldBlock => panic!("a poisoning error must convert to the poisoned arm"),
    }
}

#[test]
fn rwlock_shared_and_exclusive_access() {
    let l = RwLock::new(10u64);

    let r1 = l.read().ok().unwrap();
    let r2 = l.read().ok().unwrap();
    assert_eq!(*r1.borrow(), 10);
    assert_eq!(*r2.borrow(), 10);

    // A writer cannot join the readers.
    match l.try_write() {
        Err(TryLockError::WouldBlock) => {}
        _ => panic!("readers must exclude a writer"),
    }
    // Another reader can.
    let r3 = l.try_read().ok().unwrap();
    assert_eq!(*r3.borrow(), 10);
    r3.unlock();
    r1.unlock();
    r2.unlock();

    let mut w = l.write().ok().unwrap();
    w.set(11);
    *w.borrow_mut() += 1;
    // A reader cannot join the writer.
    match l.try_read() {
        Err(TryLockError::WouldBlock) => {}
        _ => panic!("a writer must exclude readers"),
    }
    w.unlock();

    let r = l.read().ok().unwrap();
    assert_eq!(*r.borrow(), 12);
    r.unlock();
}

#[test]
fn rwlock_write_poisoning_reaches_readers() {
    let l = RwLock::new(1u32);
    let w = l.write().ok().unwrap();
    w.unlock_poisoned();
    assert!(l.is_poisoned());

    let e = match l.read() {
        Ok(_) => panic!("a poisoned lock must report the poisoning to readers"),
        Err(e) => e,
    };
    let r = e.into_inner();
    assert_eq!(*r.borrow(), 1);
    r.unlock();
}

#[test]
fn spin_lock_guards_its_value() {
    let s = SpinLock::new(100u64);
    let mut g = s.lock();
    assert_eq!(*g.borrow(), 100);
    g.set(101);
    *g.borrow_mut() += 1;
    g.unlock();
    let g = s.lock();
    assert_eq!(*g.borrow(), 102);
    g.unlock();
}
