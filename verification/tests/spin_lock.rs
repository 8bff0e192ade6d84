use sync_primitives::spin_lock::SpinLock;

#[test]
fn simple_test() {
    let mut sl = SpinLock::new(Vec::<i32>::new());
    {
        let mut g = sl.lock();
        g.deref_mut().push(1);
        g.deref_mut().push(2);
        g.deref_mut().push(3);
        g.unlock();
    }
    {
        let mut g = sl.lock();
        g.deref_mut().push(4);
        g.deref_mut().push(5);
        g.unlock();
    }

    let g = sl.lock();
    let vec = g.deref();
    let sum: i32 = vec.iter().sum();
    assert_eq!(15, sum);
}

#[test]
fn new_lock_is_free_and_holds_its_payload() {
    let mut sl = SpinLock::new(41u64);
    let g = sl.try_lock();
    assert!(g.is_some());
    let g = g.unwrap();
    assert_eq!(41, *g.deref());
    g.unlock();
}

#[test]
fn attempt_on_a_held_lock_fails_and_changes_nothing() {
    let mut sl = SpinLock::new(7i32);
    {
        // The guard goes away without giving the lock back: the lock stays held.
        let mut held = sl.lock();
        *held.deref_mut() = 8;
    }
    assert!(sl.try_lock().is_none());
    assert!(sl.try_lock().is_none());
}

#[test]
fn unlock_frees_the_lock_for_the_next_attempt() {
    let mut sl = SpinLock::new(String::from("a"));
    let mut first = sl.try_lock().unwrap();
    first.deref_mut().push('b');
    first.unlock();
    let second = sl.try_lock();
    assert!(second.is_some());
    let second = second.unwrap();
    assert_eq!("ab", second.deref().as_str());
    second.unlock();
    assert!(sl.try_lock().is_some());
}

#[test]
fn writes_under_the_lock_are_seen_by_the_next_holder() {
    let mut sl = SpinLock::new(0u64);
    let mut expected = 0u64;
    for round in 0..1000u64 {
        let mut g = sl.lock();
        let seen = *g.deref();
        assert_eq!(expected, seen);
        *g.deref_mut() = seen + round;
        g.unlock();
        expected += round;
    }
    let g = sl.lock();
    assert_eq!(499_500, *g.deref());
}

#[test]
fn counter_grows_by_the_sum_of_the_increments() {
    let increments: [u64; 5] = [3, 2, 10, 0, 27];
    let mut sl = SpinLock::new(100u64);
    for amount in increments {
        let mut g = sl.lock();
        let seen = *g.deref();
        *g.deref_mut() = seen + amount;
        g.unlock();
    }
    let g = sl.lock();
    assert_eq!(142, *g.deref());
}
