use rgrep::semaphore::Semaphore;

#[test]
fn new_semaphore_has_all_permits_free() {
    let s = Semaphore::new(2);
    assert_eq!(s.available(), 2);
    assert_eq!(s.capacity(), 2);
}

#[test]
fn try_wait_takes_permits_until_none_are_free() {
    let mut s = Semaphore::new(2);
    assert!(s.try_wait());
    assert_eq!(s.available(), 1);
    assert!(s.try_wait());
    assert_eq!(s.available(), 0);
    assert!(!s.try_wait());
    assert_eq!(s.available(), 0);
}

#[test]
fn signal_frees_a_permit_and_reenables_admission() {
    let mut s = Semaphore::new(1);
    assert!(s.try_wait());
    assert!(!s.try_wait());
    s.signal();
    assert_eq!(s.available(), 1);
    assert!(s.try_wait());
}

#[test]
fn limit_one_admits_at_most_one_task_over_many_entries() {
    // One permit, one hundred entries: between an admission and its
    // release a second admission always fails, so at most one task is
    // ever live, and the count never leaves the 0..=1 range.
    let mut s = Semaphore::new(1);
    for _ in 0..100 {
        assert!(s.try_wait());
        let live = s.capacity() - s.available();
        assert_eq!(live, 1);
        assert!(!s.try_wait());
        s.signal();
        assert_eq!(s.available(), 1);
    }
    assert_eq!(s.available(), s.capacity());
}

#[test]
fn balanced_run_restores_the_permit_count() {
    // As many releases as admissions, in any interleaving the guards
    // allow: the count returns to where it started.
    let mut s = Semaphore::new(3);
    assert!(s.try_wait());
    assert!(s.try_wait());
    s.signal();
    assert!(s.try_wait());
    assert!(s.try_wait());
    s.signal();
    s.signal();
    s.signal();
    assert_eq!(s.available(), 3);
}
