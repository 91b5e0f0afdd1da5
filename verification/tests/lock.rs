use updater_core::lock::InstallLock;

#[test]
fn a_fresh_lock_admits_the_first_caller() {
    let mut lock = InstallLock::new();
    assert!(!lock.is_held());
    assert!(lock.try_acquire());
    assert!(lock.is_held());
}

#[test]
fn a_second_caller_is_refused_while_the_first_is_active() {
    let mut lock = InstallLock::new();
    assert!(lock.try_acquire());
    assert!(!lock.try_acquire());
    assert!(!lock.try_acquire());
    assert!(lock.is_held());
}

#[test]
fn the_lock_admits_again_after_the_installation_is_over() {
    let mut lock = InstallLock::new();
    assert!(lock.try_acquire());
    lock.release();
    assert!(!lock.is_held());
    assert!(lock.try_acquire());
    assert!(!lock.try_acquire());
}
