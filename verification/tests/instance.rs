use upnp_daemon::instance::{GuardAction, GuardEvent, GuardPhase, InstanceError, InstanceGuard};

#[test]
fn a_free_marker_is_locked_and_written() {
    let mut guard = InstanceGuard::acquire(12345);
    assert_eq!(guard.phase(), GuardPhase::Locking);
    assert_eq!(guard.action(), GuardAction::TryLock);
    assert_eq!(guard.on_event(GuardEvent::LockAcquired), GuardAction::WriteIdentifier);
    assert_eq!(guard.identifier(), b"12345".to_vec());
    assert_eq!(guard.on_event(GuardEvent::Written), GuardAction::Proceed);
    assert_eq!(guard.phase(), GuardPhase::Held);
}

#[test]
fn a_held_marker_refuses_at_once() {
    let mut guard = InstanceGuard::acquire(777);
    assert_eq!(
        guard.on_event(GuardEvent::LockHeldElsewhere),
        GuardAction::Refuse(InstanceError::AlreadyRunning)
    );
    assert_eq!(guard.phase(), GuardPhase::Refused(InstanceError::AlreadyRunning));
    assert_eq!(
        guard.on_event(GuardEvent::LockAcquired),
        GuardAction::Refuse(InstanceError::AlreadyRunning)
    );
    assert_eq!(guard.release(), GuardAction::Refuse(InstanceError::AlreadyRunning));
}

#[test]
fn the_identifier_is_the_decimal_text() {
    assert_eq!(InstanceGuard::acquire(0).identifier(), b"0".to_vec());
    assert_eq!(InstanceGuard::acquire(7).identifier(), b"7".to_vec());
    assert_eq!(InstanceGuard::acquire(10).identifier(), b"10".to_vec());
    assert_eq!(InstanceGuard::acquire(1009).identifier(), b"1009".to_vec());
    assert_eq!(InstanceGuard::acquire(4194304).identifier(), b"4194304".to_vec());
    assert_eq!(InstanceGuard::acquire(u32::MAX).identifier(), b"4294967295".to_vec());
}

#[test]
fn a_marker_that_cannot_be_opened_is_unusable() {
    let mut guard = InstanceGuard::acquire(1);
    assert_eq!(
        guard.on_event(GuardEvent::IoFailed),
        GuardAction::Refuse(InstanceError::MarkerUnusable)
    );
}

#[test]
fn a_marker_that_cannot_be_written_is_unlocked_again() {
    let mut guard = InstanceGuard::acquire(1);
    guard.on_event(GuardEvent::LockAcquired);
    assert_eq!(guard.on_event(GuardEvent::IoFailed), GuardAction::Unlock);
    assert_eq!(guard.phase(), GuardPhase::Abandoning);
    assert_eq!(
        guard.on_event(GuardEvent::Unlocked),
        GuardAction::Refuse(InstanceError::MarkerUnusable)
    );
}

#[test]
fn release_unlocks_a_held_marker() {
    let mut guard = InstanceGuard::acquire(4711);
    guard.on_event(GuardEvent::LockAcquired);
    guard.on_event(GuardEvent::Written);
    assert_eq!(guard.release(), GuardAction::Unlock);
    assert_eq!(guard.phase(), GuardPhase::Releasing);
    assert_eq!(guard.on_event(GuardEvent::Unlocked), GuardAction::Finished);
    assert_eq!(guard.phase(), GuardPhase::Released);
    assert_eq!(guard.release(), GuardAction::Finished);
}

#[test]
fn release_before_the_lock_changes_nothing() {
    let mut guard = InstanceGuard::acquire(4711);
    assert_eq!(guard.release(), GuardAction::TryLock);
    assert_eq!(guard.phase(), GuardPhase::Locking);
}

#[test]
fn events_that_answer_nothing_are_passed_over() {
    let mut guard = InstanceGuard::acquire(4711);
    assert_eq!(guard.on_event(GuardEvent::Written), GuardAction::TryLock);
    assert_eq!(guard.on_event(GuardEvent::Unlocked), GuardAction::TryLock);
    guard.on_event(GuardEvent::LockAcquired);
    assert_eq!(guard.on_event(GuardEvent::LockHeldElsewhere), GuardAction::WriteIdentifier);
    guard.on_event(GuardEvent::Written);
    assert_eq!(guard.on_event(GuardEvent::IoFailed), GuardAction::Proceed);
    assert_eq!(guard.on_event(GuardEvent::LockAcquired), GuardAction::Proceed);
}
