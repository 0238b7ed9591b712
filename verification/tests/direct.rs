use eve_multibox::cycle_state::{CycleStep, Direction};
use eve_multibox::direct::{direct_cycle, AdvisoryLock, LockAttempt};
use eve_multibox::window::EveWindow;

fn abc() -> Vec<EveWindow> {
    vec![
        EveWindow { id: 1, title: "A".to_string() },
        EveWindow { id: 2, title: "B".to_string() },
        EveWindow { id: 3, title: "C".to_string() },
    ]
}

#[test]
fn lock_attempts() {
    assert_eq!(LockAttempt::new(true, 0), LockAttempt::Acquired);
    assert_eq!(LockAttempt::new(true, -1), LockAttempt::Held);
    assert_eq!(LockAttempt::new(true, 11), LockAttempt::Held);
    assert_eq!(LockAttempt::new(false, 0), LockAttempt::CannotOpen);
    assert_eq!(LockAttempt::new(false, -1), LockAttempt::CannotOpen);
    assert!(LockAttempt::Acquired.proceeds());
    assert!(!LockAttempt::Held.proceeds());
    assert!(!LockAttempt::CannotOpen.proceeds());
}

#[test]
fn direct_cycle_with_the_lock() {
    let (state, step) = direct_cycle(LockAttempt::Acquired, Direction::Forward, abc(), Some(3));
    assert_eq!(step, Some(CycleStep { cursor: 0, window_id: 1 }));
    assert_eq!(state.cursor(), Some(2));
    let (mut state, step) = direct_cycle(LockAttempt::Acquired, Direction::Backward, abc(), Some(3));
    assert_eq!(step, Some(CycleStep { cursor: 1, window_id: 2 }));
    assert_eq!(state.commit(step.unwrap(), Ok(())), Ok(()));
    assert_eq!(state.cursor(), Some(1));
}

#[test]
fn direct_cycle_without_windows_or_focus() {
    let (_, step) = direct_cycle(LockAttempt::Acquired, Direction::Forward, Vec::new(), Some(1));
    assert_eq!(step, None);
    let (state, step) = direct_cycle(LockAttempt::Acquired, Direction::Forward, abc(), None);
    assert_eq!(step, None);
    assert_eq!(state.cursor(), None);
    let (_, step) = direct_cycle(LockAttempt::Acquired, Direction::Forward, abc(), Some(77));
    assert_eq!(step, None);
}

#[test]
fn direct_cycle_without_the_lock_does_nothing() {
    for attempt in [LockAttempt::Held, LockAttempt::CannotOpen] {
        let (_, step) = direct_cycle(attempt, Direction::Forward, abc(), Some(1));
        assert_eq!(step, None);
    }
}

#[test]
fn of_two_racing_invocations_one_proceeds() {
    let mut lock = AdvisoryLock::new();
    let first = lock.try_lock(100);
    let second = lock.try_lock(200);
    assert_eq!(first, LockAttempt::Acquired);
    assert_eq!(second, LockAttempt::Held);
    let (_, step_first) = direct_cycle(first, Direction::Forward, abc(), Some(1));
    let (_, step_second) = direct_cycle(second, Direction::Forward, abc(), Some(1));
    assert_eq!(step_first, Some(CycleStep { cursor: 1, window_id: 2 }));
    assert_eq!(step_second, None);
    lock.end(200);
    assert_eq!(lock.try_lock(300), LockAttempt::Held);
    lock.end(100);
    assert_eq!(lock.try_lock(300), LockAttempt::Acquired);
}
