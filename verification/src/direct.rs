//! Direct mode: one cycle step without a daemon, guarded by an advisory
//! lock that is asked for without waiting.
//!
//! An invocation that does not get the lock ends at once, successfully and
//! without doing anything, so that invocations in quick succession come
//! down to at most one that is under way.

use vstd::prelude::*;
use crate::cycle_state::{CycleState, CycleModel, CycleStep, StepModel, Direction};
use crate::window::{EveWindow, WindowModel, models};

verus! {

/// How the attempt to take the lock went.
#[derive(Clone, Copy, Debug, PartialEq, Eq, Structural)]
pub enum LockAttempt {
    /// The lock is held by this invocation.
    Acquired,
    /// The lock file could not be created or opened.
    CannotOpen,
    /// Another invocation holds the lock.
    Held,
}

/// The attempt, from whether the lock file could be opened and from the
/// status that the locking call returned: zero means that the lock was
/// granted.
pub open spec fn attempt_of(opened: bool, status: i32) -> LockAttempt {
    if !opened {
        LockAttempt::CannotOpen
    } else if status != 0 {
        LockAttempt::Held
    } else {
        LockAttempt::Acquired
    }
}

/// The cycle machine of one invocation: new, given the windows, and
/// reconciled with the focused window where the backend could tell it.
pub open spec fn direct_state(windows: Seq<WindowModel>, active: Option<u32>) -> CycleModel {
    let fresh = CycleModel::initial().updated(windows);
    match active {
        Some(id) => fresh.synced(id),
        None => fresh,
    }
}

/// The step of one invocation: none unless it holds the lock; else what
/// its machine proposes.
pub open spec fn direct_step(
    attempt: LockAttempt,
    direction: Direction,
    windows: Seq<WindowModel>,
    active: Option<u32>,
) -> Option<StepModel> {
    if attempt == LockAttempt::Acquired {
        direct_state(windows, active).step(direction)
    } else {
        None
    }
}

/// An invocation that does not hold the lock proposes nothing, whatever the
/// windows; and one that finds no windows proposes nothing either.
pub proof fn lemma_direct_skips(
    attempt: LockAttempt,
    direction: Direction,
    windows: Seq<WindowModel>,
    active: Option<u32>,
)
    ensures
        attempt != LockAttempt::Acquired ==> direct_step(attempt, direction, windows, active)
            is None,
        windows.len() == 0 ==> direct_step(attempt, direction, windows, active) is None,
        direct_state(windows, active).wf(),
{
    if let Some(id) = active {
        crate::cycle_state::lemma_position_of(windows, id);
    }
}

impl LockAttempt {
    /// Reads the attempt.
    pub fn new(opened: bool, status: i32) -> (a: LockAttempt)
        ensures
            a == attempt_of(opened, status),
    {
        if !opened {
            LockAttempt::CannotOpen
        } else if status != 0 {
            LockAttempt::Held
        } else {
            LockAttempt::Acquired
        }
    }

    /// Whether the invocation goes on.
    pub fn proceeds(&self) -> (b: bool)
        ensures
            b == (*self == LockAttempt::Acquired),
    {
        match self {
            LockAttempt::Acquired => true,
            _ => false,
        }
    }
}

/// The machine and the step of one invocation.
pub fn direct_cycle(
    attempt: LockAttempt,
    direction: Direction,
    windows: Vec<EveWindow>,
    active: Option<u32>,
) -> (r: (CycleState, Option<CycleStep>))
    ensures
        r.0@ == direct_state(models(windows@), active),
        r.0@.wf(),
        match r.1 {
            Some(step) => direct_step(attempt, direction, models(windows@), active) == Some(step@)
                && r.0@.admits(step@),
            None => direct_step(attempt, direction, models(windows@), active) is None,
        },
{
    let mut state = CycleState::new();
    state.update_windows(windows);
    match active {
        Some(id) => {
            state.sync_with_active(id);
        },
        None => {},
    }
    let step = if attempt.proceeds() {
        state.propose(direction)
    } else {
        None
    };
    (state, step)
}

/// An advisory lock, as the invocations that compete for it see it: free,
/// or held by one of them.
pub struct AdvisoryLock {
    holder: Option<u32>,
}

impl View for AdvisoryLock {
    type V = Option<u32>;

    closed spec fn view(&self) -> Option<u32> {
        self.holder
    }
}

/// The lock after an invocation asked for it without waiting.
pub open spec fn after_try(lock: Option<u32>, invocation: u32) -> Option<u32> {
    match lock {
        Some(holder) => Some(holder),
        None => Some(invocation),
    }
}

/// What the invocation that asked is told.
pub open spec fn try_result(lock: Option<u32>) -> LockAttempt {
    match lock {
        Some(_) => LockAttempt::Held,
        None => LockAttempt::Acquired,
    }
}

/// The lock after an invocation ended.
pub open spec fn after_end(lock: Option<u32>, invocation: u32) -> Option<u32> {
    if lock == Some(invocation) {
        None
    } else {
        lock
    }
}

/// Of two invocations that ask for a free lock one after the other, before
/// either has ended, the first gets it and the second does not; so
/// exactly one of them goes on.
pub proof fn lemma_one_proceeds(first: u32, second: u32)
    ensures
        try_result(None) == LockAttempt::Acquired,
        try_result(after_try(None, first)) == LockAttempt::Held,
        after_try(after_try(None, first), second) == Some(first),
{
}

/// Once the holder has ended, the lock can be had again.
pub proof fn lemma_lock_is_released(lock: Option<u32>, invocation: u32)
    requires
        try_result(lock) == LockAttempt::Acquired,
    ensures
        try_result(after_end(after_try(lock, invocation), invocation)) == LockAttempt::Acquired,
{
}

impl AdvisoryLock {
    /// A free lock.
    pub fn new() -> (lock: AdvisoryLock)
        ensures
            lock@ is None,
    {
        AdvisoryLock { holder: None }
    }

    /// Asks for the lock without waiting.
    pub fn try_lock(&mut self, invocation: u32) -> (a: LockAttempt)
        ensures
            a == try_result(old(self)@),
            final(self)@ == after_try(old(self)@, invocation),
    {
        match self.holder {
            Some(_) => LockAttempt::Held,
            None => {
                self.holder = Some(invocation);
                LockAttempt::Acquired
            },
        }
    }

    /// Gives the lock up as the invocation ends, if it holds it.
    pub fn end(&mut self, invocation: u32)
        ensures
            final(self)@ == after_end(old(self)@, invocation),
    {
        match self.holder {
            Some(holder) => {
                if holder == invocation {
                    self.holder = None;
                }
            },
            None => {},
        }
    }
}

} // verus!
