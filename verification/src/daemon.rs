//! The resident daemon's command processing: one cycle command at a time,
//! each carried through before the next is taken up.
//!
//! The daemon owns one state machine. A command arrives as a text, is
//! accepted together with what the backend says of the focused window, and
//! proposes a step; the outcome of the step's activation completes it.
//! Until then every further command is turned away.

use vstd::prelude::*;
use crate::cycle_state::{CycleState, CycleModel, CycleStep, StepModel, Direction, lemma_step};
use crate::error::BackendError;
use crate::text::same_text;
use crate::window::{EveWindow, models};

verus! {

/// The direction that a command text asks for: `forward` and `backward`
/// are the two commands, and every other text is none.
pub open spec fn command_of(payload: Seq<char>) -> Option<Direction> {
    if payload == "forward"@ {
        Some(Direction::Forward)
    } else if payload == "backward"@ {
        Some(Direction::Backward)
    } else {
        None
    }
}

/// The command text for a direction.
pub open spec fn command_text(direction: Direction) -> Seq<char> {
    match direction {
        Direction::Forward => "forward"@,
        Direction::Backward => "backward"@,
    }
}

/// The command text for a direction is read back as that direction.
pub proof fn lemma_command_round_trip(direction: Direction)
    ensures
        command_of(command_text(direction)) == Some(direction),
{
    reveal_strlit("forward");
    reveal_strlit("backward");
    assert("forward"@[0] != "backward"@[0]);
}

/// Reads a command text.
pub fn parse_command(payload: &str) -> (r: Option<Direction>)
    ensures
        r == command_of(payload@),
{
    if same_text(payload, "forward") {
        Some(Direction::Forward)
    } else if same_text(payload, "backward") {
        Some(Direction::Backward)
    } else {
        None
    }
}

/// Writes the command text for a direction.
pub fn encode_command(direction: Direction) -> (s: String)
    ensures
        s@ == command_text(direction),
{
    match direction {
        Direction::Forward => "forward".to_owned(),
        Direction::Backward => "backward".to_owned(),
    }
}

/// What the daemon does about a command.
#[derive(Clone, Copy, Debug, PartialEq, Eq, Structural)]
pub enum DaemonAction {
    /// The text is no command.
    Rejected,
    /// An earlier command has not been completed.
    Busy,
    /// The command is done: there is nothing to activate.
    Idle,
    /// The window of the step is to be activated, and the outcome reported.
    Activate(CycleStep),
}

/// An action, to specifications.
pub enum ActionModel {
    Rejected,
    Busy,
    Idle,
    Activate(StepModel),
}

impl View for DaemonAction {
    type V = ActionModel;

    open spec fn view(&self) -> ActionModel {
        match self {
            DaemonAction::Rejected => ActionModel::Rejected,
            DaemonAction::Busy => ActionModel::Busy,
            DaemonAction::Idle => ActionModel::Idle,
            DaemonAction::Activate(step) => ActionModel::Activate(step@),
        }
    }
}

/// The daemon, to specifications.
pub struct DaemonModel {
    pub state: CycleModel,
    /// The step whose activation is awaited.
    pub pending: Option<StepModel>,
}

impl DaemonModel {
    pub open spec fn initial() -> DaemonModel {
        DaemonModel { state: CycleModel::initial(), pending: None }
    }

    /// The state machine after reconciling with the focused window, where
    /// the backend could tell it.
    pub open spec fn reconciled(self, active: Option<u32>) -> CycleModel {
        match active {
            Some(id) => self.state.synced(id),
            None => self.state,
        }
    }

    /// The action on a command text.
    pub open spec fn action(self, payload: Seq<char>, active: Option<u32>) -> ActionModel {
        if self.pending is Some {
            ActionModel::Busy
        } else {
            match command_of(payload) {
                Some(direction) => match self.reconciled(active).step(direction) {
                    Some(step) => ActionModel::Activate(step),
                    None => ActionModel::Idle,
                },
                None => ActionModel::Rejected,
            }
        }
    }

    /// The daemon after a command text: a busy daemon and one that rejects
    /// the text stay as they are; otherwise the machine is reconciled and
    /// the proposed step, if there is one, awaits its activation.
    pub open spec fn accepted(self, payload: Seq<char>, active: Option<u32>) -> DaemonModel {
        if self.pending is Some {
            self
        } else {
            match command_of(payload) {
                Some(direction) => DaemonModel {
                    state: self.reconciled(active),
                    pending: self.reconciled(active).step(direction),
                },
                None => self,
            }
        }
    }

    /// The daemon after the outcome of the awaited activation.
    pub open spec fn completed(self, activated: bool) -> DaemonModel {
        match self.pending {
            Some(step) => DaemonModel {
                state: self.state.committed(step, activated),
                pending: None,
            },
            None => self,
        }
    }

    /// The daemon after a new enumeration of the windows, or after the
    /// failure of one.
    pub open spec fn refreshed(self, windows: Option<Seq<crate::window::WindowModel>>) -> DaemonModel {
        match windows {
            Some(list) => DaemonModel { state: self.state.updated(list), pending: self.pending },
            None => self,
        }
    }
}

/// A command that is accepted by an idle daemon and whose activation
/// succeeds amounts to one cycle operation on the reconciled machine, and
/// leaves the daemon idle again.
pub proof fn lemma_command_is_one_cycle(
    d: DaemonModel,
    direction: Direction,
    active: Option<u32>,
)
    requires
        d.state.wf(),
        d.pending is None,
    ensures
        d.accepted(command_text(direction), active).completed(true) == (DaemonModel {
            state: d.reconciled(active).cycled(direction),
            pending: None,
        }),
        d.accepted(command_text(direction), active).completed(false) == (DaemonModel {
            state: d.reconciled(active),
            pending: None,
        }),
{
    lemma_command_round_trip(direction);
    if let Some(id) = active {
        crate::cycle_state::lemma_position_of(d.state.windows, id);
    }
    lemma_step(d.reconciled(active), direction);
}

/// While a command awaits its activation, no other command is taken up:
/// the daemon answers `Busy` and does not change.
pub proof fn lemma_no_interleaving(d: DaemonModel, payload: Seq<char>, active: Option<u32>)
    requires
        d.pending is Some,
    ensures
        d.action(payload, active) == ActionModel::Busy,
        d.accepted(payload, active) == d,
{
}

/// The daemon.
pub struct Daemon {
    state: CycleState,
    pending: Option<CycleStep>,
}

impl View for Daemon {
    type V = DaemonModel;

    closed spec fn view(&self) -> DaemonModel {
        DaemonModel {
            state: self.state@,
            pending: match self.pending {
                Some(step) => Some(step@),
                None => None,
            },
        }
    }
}

impl Daemon {
    /// A daemon that knows no windows and awaits nothing.
    pub fn new() -> (d: Daemon)
        ensures
            d@ == DaemonModel::initial(),
    {
        Daemon { state: CycleState::new(), pending: None }
    }

    /// The state machine.
    pub fn state(&self) -> (s: &CycleState)
        ensures
            s@ == self@.state,
    {
        &self.state
    }

    /// Whether a command awaits its activation.
    pub fn is_busy(&self) -> (b: bool)
        ensures
            b == self@.pending is Some,
    {
        self.pending.is_some()
    }

    /// Takes over a new enumeration of the windows. A failed enumeration
    /// changes nothing and is handed back.
    pub fn refresh(&mut self, windows: Result<Vec<EveWindow>, BackendError>) -> (r: Result<
        (),
        BackendError,
    >)
        ensures
            match windows {
                Ok(list) => r is Ok && final(self)@ == old(self)@.refreshed(Some(models(list@))),
                Err(e) => r == Err::<(), BackendError>(e) && final(self)@ == old(self)@,
            },
    {
        match windows {
            Ok(list) => {
                self.state.update_windows(list);
                Ok(())
            },
            Err(e) => Err(e),
        }
    }

    /// Takes up a command text, with the focused window that the backend
    /// reported, if it could report one.
    pub fn accept(&mut self, payload: &str, active: Option<u32>) -> (action: DaemonAction)
        ensures
            action@ == old(self)@.action(payload@, active),
            final(self)@ == old(self)@.accepted(payload@, active),
    {
        if self.pending.is_some() {
            return DaemonAction::Busy;
        }
        let direction = match parse_command(payload) {
            Some(direction) => direction,
            None => {
                return DaemonAction::Rejected;
            },
        };
        match active {
            Some(id) => {
                self.state.sync_with_active(id);
            },
            None => {},
        }
        match self.state.propose(direction) {
            Some(step) => {
                self.pending = Some(step);
                DaemonAction::Activate(step)
            },
            None => DaemonAction::Idle,
        }
    }

    /// Takes note of how the awaited activation ended, and hands the
    /// outcome back. The cursor moves only if the activation succeeded.
    pub fn complete(&mut self, activation: Result<(), BackendError>) -> (r: Result<
        (),
        BackendError,
    >)
        ensures
            r == activation,
            final(self)@ == old(self)@.completed(activation is Ok),
    {
        match self.pending {
            Some(step) => {
                self.pending = None;
                self.state.commit(step, activation)
            },
            None => activation,
        }
    }
}

} // verus!
