//! The focus-cycling state machine: the current window list and the cursor
//! into it.
//!
//! The machine is either empty (no cursor) or positioned on one window of
//! its list. It proposes where a cycle operation would go and moves there
//! only once the window has been activated.

use vstd::prelude::*;
use crate::window::{EveWindow, WindowModel, models};
use crate::error::BackendError;

verus! {

/// The two directions of cycling.
#[derive(Clone, Copy, Debug, PartialEq, Eq, Structural)]
pub enum Direction {
    Forward,
    Backward,
}

/// What a cycle operation proposes: the window to activate and the cursor
/// that points at it.
#[derive(Clone, Copy, Debug, PartialEq, Eq, Structural)]
pub struct CycleStep {
    pub cursor: usize,
    pub window_id: u32,
}

/// A proposed step, to specifications.
pub struct StepModel {
    pub cursor: int,
    pub window_id: u32,
}

impl View for CycleStep {
    type V = StepModel;

    open spec fn view(&self) -> StepModel {
        StepModel { cursor: self.cursor as int, window_id: self.window_id }
    }
}

/// The state machine, to specifications.
pub struct CycleModel {
    pub windows: Seq<WindowModel>,
    pub cursor: Option<int>,
}

/// Whether some window of the list has the id.
pub open spec fn holds_id(windows: Seq<WindowModel>, id: u32) -> bool {
    exists|j: int| 0 <= j < windows.len() && #[trigger] windows[j].id == id
}

/// Whether `j` is the first index of the list at which the id stands.
pub open spec fn is_first_index(windows: Seq<WindowModel>, id: u32, j: int) -> bool {
    &&& 0 <= j < windows.len()
    &&& windows[j].id == id
    &&& forall|k: int| 0 <= k < j ==> #[trigger] windows[k].id != id
}

/// The first index of the list at which the id stands.
pub open spec fn position_of(windows: Seq<WindowModel>, id: u32) -> Option<int>
    decreases windows.len(),
{
    if windows.len() == 0 {
        None
    } else {
        match position_of(windows.drop_last(), id) {
            Some(j) => Some(j),
            None => if windows.last().id == id {
                Some(windows.len() - 1)
            } else {
                None
            },
        }
    }
}

/// The cursor after one step in the direction, on a list of `len` windows.
pub open spec fn next_cursor(cursor: int, len: int, direction: Direction) -> int {
    match direction {
        Direction::Forward => (cursor + 1) % len,
        Direction::Backward => (cursor - 1 + len) % len,
    }
}

impl CycleModel {
    /// The cursor, where there is one, points into the list.
    pub open spec fn wf(self) -> bool {
        self.cursor matches Some(i) ==> 0 <= i < self.windows.len()
    }

    /// The initial state: no windows, no cursor.
    pub open spec fn initial() -> CycleModel {
        CycleModel { windows: Seq::empty(), cursor: None }
    }

    /// The state after the list has been replaced: the cursor follows the
    /// window it pointed at, by id, and is unset where that window is gone.
    pub open spec fn updated(self, windows: Seq<WindowModel>) -> CycleModel {
        CycleModel {
            windows,
            cursor: match self.cursor {
                Some(i) => position_of(windows, self.windows[i].id),
                None => None,
            },
        }
    }

    /// The state after reconciling with the focused window: the cursor goes
    /// to that window if the list has it, and stays otherwise.
    pub open spec fn synced(self, active_id: u32) -> CycleModel {
        CycleModel {
            windows: self.windows,
            cursor: match position_of(self.windows, active_id) {
                Some(j) => Some(j),
                None => self.cursor,
            },
        }
    }

    /// What a cycle operation in the direction proposes: nothing without a
    /// cursor, else the neighbouring window, wrapping round at the ends.
    pub open spec fn step(self, direction: Direction) -> Option<StepModel> {
        match self.cursor {
            Some(i) => {
                let next = next_cursor(i, self.windows.len() as int, direction);
                Some(StepModel { cursor: next, window_id: self.windows[next].id })
            },
            None => None,
        }
    }

    /// Whether the step points at a window of the list that has its id.
    pub open spec fn admits(self, step: StepModel) -> bool {
        0 <= step.cursor < self.windows.len() && self.windows[step.cursor].id == step.window_id
    }

    /// The state after the outcome of the step's activation is known: the
    /// cursor moves only if the activation succeeded.
    pub open spec fn committed(self, step: StepModel, activated: bool) -> CycleModel {
        if activated && self.admits(step) {
            CycleModel { windows: self.windows, cursor: Some(step.cursor) }
        } else {
            self
        }
    }

    /// The state after one cycle operation whose activation succeeded.
    pub open spec fn cycled(self, direction: Direction) -> CycleModel {
        match self.step(direction) {
            Some(step) => self.committed(step, true),
            None => self,
        }
    }

    /// The state after `times` such operations.
    pub open spec fn cycled_times(self, direction: Direction, times: nat) -> CycleModel
        decreases times,
    {
        if times == 0 {
            self
        } else {
            self.cycled(direction).cycled_times(direction, (times - 1) as nat)
        }
    }
}

/// `position_of` gives the first index at which the id stands, and nothing
/// exactly if the id stands nowhere in the list.
pub proof fn lemma_position_of(windows: Seq<WindowModel>, id: u32)
    ensures
        match position_of(windows, id) {
            Some(j) => is_first_index(windows, id, j),
            None => !holds_id(windows, id),
        },
    decreases windows.len(),
{
    if windows.len() > 0 {
        let front = windows.drop_last();
        lemma_position_of(front, id);
        match position_of(front, id) {
            Some(j) => {
                assert(windows[j] == front[j]);
                assert forall|k: int| 0 <= k < j implies #[trigger] windows[k].id != id by {
                    assert(windows[k] == front[k]);
                }
            },
            None => {
                assert forall|k: int| 0 <= k < windows.len() - 1 implies #[trigger] windows[k].id
                    != id by {
                    assert(windows[k] == front[k]);
                    assert(front[k].id == id ==> holds_id(front, id));
                }
            },
        }
    }
}

/// The first index at which an id stands is what `position_of` gives.
pub proof fn lemma_first_index(windows: Seq<WindowModel>, id: u32, j: int)
    requires
        is_first_index(windows, id, j),
    ensures
        position_of(windows, id) == Some(j),
{
    lemma_position_of(windows, id);
    match position_of(windows, id) {
        Some(k) => {
            if k < j {
                assert(windows[k].id != id);
            } else if j < k {
                assert(windows[j].id != id);
            }
        },
        None => {
            assert(windows[j].id == id);
        },
    }
}

/// Every operation keeps the cursor inside the list.
pub proof fn lemma_operations_keep_wf(
    m: CycleModel,
    windows: Seq<WindowModel>,
    id: u32,
    direction: Direction,
    step: StepModel,
    activated: bool,
)
    requires
        m.wf(),
    ensures
        CycleModel::initial().wf(),
        m.updated(windows).wf(),
        m.synced(id).wf(),
        m.committed(step, activated).wf(),
        m.cycled(direction).wf(),
        m.step(direction) matches Some(s) ==> m.admits(s),
{
    lemma_position_of(windows, m.windows[m.cursor.unwrap_or(0)].id);
    lemma_position_of(m.windows, id);
    lemma_step(m, direction);
}

/// A proposed step stays inside the list and names the window it points at.
pub proof fn lemma_step(m: CycleModel, direction: Direction)
    requires
        m.wf(),
    ensures
        match m.step(direction) {
            Some(s) => m.cursor matches Some(i) && s.cursor == next_cursor(
                i,
                m.windows.len() as int,
                direction,
            ) && m.admits(s),
            None => m.cursor is None,
        },
{
    if let Some(i) = m.cursor {
        let len = m.windows.len() as int;
        let next = next_cursor(i, len, direction);
        assert(0 <= next < len) by (nonlinear_arith)
            requires
                0 <= i < len,
                next == (i + 1) % len || next == (i - 1 + len) % len,
        ;
    }
}

/// Reconciling with an id that stands at exactly one index puts the cursor
/// there.
pub proof fn lemma_sync_finds_unique(m: CycleModel, active_id: u32, j: int)
    requires
        0 <= j < m.windows.len(),
        m.windows[j].id == active_id,
        forall|k: int| 0 <= k < m.windows.len() && k != j ==> #[trigger] m.windows[k].id != active_id,
    ensures
        m.synced(active_id).cursor == Some(j),
        m.synced(active_id).windows == m.windows,
{
    lemma_first_index(m.windows, active_id, j);
}

/// Reconciling with an id that no window of the list has changes nothing.
pub proof fn lemma_sync_unknown_id(m: CycleModel, active_id: u32)
    requires
        forall|k: int| 0 <= k < m.windows.len() ==> #[trigger] m.windows[k].id != active_id,
    ensures
        m.synced(active_id) == m,
{
    lemma_position_of(m.windows, active_id);
    if let Some(j) = position_of(m.windows, active_id) {
        assert(m.windows[j].id != active_id);
    }
}

/// Replacing the list keeps the cursor on the window it pointed at: if that
/// window's id stands at exactly one index `k` of the new list, the cursor
/// becomes `k`.
pub proof fn lemma_update_follows_identity(m: CycleModel, windows: Seq<WindowModel>, i: int, k: int)
    requires
        m.wf(),
        m.cursor == Some(i),
        0 <= k < windows.len(),
        windows[k].id == m.windows[i].id,
        forall|j: int| 0 <= j < windows.len() && j != k ==> #[trigger] windows[j].id != m.windows[i].id,
    ensures
        m.updated(windows).cursor == Some(k),
        m.updated(windows).windows == windows,
{
    lemma_first_index(windows, m.windows[i].id, k);
}

/// Replacing the list unsets the cursor if the window it pointed at is gone,
/// and leaves it unset if it was unset.
pub proof fn lemma_update_loses_cursor(m: CycleModel, windows: Seq<WindowModel>)
    requires
        m.wf(),
        m.cursor matches Some(i) ==> !holds_id(windows, m.windows[i].id),
    ensures
        m.updated(windows).cursor is None,
{
    if let Some(i) = m.cursor {
        lemma_position_of(windows, m.windows[i].id);
    }
}

/// After `times` successful forward operations the cursor has advanced by
/// `times`, modulo the length of the list.
pub proof fn lemma_forward_times(m: CycleModel, times: nat)
    requires
        m.wf(),
        m.cursor is Some,
    ensures
        m.cycled_times(Direction::Forward, times).windows == m.windows,
        m.cycled_times(Direction::Forward, times).cursor == Some(
            (m.cursor->Some_0 + times) % (m.windows.len() as int),
        ),
    decreases times,
{
    let len = m.windows.len() as int;
    let i = m.cursor->Some_0;
    if times == 0 {
        assert(i % len == i) by (nonlinear_arith)
            requires
                0 <= i < len,
        ;
    } else {
        lemma_step(m, Direction::Forward);
        let n = m.cycled(Direction::Forward);
        let j = (i + 1) % len;
        assert(n.cursor == Some(j));
        lemma_forward_times(n, (times - 1) as nat);
        assert((j + (times - 1)) % len == (i + times) % len) by (nonlinear_arith)
            requires
                0 <= i < len,
                j == (i + 1) % len,
                times >= 1,
        ;
    }
}

/// Wraparound closure: on a positioned machine, as many successful forward
/// operations as the list has windows bring the cursor back to where it was.
/// A machine without a cursor does not move at all.
pub proof fn lemma_forward_closure(m: CycleModel)
    requires
        m.wf(),
        m.windows.len() > 0,
    ensures
        m.cycled_times(Direction::Forward, m.windows.len()) == m,
{
    let len = m.windows.len() as int;
    match m.cursor {
        Some(i) => {
            lemma_forward_times(m, m.windows.len());
            assert((i + len) % len == i) by (nonlinear_arith)
                requires
                    0 <= i < len,
            ;
        },
        None => {
            lemma_idle_times(m, Direction::Forward, m.windows.len());
        },
    }
}

/// A machine without a cursor stays as it is under cycle operations.
pub proof fn lemma_idle_times(m: CycleModel, direction: Direction, times: nat)
    requires
        m.cursor is None,
    ensures
        m.cycled_times(direction, times) == m,
    decreases times,
{
    if times > 0 {
        lemma_idle_times(m, direction, (times - 1) as nat);
    }
}

/// A successful step backward undoes a successful step forward, and the
/// other way round.
pub proof fn lemma_cycle_inverse(m: CycleModel)
    requires
        m.wf(),
    ensures
        m.cycled(Direction::Forward).cycled(Direction::Backward) == m,
        m.cycled(Direction::Backward).cycled(Direction::Forward) == m,
{
    if let Some(i) = m.cursor {
        let len = m.windows.len() as int;
        lemma_step(m, Direction::Forward);
        lemma_step(m, Direction::Backward);
        let f = m.cycled(Direction::Forward);
        let b = m.cycled(Direction::Backward);
        lemma_step(f, Direction::Backward);
        lemma_step(b, Direction::Forward);
        assert(((i + 1) % len - 1 + len) % len == i) by (nonlinear_arith)
            requires
                0 <= i < len,
        ;
        assert((((i - 1 + len) % len) + 1) % len == i) by (nonlinear_arith)
            requires
                0 <= i < len,
        ;
    }
}

/// The focus-cycling state machine.
pub struct CycleState {
    windows: Vec<EveWindow>,
    cursor: Option<usize>,
}

impl View for CycleState {
    type V = CycleModel;

    closed spec fn view(&self) -> CycleModel {
        CycleModel {
            windows: models(self.windows@),
            cursor: match self.cursor {
                Some(i) => Some(i as int),
                None => None,
            },
        }
    }
}

impl CycleState {
    #[verifier::type_invariant]
    spec fn cursor_in_list(self) -> bool {
        self.cursor matches Some(i) ==> i < self.windows.len()
    }

    /// The machine in its initial state.
    pub fn new() -> (s: CycleState)
        ensures
            s@ == CycleModel::initial(),
    {
        let s = CycleState { windows: Vec::new(), cursor: None };
        assert(models(s.windows@) == Seq::<WindowModel>::empty());
        s
    }

    /// The windows that the machine holds.
    pub fn windows(&self) -> (w: &Vec<EveWindow>)
        ensures
            models(w@) == self@.windows,
    {
        &self.windows
    }

    /// The cursor.
    pub fn cursor(&self) -> (c: Option<usize>)
        ensures
            self@.wf(),
            match c {
                Some(i) => self@.cursor == Some(i as int),
                None => self@.cursor is None,
            },
    {
        proof {
            use_type_invariant(self);
        }
        self.cursor
    }

    /// The window under the cursor.
    pub fn current(&self) -> (w: Option<&EveWindow>)
        ensures
            self@.wf(),
            match w {
                Some(w) => self@.cursor matches Some(i) && self@.windows[i] == w@,
                None => self@.cursor is None,
            },
    {
        proof {
            use_type_invariant(self);
        }
        match self.cursor {
            Some(i) => Some(&self.windows[i]),
            None => None,
        }
    }

    /// The first index of the list at which `id` stands.
    pub fn find(&self, id: u32) -> (r: Option<usize>)
        ensures
            match r {
                Some(j) => position_of(self@.windows, id) == Some(j as int),
                None => position_of(self@.windows, id) is None,
            },
    {
        find_id(&self.windows, id)
    }

    /// Replaces the window list. The cursor follows the window it pointed
    /// at to that window's place in the new list, and is unset if the
    /// window is not there any more.
    pub fn update_windows(&mut self, windows: Vec<EveWindow>)
        ensures
            final(self)@ == old(self)@.updated(models(windows@)),
            final(self)@.wf(),
    {
        proof {
            use_type_invariant(&*self);
        }
        let cursor = match self.cursor {
            Some(i) => find_id(&windows, self.windows[i].id),
            None => None,
        };
        proof {
            if let Some(i) = self.cursor {
                lemma_position_of(models(windows@), self.windows[i as int].id);
            }
        }
        *self = CycleState { windows, cursor };
    }

    /// Reconciles the machine with the window that has the focus: the
    /// cursor goes to that window if the list has it, and stays otherwise.
    pub fn sync_with_active(&mut self, active_id: u32)
        ensures
            final(self)@ == old(self)@.synced(active_id),
            final(self)@.wf(),
    {
        proof {
            use_type_invariant(&*self);
            lemma_position_of(self@.windows, active_id);
        }
        match find_id(&self.windows, active_id) {
            Some(j) => {
                self.cursor = Some(j);
            },
            None => {},
        }
    }

    /// What a cycle operation in the direction proposes.
    pub fn propose(&self, direction: Direction) -> (r: Option<CycleStep>)
        ensures
            match r {
                Some(s) => self@.step(direction) == Some(s@) && self@.admits(s@),
                None => self@.step(direction) is None,
            },
    {
        proof {
            use_type_invariant(self);
            lemma_step(self@, direction);
        }
        match self.cursor {
            Some(i) => {
                let len = self.windows.len();
                let next: usize = match direction {
                    Direction::Forward => if i + 1 == len {
                        0
                    } else {
                        i + 1
                    },
                    Direction::Backward => if i == 0 {
                        len - 1
                    } else {
                        i - 1
                    },
                };
                proof {
                    lemma_next_cursor(i as int, len as int, direction);
                }
                Some(CycleStep { cursor: next, window_id: self.windows[next].id })
            },
            None => None,
        }
    }

    /// The step forward: the window after the cursor, the first after the
    /// last; nothing on a machine without a cursor.
    pub fn cycle_forward(&self) -> (r: Option<CycleStep>)
        ensures
            match r {
                Some(s) => self@.step(Direction::Forward) == Some(s@) && self@.admits(s@),
                None => self@.step(Direction::Forward) is None,
            },
    {
        self.propose(Direction::Forward)
    }

    /// The step backward: the window before the cursor, the last before the
    /// first; nothing on a machine without a cursor.
    pub fn cycle_backward(&self) -> (r: Option<CycleStep>)
        ensures
            match r {
                Some(s) => self@.step(Direction::Backward) == Some(s@) && self@.admits(s@),
                None => self@.step(Direction::Backward) is None,
            },
    {
        self.propose(Direction::Backward)
    }

    /// Takes note of how the activation of a proposed step ended. The
    /// cursor moves to the step's window only if the activation succeeded;
    /// a failure leaves the machine as it was and is handed back.
    pub fn commit(&mut self, step: CycleStep, activation: Result<(), BackendError>) -> (r: Result<
        (),
        BackendError,
    >)
        ensures
            r == activation,
            final(self)@ == old(self)@.committed(step@, activation is Ok),
            final(self)@.wf(),
    {
        proof {
            use_type_invariant(&*self);
        }
        if activation.is_ok() && step.cursor < self.windows.len() && self.windows[step.cursor].id
            == step.window_id {
            self.cursor = Some(step.cursor);
        }
        activation
    }
}

/// The neighbouring index, computed without leaving the index range.
pub proof fn lemma_next_cursor(i: int, len: int, direction: Direction)
    requires
        0 <= i < len,
    ensures
        next_cursor(i, len, direction) == match direction {
            Direction::Forward => if i + 1 == len {
                0
            } else {
                i + 1
            },
            Direction::Backward => if i == 0 {
                len - 1
            } else {
                i - 1
            },
        },
{
    assert((i + 1) % len == if i + 1 == len {
        0
    } else {
        i + 1
    }) by (nonlinear_arith)
        requires
            0 <= i < len,
    ;
    assert((i - 1 + len) % len == if i == 0 {
        len - 1
    } else {
        i - 1
    }) by (nonlinear_arith)
        requires
            0 <= i < len,
    ;
}

/// The first index of `windows` at which `id` stands.
pub fn find_id(windows: &Vec<EveWindow>, id: u32) -> (r: Option<usize>)
    ensures
        match r {
            Some(j) => position_of(models(windows@), id) == Some(j as int),
            None => position_of(models(windows@), id) is None,
        },
{
    let ghost list = models(windows@);
    let mut i: usize = 0;
    while i < windows.len()
        invariant
            i <= windows.len(),
            list == models(windows@),
            forall|k: int| 0 <= k < i ==> #[trigger] list[k].id != id,
        decreases windows.len() - i,
    {
        if windows[i].id == id {
            proof {
                lemma_first_index(list, id, i as int);
            }
            return Some(i);
        }
        i += 1;
    }
    proof {
        lemma_position_of(list, id);
        if let Some(j) = position_of(list, id) {
            assert(list[j].id != id);
        }
    }
    None
}

} // verus!
