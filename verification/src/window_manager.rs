//! The window manager: one capability, whichever desktop environment
//! provides it.
//!
//! Every operation has two halves. The first says what is asked of the
//! desktop environment's control tool; the second reads the answer. Between
//! the two the caller runs the tool.

use vstd::prelude::*;
use crate::backend::{activation, stacking};
use crate::command::{Command, CommandModel, CommandOutcome, command_models};
use crate::config::{Config, Rect};
use crate::error::{BackendError, ErrorModel};
use crate::hyprland::HyprlandManager;
use crate::kwin::KWinManager;
use crate::sift::{first_hit, lemma_sift_source};
use crate::sway::SwayManager;
use crate::window::{EveWindow, WindowModel, models, all_kept};

verus! {

/// A window manager backend.
#[derive(Clone, Copy, Debug, PartialEq, Eq, Structural)]
pub enum WindowManager {
    KWin(KWinManager),
    Sway(SwayManager),
    Hyprland(HyprlandManager),
}

impl WindowManager {
    /// The request that enumerates the windows.
    pub open spec fn windows_request(self) -> CommandModel {
        match self {
            WindowManager::KWin(_) => crate::kwin::list_request(),
            WindowManager::Sway(_) => crate::sway::tree_request(),
            WindowManager::Hyprland(_) => crate::hyprland::clients_request(),
        }
    }

    /// The application's windows, from the outcome of the enumeration.
    pub open spec fn eve_windows(self, outcome: CommandOutcome) -> Result<
        Seq<WindowModel>,
        ErrorModel,
    > {
        match self {
            WindowManager::KWin(_) => crate::kwin::eve_windows(outcome),
            WindowManager::Sway(_) => crate::sway::eve_windows(outcome),
            WindowManager::Hyprland(_) => crate::hyprland::eve_windows(outcome),
        }
    }

    /// The id of the first window with exactly this title, from the outcome
    /// of the enumeration.
    pub open spec fn window_by_title(self, outcome: CommandOutcome, title: Seq<char>) -> Result<
        Option<u32>,
        ErrorModel,
    > {
        match self {
            WindowManager::KWin(_) => crate::kwin::window_by_title(outcome, title),
            WindowManager::Sway(_) => crate::sway::window_by_title(outcome, title),
            WindowManager::Hyprland(_) => crate::hyprland::window_by_title(outcome, title),
        }
    }

    /// The request that focuses the window.
    pub open spec fn activate_request(self, id: u32) -> CommandModel {
        match self {
            WindowManager::KWin(_) => crate::kwin::activate_request(id),
            WindowManager::Sway(_) => crate::sway::activate_request(id),
            WindowManager::Hyprland(_) => crate::hyprland::activate_request(id),
        }
    }

    /// The requests that put every window into the rectangle.
    pub open spec fn stack_requests(self, windows: Seq<WindowModel>, rect: Rect) -> Seq<
        CommandModel,
    > {
        match self {
            WindowManager::KWin(_) => crate::kwin::stack_requests(windows, rect),
            WindowManager::Sway(_) => crate::sway::stack_requests(windows, rect),
            WindowManager::Hyprland(_) => crate::hyprland::stack_requests(windows, rect),
        }
    }

    /// The request that asks for the focused window.
    pub open spec fn active_window_request(self) -> CommandModel {
        match self {
            WindowManager::KWin(_) => crate::kwin::active_window_request(),
            WindowManager::Sway(_) => crate::sway::tree_request(),
            WindowManager::Hyprland(_) => crate::hyprland::active_window_request(),
        }
    }

    /// The focused window, from the outcome of the question.
    pub open spec fn active_window(self, outcome: CommandOutcome) -> Result<u32, ErrorModel> {
        match self {
            WindowManager::KWin(_) => crate::kwin::active_window(outcome),
            WindowManager::Sway(_) => crate::sway::active_window(outcome),
            WindowManager::Hyprland(_) => crate::hyprland::active_window(outcome),
        }
    }

    /// The request that enumerates the windows.
    pub fn windows_command(&self) -> (c: Command)
        ensures
            c@ == self.windows_request(),
    {
        match self {
            WindowManager::KWin(wm) => wm.list_command(),
            WindowManager::Sway(wm) => wm.tree_command(),
            WindowManager::Hyprland(wm) => wm.clients_command(),
        }
    }

    /// The application's windows: those whose title passes the filter, under
    /// the rest of their title, in the order of the enumeration. None of
    /// them has the reserved id.
    pub fn get_eve_windows(&self, outcome: &CommandOutcome) -> (r: Result<
        Vec<EveWindow>,
        BackendError,
    >)
        ensures
            match r {
                Ok(windows) => self.eve_windows(*outcome) == Ok::<Seq<WindowModel>, ErrorModel>(
                    models(windows@),
                ) && all_kept(models(windows@)),
                Err(e) => self.eve_windows(*outcome) == Err::<Seq<WindowModel>, ErrorModel>(e@),
            },
    {
        match self {
            WindowManager::KWin(wm) => wm.get_eve_windows(outcome),
            WindowManager::Sway(wm) => wm.get_eve_windows(outcome),
            WindowManager::Hyprland(wm) => wm.get_eve_windows(outcome),
        }
    }

    /// The id of the first window whose full title is exactly `title`,
    /// never the reserved id.
    pub fn find_window_by_title(&self, outcome: &CommandOutcome, title: &str) -> (r: Result<
        Option<u32>,
        BackendError,
    >)
        ensures
            match r {
                Ok(id) => self.window_by_title(*outcome, title@) == Ok::<Option<u32>, ErrorModel>(
                    id,
                ) && id != Some(0u32),
                Err(e) => self.window_by_title(*outcome, title@) == Err::<Option<u32>, ErrorModel>(
                    e@,
                ),
            },
    {
        proof {
            lemma_ids_are_real(*self, *outcome, title@);
        }
        match self {
            WindowManager::KWin(wm) => wm.find_window_by_title(outcome, title),
            WindowManager::Sway(wm) => wm.find_window_by_title(outcome, title),
            WindowManager::Hyprland(wm) => wm.find_window_by_title(outcome, title),
        }
    }

    /// The request that focuses the window.
    pub fn activate_command(&self, window_id: u32) -> (c: Command)
        ensures
            c@ == self.activate_request(window_id),
    {
        match self {
            WindowManager::KWin(wm) => wm.activate_command(window_id),
            WindowManager::Sway(wm) => wm.activate_command(window_id),
            WindowManager::Hyprland(wm) => wm.activate_command(window_id),
        }
    }

    /// Whether the window was activated.
    pub fn activate_window(&self, outcome: &CommandOutcome) -> (r: Result<(), BackendError>)
        ensures
            match r {
                Ok(_) => activation(*outcome) is Ok,
                Err(e) => activation(*outcome) == Err::<(), ErrorModel>(e@),
            },
    {
        match self {
            WindowManager::KWin(wm) => wm.activate_window(outcome),
            WindowManager::Sway(wm) => wm.activate_window(outcome),
            WindowManager::Hyprland(wm) => wm.activate_window(outcome),
        }
    }

    /// The requests that stack the windows, all into the same rectangle.
    /// Each is to be made whatever became of the others.
    pub fn stack_commands(&self, windows: &Vec<EveWindow>, config: &Config) -> (out: Vec<Command>)
        requires
            config.fits_display(),
        ensures
            command_models(out@) == self.stack_requests(models(windows@), config.stack_rect_of()),
    {
        match self {
            WindowManager::KWin(wm) => wm.stack_commands(windows, config),
            WindowManager::Sway(wm) => wm.stack_commands(windows, config),
            WindowManager::Hyprland(wm) => wm.stack_commands(windows, config),
        }
    }

    /// Whether the windows were stacked.
    pub fn stack_windows(&self, outcomes: &Vec<CommandOutcome>) -> (r: Result<(), BackendError>)
        ensures
            match r {
                Ok(_) => stacking(outcomes@) is Ok,
                Err(e) => stacking(outcomes@) == Err::<(), ErrorModel>(e@),
            },
    {
        match self {
            WindowManager::KWin(wm) => wm.stack_windows(outcomes),
            WindowManager::Sway(wm) => wm.stack_windows(outcomes),
            WindowManager::Hyprland(wm) => wm.stack_windows(outcomes),
        }
    }

    /// The request that asks for the focused window.
    pub fn active_window_command(&self) -> (c: Command)
        ensures
            c@ == self.active_window_request(),
    {
        match self {
            WindowManager::KWin(wm) => wm.active_window_command(),
            WindowManager::Sway(wm) => wm.tree_command(),
            WindowManager::Hyprland(wm) => wm.active_window_command(),
        }
    }

    /// The id of the focused window, never the reserved id.
    pub fn get_active_window(&self, outcome: &CommandOutcome) -> (r: Result<u32, BackendError>)
        ensures
            match r {
                Ok(id) => self.active_window(*outcome) == Ok::<u32, ErrorModel>(id) && id != 0,
                Err(e) => self.active_window(*outcome) == Err::<u32, ErrorModel>(e@),
            },
    {
        proof {
            lemma_ids_are_real(*self, *outcome, Seq::empty());
        }
        match self {
            WindowManager::KWin(wm) => wm.get_active_window(outcome),
            WindowManager::Sway(wm) => wm.get_active_window(outcome),
            WindowManager::Hyprland(wm) => wm.get_active_window(outcome),
        }
    }
}

/// Whatever the backend and whatever its tool answered, the application's
/// windows have all passed the filter and none has the reserved id.
pub proof fn lemma_eve_windows_kept(wm: WindowManager, outcome: CommandOutcome)
    ensures
        wm.eve_windows(outcome) matches Ok(windows) ==> all_kept(windows),
{
    crate::kwin::lemma_eve_windows_kept(outcome);
    crate::sway::lemma_eve_windows_kept(outcome);
    crate::hyprland::lemma_eve_windows_kept(outcome);
}

/// What a partial function gives first on a sequence, it gives on one of
/// the elements.
proof fn lemma_first_hit_source<A, B>(s: Seq<A>, f: spec_fn(A) -> Option<B>)
    ensures
        first_hit(s, f) matches Some(b) ==> exists|k: int|
            0 <= k < s.len() && f(#[trigger] s[k]) == Some(b),
{
    if first_hit(s, f) is Some {
        lemma_sift_source(s, f, 0);
    }
}

/// No backend reports the reserved id as the focused window or as the
/// window of a title.
pub proof fn lemma_ids_are_real(wm: WindowManager, outcome: CommandOutcome, title: Seq<char>)
    ensures
        wm.active_window(outcome) matches Ok(id) ==> id != 0,
        wm.window_by_title(outcome, title) matches Ok(found) ==> found != Some(0u32),
{
    match wm {
        WindowManager::KWin(_) => {
            if let Ok(all) = crate::kwin::all_windows(outcome) {
                lemma_first_hit_source(all, crate::kwin::title_reader(title));
            }
        },
        WindowManager::Sway(_) => {
            if let Ok(all) = crate::sway::all_windows(outcome) {
                lemma_first_hit_source(all, crate::sway::title_reader(title));
                lemma_first_hit_source(all, crate::sway::focus_reader());
            }
        },
        WindowManager::Hyprland(_) => {
            if let Ok(all) = crate::hyprland::all_windows(outcome) {
                lemma_first_hit_source(all, crate::hyprland::title_reader(title));
            }
        },
    }
}

} // verus!
