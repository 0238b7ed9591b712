//! The windows of the target application and the rule that tells them from
//! all other windows.
//!
//! A window belongs to the application if and only if its title begins with
//! `EVE - ` and does not contain `Launcher`. It is kept under the rest of its
//! title, and only if its id is not the reserved `0`.

use vstd::prelude::*;
use crate::text::{contains, to_chars, from_chars, starts_with, includes, slice};
use crate::sift::{sift, lemma_sift_source};

verus! {

/// One window of the target application.
#[derive(Clone, Debug, PartialEq, Eq)]
pub struct EveWindow {
    /// The canonical id, never `0`.
    pub id: u32,
    /// The title, without the prefix.
    pub title: String,
}

/// What a window is, to specifications.
pub struct WindowModel {
    pub id: u32,
    pub title: Seq<char>,
}

impl View for EveWindow {
    type V = WindowModel;

    open spec fn view(&self) -> WindowModel {
        WindowModel { id: self.id, title: self.title@ }
    }
}

/// The models of a list of windows.
pub open spec fn models(windows: Seq<EveWindow>) -> Seq<WindowModel> {
    windows.map_values(|w: EveWindow| w@)
}

/// The prefix that the titles of the application's windows carry.
pub open spec fn title_prefix() -> Seq<char> {
    seq!['E', 'V', 'E', ' ', '-', ' ']
}

/// The word that marks the application's launcher.
pub open spec fn launcher_word() -> Seq<char> {
    seq!['L', 'a', 'u', 'n', 'c', 'h', 'e', 'r']
}

/// The title filter.
pub open spec fn is_eve_title(title: Seq<char>) -> bool {
    title_prefix().is_prefix_of(title) && !contains(title, launcher_word())
}

/// The title under which a window is kept: what follows the prefix.
pub open spec fn display_title(title: Seq<char>) -> Seq<char> {
    title.skip(title_prefix().len() as int)
}

/// The window that an id and a full title give, if they give one.
pub open spec fn eve_window(id: u32, title: Seq<char>) -> Option<WindowModel> {
    if is_eve_title(title) && id != 0 {
        Some(WindowModel { id, title: display_title(title) })
    } else {
        None
    }
}

/// No window that the filter lets through has the reserved id, and each is
/// kept under the rest of a title that passed the filter.
pub proof fn lemma_eve_window(id: u32, title: Seq<char>)
    ensures
        match eve_window(id, title) {
            Some(w) => w.id == id && id != 0 && is_eve_title(title) && title == title_prefix()
                + w.title,
            None => id == 0 || !is_eve_title(title),
        },
{
    if is_eve_title(title) {
        assert(title == title.subrange(0, title_prefix().len() as int) + title.skip(
            title_prefix().len() as int,
        ));
    }
}

/// What holds of every window that passed the filter: its id is not the
/// reserved one, and its title is what followed the prefix in a title that
/// the filter lets through.
pub open spec fn is_kept(w: WindowModel) -> bool {
    w.id != 0 && is_eve_title(title_prefix() + w.title)
}

/// Every window of the list passed the filter.
pub open spec fn all_kept(windows: Seq<WindowModel>) -> bool {
    forall|i: int| 0 <= i < windows.len() ==> is_kept(#[trigger] windows[i])
}

/// The windows that the filter selects from any listing have all passed it:
/// the reserved id `0` is not among them.
pub proof fn lemma_sifted_windows_kept<A>(raw: Seq<A>, f: spec_fn(A) -> Option<WindowModel>)
    requires
        forall|a: A| (#[trigger] f(a)) is Some ==> exists|id: u32, title: Seq<char>|
            f(a) == #[trigger] eve_window(id, title),
    ensures
        all_kept(sift(raw, f)),
{
    assert forall|i: int| 0 <= i < sift(raw, f).len() implies is_kept(
        #[trigger] sift(raw, f)[i],
    ) by {
        lemma_sift_source(raw, f, i);
        let k = choose|k: int| 0 <= k < raw.len() && f(#[trigger] raw[k]) == Some(sift(raw, f)[i]);
        let (id, title) = choose|id: u32, title: Seq<char>|
            f(raw[k]) == #[trigger] eve_window(id, title);
        lemma_eve_window(id, title);
    }
}

impl EveWindow {
    /// A copy of this window.
    pub fn duplicate(&self) -> (w: EveWindow)
        ensures
            w@ == self@,
    {
        EveWindow { id: self.id, title: self.title.clone() }
    }
}

/// Whether `title` passes the title filter.
pub fn passes_filter(title: &Vec<char>) -> (b: bool)
    ensures
        b == is_eve_title(title@),
{
    let prefix = eve_prefix();
    let launcher = launcher();
    starts_with(title, &prefix) && !includes(title, &launcher)
}

/// The characters of the title prefix.
pub fn eve_prefix() -> (p: Vec<char>)
    ensures
        p@ == title_prefix(),
{
    let p = to_chars("EVE - ");
    proof {
        reveal_strlit("EVE - ");
        assert(p@ == title_prefix());
    }
    p
}

/// The characters of the launcher's word.
pub fn launcher() -> (p: Vec<char>)
    ensures
        p@ == launcher_word(),
{
    let p = to_chars("Launcher");
    proof {
        reveal_strlit("Launcher");
        assert(p@ == launcher_word());
    }
    p
}

/// Applies the filter to one window as a desktop environment reports it.
pub fn filter_window(id: u32, title: &str) -> (r: Option<EveWindow>)
    ensures
        match r {
            Some(w) => eve_window(id, title@) == Some(w@),
            None => eve_window(id, title@) is None,
        },
{
    let chars = to_chars(title);
    if id != 0 && passes_filter(&chars) {
        let rest = slice(&chars, 6, chars.len());
        Some(EveWindow { id, title: from_chars(&rest) })
    } else {
        None
    }
}

/// The id of the window if `title` is exactly its full title and the id is
/// not the reserved one.
pub open spec fn titled(id: u32, full_title: Seq<char>, title: Seq<char>) -> Option<u32> {
    if full_title == title && id != 0 {
        Some(id)
    } else {
        None
    }
}

} // verus!
