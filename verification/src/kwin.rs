//! The backend for KDE Plasma: windows are listed and controlled with
//! `wmctrl`, and the focused window is asked of `xdotool`.

use vstd::prelude::*;
use crate::codec::{window_id, parse_u32, hex8, decimal, signed_decimal, decode_window_id,
    parse_decimal, push_decimal, push_signed_decimal};
use crate::backend::{failure, activation, stacking, no_active_window, read_activation,
    read_stacking};
use crate::command::{Command, CommandModel, CommandOutcome, lossy_text, text_of, request, chain,
    command_models};
use crate::config::{Config, Rect};
use crate::error::{BackendError, ErrorKind, ErrorModel};
use crate::sift::{sift, first_hit, lemma_sift_step, lemma_first_hit_at, lemma_no_hit_yet,
    lemma_no_hit};
use crate::text::{fields, join, split, trim, texts, to_chars, from_chars, split_at, split_fields,
    join_with, trimmed, same_text};
use crate::window::{EveWindow, WindowModel, eve_window, titled, models, filter_window, all_kept,
    lemma_sifted_windows_kept};

verus! {

/// The KDE Plasma backend.
#[derive(Clone, Copy, Debug, PartialEq, Eq, Structural)]
pub struct KWinManager;

/// One row of the window listing: the id as the tool wrote it, and the
/// window's full title.
pub type Row = (Seq<char>, Seq<char>);

/// The rows that a vector of pairs of strings holds.
pub open spec fn rows(listing: Seq<(String, String)>) -> Seq<Row> {
    listing.map_values(|r: (String, String)| (r.0@, r.1@))
}

/// The row that one line of the listing gives: its first field is the id,
/// and the fields from the fourth on, with one space between them, are the
/// title. A line of fewer than four fields gives none.
pub open spec fn line_row(line: Seq<char>) -> Option<Row> {
    let f = fields(line);
    if f.len() >= 4 {
        Some((f[0], join(f.skip(3), seq![' '])))
    } else {
        None
    }
}

/// `line_row`, as a value.
pub open spec fn row_reader() -> spec_fn(Seq<char>) -> Option<Row> {
    |line: Seq<char>| line_row(line)
}

/// The rows of a window listing.
pub open spec fn listing_rows(listing: Seq<char>) -> Seq<Row> {
    sift(split(listing, '\n'), row_reader())
}

/// The window of the application that a row gives, if it gives one.
pub open spec fn row_window(row: Row) -> Option<WindowModel> {
    eve_window(window_id(row.0), row.1)
}

/// `row_window`, as a value.
pub open spec fn window_reader() -> spec_fn(Row) -> Option<WindowModel> {
    |row: Row| row_window(row)
}

/// The id of a row whose title is exactly `title`, as a function of the row.
pub open spec fn title_reader(title: Seq<char>) -> spec_fn(Row) -> Option<u32> {
    |row: Row| titled(window_id(row.0), row.1, title)
}

/// Whether the backend can be used, from the outcome of its probe.
pub open spec fn available(probe: CommandOutcome) -> Result<(), ErrorModel> {
    match probe {
        CommandOutcome::NotStarted => Err(
            failure(ErrorKind::Unavailable, "wmctrl not found. Install wmctrl package"@),
        ),
        CommandOutcome::Finished(_) => Ok(()),
    }
}

/// All windows, from the outcome of the listing.
pub open spec fn all_windows(outcome: CommandOutcome) -> Result<Seq<Row>, ErrorModel> {
    match outcome {
        CommandOutcome::NotStarted => Err(
            failure(ErrorKind::QueryFailure, "Failed to execute wmctrl"@),
        ),
        CommandOutcome::Finished(out) => if out.success {
            Ok(listing_rows(lossy_text(out.stdout@)))
        } else {
            Err(failure(ErrorKind::QueryFailure, "wmctrl failed: "@ + lossy_text(out.stderr@)))
        },
    }
}

/// The application's windows, from the outcome of the listing.
pub open spec fn eve_windows(outcome: CommandOutcome) -> Result<Seq<WindowModel>, ErrorModel> {
    match all_windows(outcome) {
        Ok(listing) => Ok(sift(listing, window_reader())),
        Err(e) => Err(e),
    }
}

/// The id of the first window with exactly this title, from the outcome of
/// the listing.
pub open spec fn window_by_title(outcome: CommandOutcome, title: Seq<char>) -> Result<
    Option<u32>,
    ErrorModel,
> {
    match all_windows(outcome) {
        Ok(listing) => Ok(first_hit(listing, title_reader(title))),
        Err(e) => Err(e),
    }
}

/// The focused window, from the outcome of the question: the decimal id
/// that the tool printed, surrounding whitespace apart.
pub open spec fn active_window(outcome: CommandOutcome) -> Result<u32, ErrorModel> {
    match outcome {
        CommandOutcome::NotStarted => Err(
            failure(ErrorKind::QueryFailure, "Failed to get active window"@),
        ),
        CommandOutcome::Finished(out) => match parse_u32(trim(lossy_text(out.stdout@)), 10) {
            Some(id) => if id != 0 {
                Ok(id)
            } else {
                Err(no_active_window())
            },
            None => Err(failure(ErrorKind::QueryFailure, "Failed to parse active window ID"@)),
        },
    }
}

/// The geometry argument: gravity `0`, then left, top, width and height.
pub open spec fn geometry(rect: Rect) -> Seq<char> {
    "0,"@ + signed_decimal(rect.x) + ","@ + signed_decimal(rect.y) + ","@ + decimal(rect.width)
        + ","@ + decimal(rect.height)
}

/// `wmctrl -m`: asks the tool about the window manager.
pub open spec fn probe_request() -> CommandModel {
    request("wmctrl"@, seq!["-m"@])
}

/// `wmctrl -l`: lists all windows.
pub open spec fn list_request() -> CommandModel {
    request("wmctrl"@, seq!["-l"@])
}

/// `wmctrl -i -a ID`: raises and focuses the window with the id.
pub open spec fn activate_request(id: u32) -> CommandModel {
    request("wmctrl"@, seq!["-i"@, "-a"@, hex8(id)])
}

/// `xdotool getactivewindow`: asks for the id of the focused window.
pub open spec fn active_window_request() -> CommandModel {
    request("xdotool"@, seq!["getactivewindow"@])
}

/// `wmctrl -i -r ID -e GEOMETRY`: moves and resizes the window with the id.
pub open spec fn stack_request(id: u32, rect: Rect) -> CommandModel {
    request("wmctrl"@, seq!["-i"@, "-r"@, hex8(id), "-e"@, geometry(rect)])
}

/// One request for each window, in the order of the windows.
pub open spec fn stack_requests(windows: Seq<WindowModel>, rect: Rect) -> Seq<CommandModel> {
    windows.map_values(|w: WindowModel| stack_request(w.id, rect))
}

/// No window with the reserved id, and none that the title filter turns
/// away, is among the application's windows.
pub proof fn lemma_eve_windows_kept(outcome: CommandOutcome)
    ensures
        eve_windows(outcome) matches Ok(windows) ==> all_kept(windows),
{
    if let Ok(all) = all_windows(outcome) {
        assert forall|x: Row| (#[trigger] window_reader()(x)) is Some implies exists|
            id: u32,
            title: Seq<char>,
        | window_reader()(x) == #[trigger] eve_window(id, title) by {
            assert(window_reader()(x) == eve_window(window_id(x.0), x.1));
        }
        lemma_sifted_windows_kept(all, window_reader());
    }
}

/// Reads the row that one line of the listing gives.
pub fn read_row(line: &Vec<char>) -> (r: Option<(String, String)>)
    ensures
        match r {
            Some(row) => line_row(line@) == Some((row.0@, row.1@)),
            None => line_row(line@) is None,
        },
{
    let parts = split_fields(line);
    if parts.len() >= 4 {
        let space = vec![' '];
        assert(space@ == seq![' ']);
        let title = join_with(&parts, 3, &space);
        assert(parts@[0]@ == texts(parts@)[0]);
        Some((from_chars(&parts[0]), from_chars(&title)))
    } else {
        None
    }
}

/// Reads the rows of a window listing.
pub fn parse_window_list(listing: &str) -> (out: Vec<(String, String)>)
    ensures
        rows(out@) == listing_rows(listing@),
{
    let chars = to_chars(listing);
    let lines = split_at(&chars, '\n');
    let ghost all = split(listing@, '\n');
    let mut out: Vec<(String, String)> = Vec::new();
    let mut i: usize = 0;
    assert(all.take(0) == Seq::<Seq<char>>::empty());
    assert(rows(out@) == Seq::<Row>::empty());
    while i < lines.len()
        invariant
            i <= lines.len(),
            all == texts(lines@),
            rows(out@) == sift(all.take(i as int), row_reader()),
        decreases lines.len() - i,
    {
        proof {
            lemma_sift_step(all, row_reader(), i as int);
        }
        match read_row(&lines[i]) {
            Some(row) => {
                assert(rows(out@.push(row)) == rows(out@).push((row.0@, row.1@)));
                out.push(row);
            },
            None => {},
        }
        i += 1;
    }
    assert(all.take(lines.len() as int) == all);
    out
}

impl KWinManager {
    /// The request that probes for the backend's tool.
    pub fn probe_command() -> (c: Command)
        ensures
            c@ == probe_request(),
    {
        let c = Command::new("wmctrl").arg("-m");
        assert(c@.args == seq!["-m"@]);
        c
    }

    /// The backend, if the probe shows that its tool is there.
    pub fn new(probe: &CommandOutcome) -> (r: Result<KWinManager, BackendError>)
        ensures
            match r {
                Ok(_) => available(*probe) is Ok,
                Err(e) => available(*probe) == Err::<(), ErrorModel>(e@),
            },
    {
        match probe {
            CommandOutcome::NotStarted => Err(
                BackendError::Unavailable("wmctrl not found. Install wmctrl package".to_owned()),
            ),
            CommandOutcome::Finished(_) => Ok(KWinManager),
        }
    }

    /// The request that lists all windows.
    pub fn list_command(&self) -> (c: Command)
        ensures
            c@ == list_request(),
    {
        let c = Command::new("wmctrl").arg("-l");
        assert(c@.args == seq!["-l"@]);
        c
    }

    /// All windows, as the listing names them.
    pub fn get_all_windows(&self, outcome: &CommandOutcome) -> (r: Result<
        Vec<(String, String)>,
        BackendError,
    >)
        ensures
            match r {
                Ok(listing) => all_windows(*outcome) == Ok::<Seq<Row>, ErrorModel>(rows(listing@)),
                Err(e) => all_windows(*outcome) == Err::<Seq<Row>, ErrorModel>(e@),
            },
    {
        match outcome {
            CommandOutcome::NotStarted => Err(
                BackendError::QueryFailure("Failed to execute wmctrl".to_owned()),
            ),
            CommandOutcome::Finished(out) => {
                if !out.success {
                    let diagnostic = text_of(&out.stderr);
                    return Err(
                        BackendError::QueryFailure(chain("wmctrl failed: ", diagnostic.as_str())),
                    );
                }
                let listing = text_of(&out.stdout);
                Ok(parse_window_list(listing.as_str()))
            },
        }
    }

    /// The application's windows.
    pub fn get_eve_windows(&self, outcome: &CommandOutcome) -> (r: Result<
        Vec<EveWindow>,
        BackendError,
    >)
        ensures
            match r {
                Ok(windows) => eve_windows(*outcome) == Ok::<Seq<WindowModel>, ErrorModel>(
                    models(windows@),
                ) && all_kept(models(windows@)),
                Err(e) => eve_windows(*outcome) == Err::<Seq<WindowModel>, ErrorModel>(e@),
            },
    {
        let listing = match self.get_all_windows(outcome) {
            Ok(listing) => listing,
            Err(e) => {
                return Err(e);
            },
        };
        let ghost all = rows(listing@);
        let mut windows: Vec<EveWindow> = Vec::new();
        let mut i: usize = 0;
        assert(all.take(0) == Seq::<Row>::empty());
        assert(models(windows@) == Seq::<WindowModel>::empty());
        while i < listing.len()
            invariant
                i <= listing.len(),
                all == rows(listing@),
                models(windows@) == sift(all.take(i as int), window_reader()),
            decreases listing.len() - i,
        {
            proof {
                lemma_sift_step(all, window_reader(), i as int);
            }
            let id = decode_window_id(listing[i].0.as_str());
            match filter_window(id, listing[i].1.as_str()) {
                Some(w) => {
                    assert(models(windows@.push(w)) == models(windows@).push(w@));
                    windows.push(w);
                },
                None => {},
            }
            i += 1;
        }
        assert(all.take(listing.len() as int) == all);
        proof {
            lemma_eve_windows_kept(*outcome);
        }
        Ok(windows)
    }

    /// The request that raises and focuses the window.
    pub fn activate_command(&self, window_id: u32) -> (c: Command)
        ensures
            c@ == activate_request(window_id),
    {
        let id = crate::codec::encode_hex8(window_id);
        let c = Command::new("wmctrl").arg("-i").arg("-a").arg(id.as_str());
        assert(c@.args == seq!["-i"@, "-a"@, hex8(window_id)]);
        c
    }

    /// Whether the window was activated.
    pub fn activate_window(&self, outcome: &CommandOutcome) -> (r: Result<(), BackendError>)
        ensures
            match r {
                Ok(_) => activation(*outcome) is Ok,
                Err(e) => activation(*outcome) == Err::<(), ErrorModel>(e@),
            },
    {
        read_activation(outcome)
    }

    /// The request that moves one window into the rectangle.
    pub fn stack_command(&self, window_id: u32, rect: &Rect) -> (c: Command)
        ensures
            c@ == stack_request(window_id, *rect),
    {
        let id = crate::codec::encode_hex8(window_id);
        let mut g = to_chars("0,");
        let comma = to_chars(",");
        push_signed_decimal(&mut g, rect.x);
        crate::text::append(&mut g, &comma);
        push_signed_decimal(&mut g, rect.y);
        crate::text::append(&mut g, &comma);
        push_decimal(&mut g, rect.width);
        crate::text::append(&mut g, &comma);
        push_decimal(&mut g, rect.height);
        let geometry_arg = from_chars(&g);
        assert(geometry_arg@ == geometry(*rect));
        let c = Command::new("wmctrl").arg("-i").arg("-r").arg(id.as_str()).arg("-e").arg(
            geometry_arg.as_str(),
        );
        assert(c@.args == seq!["-i"@, "-r"@, hex8(window_id), "-e"@, geometry(*rect)]);
        c
    }

    /// The requests that stack the windows: one for each, all into the same
    /// rectangle.
    pub fn stack_commands(&self, windows: &Vec<EveWindow>, config: &Config) -> (out: Vec<Command>)
        requires
            config.fits_display(),
        ensures
            command_models(out@) == stack_requests(models(windows@), config.stack_rect_of()),
    {
        let rect = config.stack_rect();
        let mut out: Vec<Command> = Vec::new();
        let mut i: usize = 0;
        while i < windows.len()
            invariant
                i <= windows.len(),
                rect == config.stack_rect_of(),
                command_models(out@) == stack_requests(models(windows@).take(i as int), rect),
            decreases windows.len() - i,
        {
            let c = self.stack_command(windows[i].id, &rect);
            assert(command_models(out@.push(c)) == command_models(out@).push(c@));
            assert(stack_requests(models(windows@).take(i + 1), rect) == stack_requests(
                models(windows@).take(i as int),
                rect,
            ).push(stack_request(windows@[i as int].id, rect)));
            out.push(c);
            i += 1;
        }
        assert(models(windows@).take(windows.len() as int) == models(windows@));
        out
    }

    /// Whether the windows were stacked.
    pub fn stack_windows(&self, outcomes: &Vec<CommandOutcome>) -> (r: Result<(), BackendError>)
        ensures
            match r {
                Ok(_) => stacking(outcomes@) is Ok,
                Err(e) => stacking(outcomes@) == Err::<(), ErrorModel>(e@),
            },
    {
        read_stacking(outcomes)
    }

    /// The request that asks for the focused window.
    pub fn active_window_command(&self) -> (c: Command)
        ensures
            c@ == active_window_request(),
    {
        let c = Command::new("xdotool").arg("getactivewindow");
        assert(c@.args == seq!["getactivewindow"@]);
        c
    }

    /// The id of the focused window.
    pub fn get_active_window(&self, outcome: &CommandOutcome) -> (r: Result<u32, BackendError>)
        ensures
            match r {
                Ok(id) => active_window(*outcome) == Ok::<u32, ErrorModel>(id),
                Err(e) => active_window(*outcome) == Err::<u32, ErrorModel>(e@),
            },
    {
        match outcome {
            CommandOutcome::NotStarted => Err(
                BackendError::QueryFailure("Failed to get active window".to_owned()),
            ),
            CommandOutcome::Finished(out) => {
                let printed = text_of(&out.stdout);
                let chars = to_chars(printed.as_str());
                let id_text = trimmed(&chars);
                match parse_decimal(&id_text) {
                    Some(id) => {
                        if id != 0 {
                            Ok(id)
                        } else {
                            Err(BackendError::NoActiveWindow)
                        }
                    },
                    None => Err(
                        BackendError::QueryFailure("Failed to parse active window ID".to_owned()),
                    ),
                }
            },
        }
    }

    /// The id of the first window whose full title is exactly `title`.
    pub fn find_window_by_title(&self, outcome: &CommandOutcome, title: &str) -> (r: Result<
        Option<u32>,
        BackendError,
    >)
        ensures
            match r {
                Ok(id) => window_by_title(*outcome, title@) == Ok::<Option<u32>, ErrorModel>(id),
                Err(e) => window_by_title(*outcome, title@) == Err::<Option<u32>, ErrorModel>(e@),
            },
    {
        let listing = match self.get_all_windows(outcome) {
            Ok(listing) => listing,
            Err(e) => {
                return Err(e);
            },
        };
        let ghost all = rows(listing@);
        let ghost f = title_reader(title@);
        let mut i: usize = 0;
        assert(all.take(0) == Seq::<Row>::empty());
        while i < listing.len()
            invariant
                i <= listing.len(),
                all == rows(listing@),
                f == title_reader(title@),
                all_windows(*outcome) == Ok::<Seq<Row>, ErrorModel>(all),
                sift(all.take(i as int), f).len() == 0,
            decreases listing.len() - i,
        {
            let id = decode_window_id(listing[i].0.as_str());
            if id != 0 && same_text(listing[i].1.as_str(), title) {
                proof {
                    lemma_first_hit_at(all, f, i as int, id);
                }
                return Ok(Some(id));
            }
            proof {
                lemma_no_hit_yet(all, f, i as int);
            }
            i += 1;
        }
        proof {
            lemma_no_hit(all, f);
        }
        Ok(None)
    }
}

} // verus!
