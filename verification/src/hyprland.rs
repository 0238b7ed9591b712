//! The backend for Hyprland: `hyprctl` lists the clients as a JSON array,
//! and windows are controlled by their address.

use vstd::prelude::*;
use crate::backend::{failure, activation, stacking, no_active_window, read_activation,
    read_stacking};
use crate::codec::{address_id, hex, decimal, signed_decimal, decode_address, push_digits,
    push_decimal, push_signed_decimal};
use crate::command::{Command, CommandModel, CommandOutcome, lossy_text, text_of, request, chain,
    command_models};
use crate::config::{Config, Rect};
use crate::error::{BackendError, ErrorKind, ErrorModel};
use crate::json::{Json, json_of, jsons, parsed, parse, elements, member_text};
use crate::sift::{sift, first_hit, lemma_sift_step, lemma_first_hit_at, lemma_no_hit_yet,
    lemma_no_hit};
use crate::text::{to_chars, from_chars, append, same_text};
use crate::window::{EveWindow, WindowModel, eve_window, titled, models, filter_window, all_kept,
    lemma_sifted_windows_kept};

verus! {

/// The Hyprland backend.
#[derive(Clone, Copy, Debug, PartialEq, Eq, Structural)]
pub struct HyprlandManager;

/// What the backend reads of one client.
#[derive(Clone, Debug, PartialEq, Eq)]
pub struct HyprClient {
    /// The title, where the client has one.
    pub title: Option<String>,
    /// The address, where the client has one.
    pub address: Option<String>,
}

/// A client, to specifications.
pub struct ClientModel {
    pub title: Option<Seq<char>>,
    pub address: Option<Seq<char>>,
}

impl View for HyprClient {
    type V = ClientModel;

    open spec fn view(&self) -> ClientModel {
        ClientModel {
            title: match self.title {
                Some(s) => Some(s@),
                None => None,
            },
            address: match self.address {
                Some(s) => Some(s@),
                None => None,
            },
        }
    }
}

/// The models of a list of clients.
pub open spec fn clients(list: Seq<HyprClient>) -> Seq<ClientModel> {
    list.map_values(|c: HyprClient| c@)
}

/// What is read of one element of the client list.
pub open spec fn client_of(node: Json) -> ClientModel {
    ClientModel { title: node.member_text("title"@), address: node.member_text("address"@) }
}

/// What is read of the elements of the client list.
pub open spec fn clients_of(list: Seq<Json>) -> Seq<ClientModel> {
    list.map_values(|node: Json| client_of(node))
}

/// The failure to read what `hyprctl` printed.
pub open spec fn unreadable() -> ErrorModel {
    failure(ErrorKind::QueryFailure, "Failed to parse hyprctl output"@)
}

/// All clients, from the outcome of the client query.
pub open spec fn all_windows(outcome: CommandOutcome) -> Result<Seq<ClientModel>, ErrorModel> {
    match outcome {
        CommandOutcome::NotStarted => Err(
            failure(ErrorKind::QueryFailure, "Failed to execute hyprctl"@),
        ),
        CommandOutcome::Finished(out) => if out.success {
            match parsed(out.stdout@) {
                Some(Json::Array(list)) => Ok(clients_of(list)),
                _ => Err(unreadable()),
            }
        } else {
            Err(failure(ErrorKind::QueryFailure, "hyprctl failed: "@ + lossy_text(out.stderr@)))
        },
    }
}

/// The window of the application that a client gives, if it gives one.
pub open spec fn client_window(c: ClientModel) -> Option<WindowModel> {
    match (c.title, c.address) {
        (Some(title), Some(address)) => eve_window(address_id(address), title),
        _ => None,
    }
}

/// `client_window`, as a value.
pub open spec fn window_reader() -> spec_fn(ClientModel) -> Option<WindowModel> {
    |c: ClientModel| client_window(c)
}

/// The id of a client with exactly this title.
pub open spec fn titled_id(c: ClientModel, title: Seq<char>) -> Option<u32> {
    match (c.title, c.address) {
        (Some(name), Some(address)) => titled(address_id(address), name, title),
        _ => None,
    }
}

/// `titled_id` for the title, as a value.
pub open spec fn title_reader(title: Seq<char>) -> spec_fn(ClientModel) -> Option<u32> {
    |c: ClientModel| titled_id(c, title)
}

/// The application's windows, from the outcome of the client query.
pub open spec fn eve_windows(outcome: CommandOutcome) -> Result<Seq<WindowModel>, ErrorModel> {
    match all_windows(outcome) {
        Ok(all) => Ok(sift(all, window_reader())),
        Err(e) => Err(e),
    }
}

/// The id of the first client with exactly this title.
pub open spec fn window_by_title(outcome: CommandOutcome, title: Seq<char>) -> Result<
    Option<u32>,
    ErrorModel,
> {
    match all_windows(outcome) {
        Ok(all) => Ok(first_hit(all, title_reader(title))),
        Err(e) => Err(e),
    }
}

/// The focused window, from the outcome of the question: the id that the
/// address of the printed client denotes.
pub open spec fn active_window(outcome: CommandOutcome) -> Result<u32, ErrorModel> {
    match outcome {
        CommandOutcome::NotStarted => Err(
            failure(ErrorKind::QueryFailure, "Failed to get active window"@),
        ),
        CommandOutcome::Finished(out) => match parsed(out.stdout@) {
            Some(client) => match client.member_text("address"@) {
                Some(address) => if address_id(address) != 0 {
                    Ok(address_id(address))
                } else {
                    Err(no_active_window())
                },
                None => Err(no_active_window()),
            },
            None => Err(unreadable()),
        },
    }
}

/// The selector of the window with the id.
pub open spec fn selector(id: u32) -> Seq<char> {
    "address:"@ + hex(id)
}

/// `hyprctl version`: asks the tool for its version.
pub open spec fn probe_request() -> CommandModel {
    request("hyprctl"@, seq!["version"@])
}

/// `hyprctl clients -j`: lists the clients as JSON.
pub open spec fn clients_request() -> CommandModel {
    request("hyprctl"@, seq!["clients"@, "-j"@])
}

/// `hyprctl activewindow -j`: asks for the focused client as JSON.
pub open spec fn active_window_request() -> CommandModel {
    request("hyprctl"@, seq!["activewindow"@, "-j"@])
}

/// `hyprctl dispatch focuswindow address:ADDRESS`: focuses the window.
pub open spec fn activate_request(id: u32) -> CommandModel {
    request("hyprctl"@, seq!["dispatch"@, "focuswindow"@, selector(id)])
}

/// The three requests that put one window into the rectangle: make it
/// floating, move it, resize it.
pub open spec fn window_requests(id: u32, rect: Rect) -> Seq<CommandModel> {
    seq![
        request("hyprctl"@, seq!["dispatch"@, "togglefloating"@, selector(id)]),
        request(
            "hyprctl"@,
            seq![
                "dispatch"@,
                "movewindowpixel"@,
                "exact "@ + signed_decimal(rect.x) + " "@ + signed_decimal(rect.y) + ","@
                    + selector(id),
            ],
        ),
        request(
            "hyprctl"@,
            seq![
                "dispatch"@,
                "resizewindowpixel"@,
                "exact "@ + decimal(rect.width) + " "@ + decimal(rect.height) + ","@ + selector(
                    id,
                ),
            ],
        ),
    ]
}

/// The requests for all windows, window after window.
pub open spec fn stack_requests(windows: Seq<WindowModel>, rect: Rect) -> Seq<CommandModel>
    decreases windows.len(),
{
    if windows.len() == 0 {
        Seq::empty()
    } else {
        stack_requests(windows.drop_last(), rect) + window_requests(windows.last().id, rect)
    }
}

/// Whether the backend can be used, from the outcome of its probe.
pub open spec fn available(probe: CommandOutcome) -> Result<(), ErrorModel> {
    match probe {
        CommandOutcome::NotStarted => Err(
            failure(
                ErrorKind::Unavailable,
                "hyprctl not found. Make sure you're running Hyprland"@,
            ),
        ),
        CommandOutcome::Finished(_) => Ok(()),
    }
}

/// No window with the reserved id, and none that the title filter turns
/// away, is among the application's windows.
pub proof fn lemma_eve_windows_kept(outcome: CommandOutcome)
    ensures
        eve_windows(outcome) matches Ok(windows) ==> all_kept(windows),
{
    if let Ok(all) = all_windows(outcome) {
        assert forall|x: ClientModel| (#[trigger] window_reader()(x)) is Some implies exists|
            id: u32,
            title: Seq<char>,
        | window_reader()(x) == #[trigger] eve_window(id, title) by {
            assert(window_reader()(x) == eve_window(
                address_id(x.address->Some_0),
                x.title->Some_0,
            ));
        }
        lemma_sifted_windows_kept(all, window_reader());
    }
}

/// The characters of the selector of the window with the id.
fn selector_chars(id: u32) -> (out: Vec<char>)
    ensures
        out@ == selector(id),
{
    let mut out = to_chars("address:0x");
    proof {
        reveal_strlit("address:0x");
        reveal_strlit("address:");
        assert("address:0x"@ == "address:"@ + crate::codec::hex_marker());
    }
    push_digits(&mut out, id, 16);
    out
}

/// The dispatch of `verb` with the argument `target`.
fn dispatch(verb: &str, target: &Vec<char>) -> (c: Command)
    ensures
        c@ == request("hyprctl"@, seq!["dispatch"@, verb@, target@]),
{
    let arg = from_chars(target);
    let c = Command::new("hyprctl").arg("dispatch").arg(verb).arg(arg.as_str());
    assert(c@.args == seq!["dispatch"@, verb@, target@]);
    c
}

impl HyprlandManager {
    /// The request that probes for the backend's tool.
    pub fn probe_command() -> (c: Command)
        ensures
            c@ == probe_request(),
    {
        let c = Command::new("hyprctl").arg("version");
        assert(c@.args == seq!["version"@]);
        c
    }

    /// The backend, if the probe shows that its tool is there.
    pub fn new(probe: &CommandOutcome) -> (r: Result<HyprlandManager, BackendError>)
        ensures
            match r {
                Ok(_) => available(*probe) is Ok,
                Err(e) => available(*probe) == Err::<(), ErrorModel>(e@),
            },
    {
        match probe {
            CommandOutcome::NotStarted => Err(
                BackendError::Unavailable(
                    "hyprctl not found. Make sure you're running Hyprland".to_owned(),
                ),
            ),
            CommandOutcome::Finished(_) => Ok(HyprlandManager),
        }
    }

    /// The request that lists the clients.
    pub fn clients_command(&self) -> (c: Command)
        ensures
            c@ == clients_request(),
    {
        let c = Command::new("hyprctl").arg("clients").arg("-j");
        assert(c@.args == seq!["clients"@, "-j"@]);
        c
    }

    /// What is read of one element of the client list.
    fn read_client(node: &serde_json::Value) -> (c: HyprClient)
        ensures
            c@ == client_of(json_of(*node)),
    {
        HyprClient { title: member_text(node, "title"), address: member_text(node, "address") }
    }

    /// All clients.
    pub fn get_all_windows(&self, outcome: &CommandOutcome) -> (r: Result<
        Vec<HyprClient>,
        BackendError,
    >)
        ensures
            match r {
                Ok(list) => all_windows(*outcome) == Ok::<Seq<ClientModel>, ErrorModel>(
                    clients(list@),
                ),
                Err(e) => all_windows(*outcome) == Err::<Seq<ClientModel>, ErrorModel>(e@),
            },
    {
        match outcome {
            CommandOutcome::NotStarted => Err(
                BackendError::QueryFailure("Failed to execute hyprctl".to_owned()),
            ),
            CommandOutcome::Finished(out) => {
                if !out.success {
                    let diagnostic = text_of(&out.stderr);
                    return Err(
                        BackendError::QueryFailure(chain("hyprctl failed: ", diagnostic.as_str())),
                    );
                }
                let document = match parse(&out.stdout) {
                    Ok(document) => document,
                    Err(_) => {
                        return Err(
                            BackendError::QueryFailure(
                                "Failed to parse hyprctl output".to_owned(),
                            ),
                        );
                    },
                };
                let nodes = match elements(&document) {
                    Some(nodes) => nodes,
                    None => {
                        return Err(
                            BackendError::QueryFailure(
                                "Failed to parse hyprctl output".to_owned(),
                            ),
                        );
                    },
                };
                let ghost all = jsons(nodes@);
                let mut list: Vec<HyprClient> = Vec::new();
                let mut i: usize = 0;
                while i < nodes.len()
                    invariant
                        i <= nodes.len(),
                        all == jsons(nodes@),
                        clients(list@) == clients_of(all.take(i as int)),
                    decreases nodes.len() - i,
                {
                    let c = Self::read_client(&nodes[i]);
                    assert(all[i as int] == json_of(nodes@[i as int]));
                    assert(all.take(i + 1) == all.take(i as int).push(all[i as int]));
                    assert(clients_of(all.take(i as int).push(all[i as int])) == clients_of(
                        all.take(i as int),
                    ).push(client_of(all[i as int])));
                    assert(clients(list@.push(c)) == clients(list@).push(c@));
                    list.push(c);
                    i += 1;
                }
                assert(all.take(nodes.len() as int) == all);
                Ok(list)
            },
        }
    }

    /// The window of the application that the client gives, if it gives
    /// one.
    pub fn client_eve_window(client: &HyprClient) -> (r: Option<EveWindow>)
        ensures
            match r {
                Some(w) => client_window(client@) == Some(w@),
                None => client_window(client@) is None,
            },
    {
        match (&client.title, &client.address) {
            (Some(title), Some(address)) => filter_window(
                decode_address(address.as_str()),
                title.as_str(),
            ),
            _ => None,
        }
    }

    /// The id of the client, if its title is exactly `title`.
    pub fn titled_client_id(client: &HyprClient, title: &str) -> (r: Option<u32>)
        ensures
            r == titled_id(client@, title@),
    {
        match (&client.title, &client.address) {
            (Some(name), Some(address)) => {
                let id = decode_address(address.as_str());
                if id != 0 && same_text(name.as_str(), title) {
                    Some(id)
                } else {
                    None
                }
            },
            _ => None,
        }
    }

    /// The application's windows.
    pub fn get_eve_windows(&self, outcome: &CommandOutcome) -> (r: Result<
        Vec<EveWindow>,
        BackendError,
    >)
        ensures
            match r {
                Ok(windows) => eve_windows(*outcome) == Ok::<Seq<WindowModel>, ErrorModel>(
                    models(windows@),
                ) && all_kept(models(windows@)),
                Err(e) => eve_windows(*outcome) == Err::<Seq<WindowModel>, ErrorModel>(e@),
            },
    {
        let all = match self.get_all_windows(outcome) {
            Ok(all) => all,
            Err(e) => {
                return Err(e);
            },
        };
        let ghost list = clients(all@);
        let mut windows: Vec<EveWindow> = Vec::new();
        let mut i: usize = 0;
        assert(list.take(0) == Seq::<ClientModel>::empty());
        assert(models(windows@) == Seq::<WindowModel>::empty());
        while i < all.len()
            invariant
                i <= all.len(),
                list == clients(all@),
                models(windows@) == sift(list.take(i as int), window_reader()),
            decreases all.len() - i,
        {
            proof {
                lemma_sift_step(list, window_reader(), i as int);
            }
            match Self::client_eve_window(&all[i]) {
                Some(w) => {
                    assert(models(windows@.push(w)) == models(windows@).push(w@));
                    windows.push(w);
                },
                None => {},
            }
            i += 1;
        }
        assert(list.take(all.len() as int) == list);
        proof {
            lemma_eve_windows_kept(*outcome);
        }
        Ok(windows)
    }

    /// The request that focuses the window.
    pub fn activate_command(&self, window_id: u32) -> (c: Command)
        ensures
            c@ == activate_request(window_id),
    {
        dispatch("focuswindow", &selector_chars(window_id))
    }

    /// Whether the window was activated.
    pub fn activate_window(&self, outcome: &CommandOutcome) -> (r: Result<(), BackendError>)
        ensures
            match r {
                Ok(_) => activation(*outcome) is Ok,
                Err(e) => activation(*outcome) == Err::<(), ErrorModel>(e@),
            },
    {
        read_activation(outcome)
    }

    /// The requests that stack the windows: for each window, the request to
    /// make it floating first, then the move, then the resize.
    pub fn stack_commands(&self, windows: &Vec<EveWindow>, config: &Config) -> (out: Vec<Command>)
        requires
            config.fits_display(),
        ensures
            command_models(out@) == stack_requests(models(windows@), config.stack_rect_of()),
    {
        let rect = config.stack_rect();
        let mut out: Vec<Command> = Vec::new();
        let mut i: usize = 0;
        assert(command_models(out@) == Seq::<CommandModel>::empty());
        while i < windows.len()
            invariant
                i <= windows.len(),
                rect == config.stack_rect_of(),
                command_models(out@) == stack_requests(models(windows@).take(i as int), rect),
            decreases windows.len() - i,
        {
            let id = windows[i].id;
            let target = selector_chars(id);
            let float = dispatch("togglefloating", &target);
            let mut place = to_chars("exact ");
            push_signed_decimal(&mut place, rect.x);
            append(&mut place, &to_chars(" "));
            push_signed_decimal(&mut place, rect.y);
            append(&mut place, &to_chars(","));
            append(&mut place, &target);
            let moved = dispatch("movewindowpixel", &place);
            let mut size = to_chars("exact ");
            push_decimal(&mut size, rect.width);
            append(&mut size, &to_chars(" "));
            push_decimal(&mut size, rect.height);
            append(&mut size, &to_chars(","));
            append(&mut size, &target);
            let resized = dispatch("resizewindowpixel", &size);
            proof {
                let before = models(windows@).take(i as int);
                let after = models(windows@).take(i + 1);
                assert(after.drop_last() == before);
                assert(after.last().id == id);
                assert(seq![float@, moved@, resized@] == window_requests(id, rect));
                assert(command_models(out@.push(float).push(moved).push(resized))
                    == command_models(out@) + seq![float@, moved@, resized@]);
            }
            out.push(float);
            out.push(moved);
            out.push(resized);
            i += 1;
        }
        assert(models(windows@).take(windows.len() as int) == models(windows@));
        out
    }

    /// Whether the windows were stacked.
    pub fn stack_windows(&self, outcomes: &Vec<CommandOutcome>) -> (r: Result<(), BackendError>)
        ensures
            match r {
                Ok(_) => stacking(outcomes@) is Ok,
                Err(e) => stacking(outcomes@) == Err::<(), ErrorModel>(e@),
            },
    {
        read_stacking(outcomes)
    }

    /// The request that asks for the focused window.
    pub fn active_window_command(&self) -> (c: Command)
        ensures
            c@ == active_window_request(),
    {
        let c = Command::new("hyprctl").arg("activewindow").arg("-j");
        assert(c@.args == seq!["activewindow"@, "-j"@]);
        c
    }

    /// The id of the window that has the focus.
    pub fn get_active_window(&self, outcome: &CommandOutcome) -> (r: Result<u32, BackendError>)
        ensures
            match r {
                Ok(id) => active_window(*outcome) == Ok::<u32, ErrorModel>(id),
                Err(e) => active_window(*outcome) == Err::<u32, ErrorModel>(e@),
            },
    {
        match outcome {
            CommandOutcome::NotStarted => Err(
                BackendError::QueryFailure("Failed to get active window".to_owned()),
            ),
            CommandOutcome::Finished(out) => {
                let client = match parse(&out.stdout) {
                    Ok(client) => client,
                    Err(_) => {
                        return Err(
                            BackendError::QueryFailure(
                                "Failed to parse hyprctl output".to_owned(),
                            ),
                        );
                    },
                };
                match member_text(&client, "address") {
                    Some(address) => {
                        let id = decode_address(address.as_str());
                        if id != 0 {
                            Ok(id)
                        } else {
                            Err(BackendError::NoActiveWindow)
                        }
                    },
                    None => Err(BackendError::NoActiveWindow),
                }
            },
        }
    }

    /// The id of the first client whose title is exactly `title`.
    pub fn find_window_by_title(&self, outcome: &CommandOutcome, title: &str) -> (r: Result<
        Option<u32>,
        BackendError,
    >)
        ensures
            match r {
                Ok(id) => window_by_title(*outcome, title@) == Ok::<Option<u32>, ErrorModel>(id),
                Err(e) => window_by_title(*outcome, title@) == Err::<Option<u32>, ErrorModel>(e@),
            },
    {
        let all = match self.get_all_windows(outcome) {
            Ok(all) => all,
            Err(e) => {
                return Err(e);
            },
        };
        let ghost list = clients(all@);
        let ghost f = title_reader(title@);
        let mut i: usize = 0;
        assert(list.take(0) == Seq::<ClientModel>::empty());
        while i < all.len()
            invariant
                i <= all.len(),
                list == clients(all@),
                f == title_reader(title@),
                all_windows(*outcome) == Ok::<Seq<ClientModel>, ErrorModel>(list),
                sift(list.take(i as int), f).len() == 0,
            decreases all.len() - i,
        {
            if let Some(id) = Self::titled_client_id(&all[i], title) {
                proof {
                    lemma_first_hit_at(list, f, i as int, id);
                }
                return Ok(Some(id));
            }
            proof {
                lemma_no_hit_yet(list, f, i as int);
            }
            i += 1;
        }
        proof {
            lemma_no_hit(list, f);
        }
        Ok(None)
    }
}

} // verus!
