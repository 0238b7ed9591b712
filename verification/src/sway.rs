//! The backend for Sway: windows are found by walking the tree of
//! containers that `swaymsg -t get_tree` prints, and are controlled by
//! container id.

use vstd::prelude::*;
use crate::backend::{failure, activation, stacking, no_active_window, read_activation,
    read_stacking};
use crate::codec::{low_bits, decimal, signed_decimal, truncate_id, push_decimal,
    push_signed_decimal};
use crate::command::{Command, CommandModel, CommandOutcome, lossy_text, text_of, request, chain,
    command_models};
use crate::config::{Config, Rect};
use crate::error::{BackendError, ErrorKind, ErrorModel};
use crate::json::{Json, json_of, jsons, parsed, parse, member, elements, unsigned, boolean,
    member_text, has_value};
use crate::sift::{sift, first_hit, lemma_sift_step, lemma_first_hit_at, lemma_no_hit_yet,
    lemma_no_hit};
use crate::text::{to_chars, from_chars, append, same_text};
use crate::window::{EveWindow, WindowModel, eve_window, titled, models, filter_window, all_kept,
    lemma_sifted_windows_kept};

verus! {

/// The Sway backend.
#[derive(Clone, Copy, Debug, PartialEq, Eq, Structural)]
pub struct SwayManager;

/// What the backend reads of one window container.
#[derive(Clone, Debug, PartialEq, Eq)]
pub struct SwayWindow {
    /// The title, where the container has one.
    pub name: Option<String>,
    /// The container id, where it is an unsigned number.
    pub id: Option<u64>,
    /// Whether the container has the focus, where it says so.
    pub focused: Option<bool>,
}

/// A window container, to specifications.
pub struct SwayWindowModel {
    pub name: Option<Seq<char>>,
    pub id: Option<u64>,
    pub focused: Option<bool>,
}

impl View for SwayWindow {
    type V = SwayWindowModel;

    open spec fn view(&self) -> SwayWindowModel {
        SwayWindowModel {
            name: match self.name {
                Some(s) => Some(s@),
                None => None,
            },
            id: self.id,
            focused: self.focused,
        }
    }
}

/// The models of a list of window containers.
pub open spec fn containers(windows: Seq<SwayWindow>) -> Seq<SwayWindowModel> {
    windows.map_values(|w: SwayWindow| w@)
}

/// Whether a node of the tree is a window: a container, tiled or floating,
/// that carries an application id or window properties other than `null`.
pub open spec fn is_window(node: Json) -> bool {
    let kind = node.member_text("type"@);
    (kind == Some("con"@) || kind == Some("floating_con"@)) && (node.has_value("app_id"@)
        || node.has_value("window_properties"@))
}

/// What is read of a window node.
pub open spec fn window_of(node: Json) -> SwayWindowModel {
    SwayWindowModel {
        name: node.member_text("name"@),
        id: match node.member("id"@) {
            Some(v) => v.unsigned(),
            None => None,
        },
        focused: match node.member("focused"@) {
            Some(v) => v.boolean(),
            None => None,
        },
    }
}

/// The node itself, if it is a window.
pub open spec fn own_window(node: Json) -> Seq<SwayWindowModel> {
    if is_window(node) {
        seq![window_of(node)]
    } else {
        Seq::empty()
    }
}

/// The windows of a tree, in the order of the walk: the node itself, then
/// the trees under `nodes`, then those under `floating_nodes`.
pub open spec fn tree_windows(node: Json) -> Seq<SwayWindowModel>
    decreases node, 1nat,
{
    own_window(node) + child_windows(node, "nodes"@) + child_windows(node, "floating_nodes"@)
}

/// The windows of the trees that the member `key` of the node lists.
pub open spec fn child_windows(node: Json, key: Seq<char>) -> Seq<SwayWindowModel>
    decreases node, 0nat,
{
    match node {
        Json::Object(m) => if m.contains_key(key) {
            match m[key] {
                Json::Array(s) => forest_windows(s, s.len()),
                _ => Seq::empty(),
            }
        } else {
            Seq::empty()
        },
        _ => Seq::empty(),
    }
}

/// The windows of the first `n` trees of a list.
pub open spec fn forest_windows(nodes: Seq<Json>, n: nat) -> Seq<SwayWindowModel>
    decreases nodes, n,
{
    if n == 0 || n > nodes.len() {
        Seq::empty()
    } else {
        forest_windows(nodes, (n - 1) as nat) + tree_windows(nodes[n - 1])
    }
}

/// All window containers, from the outcome of the tree query.
pub open spec fn all_windows(outcome: CommandOutcome) -> Result<Seq<SwayWindowModel>, ErrorModel> {
    match outcome {
        CommandOutcome::NotStarted => Err(
            failure(ErrorKind::QueryFailure, "Failed to execute swaymsg"@),
        ),
        CommandOutcome::Finished(out) => if out.success {
            match parsed(out.stdout@) {
                Some(tree) => Ok(tree_windows(tree)),
                None => Err(failure(ErrorKind::QueryFailure, "Failed to parse swaymsg output"@)),
            }
        } else {
            Err(failure(ErrorKind::QueryFailure, "swaymsg failed: "@ + lossy_text(out.stderr@)))
        },
    }
}

/// The canonical id of a container: the low 32 bits of its id.
pub open spec fn window_id_of(w: SwayWindowModel) -> Option<u32> {
    match w.id {
        Some(id) => Some(low_bits(id)),
        None => None,
    }
}

/// The window of the application that a container gives, if it gives one.
pub open spec fn container_window(w: SwayWindowModel) -> Option<WindowModel> {
    match (w.name, w.id) {
        (Some(title), Some(id)) => eve_window(low_bits(id), title),
        _ => None,
    }
}

/// `container_window`, as a value.
pub open spec fn window_reader() -> spec_fn(SwayWindowModel) -> Option<WindowModel> {
    |w: SwayWindowModel| container_window(w)
}

/// The id of a container that says it has the focus.
pub open spec fn focused_id(w: SwayWindowModel) -> Option<u32> {
    match (w.focused, w.id) {
        (Some(focused), Some(id)) => if focused && low_bits(id) != 0 {
            Some(low_bits(id))
        } else {
            None
        },
        _ => None,
    }
}

/// `focused_id`, as a value.
pub open spec fn focus_reader() -> spec_fn(SwayWindowModel) -> Option<u32> {
    |w: SwayWindowModel| focused_id(w)
}

/// The id of a container with exactly this title.
pub open spec fn titled_id(w: SwayWindowModel, title: Seq<char>) -> Option<u32> {
    match (w.name, w.id) {
        (Some(name), Some(id)) => titled(low_bits(id), name, title),
        _ => None,
    }
}

/// `titled_id` for the title, as a value.
pub open spec fn title_reader(title: Seq<char>) -> spec_fn(SwayWindowModel) -> Option<u32> {
    |w: SwayWindowModel| titled_id(w, title)
}

/// The application's windows, from the outcome of the tree query.
pub open spec fn eve_windows(outcome: CommandOutcome) -> Result<Seq<WindowModel>, ErrorModel> {
    match all_windows(outcome) {
        Ok(all) => Ok(sift(all, window_reader())),
        Err(e) => Err(e),
    }
}

/// The focused window, from the outcome of the tree query: the first
/// container in the order of the walk that says it has the focus.
pub open spec fn active_window(outcome: CommandOutcome) -> Result<u32, ErrorModel> {
    match all_windows(outcome) {
        Ok(all) => match first_hit(all, focus_reader()) {
            Some(id) => Ok(id),
            None => Err(no_active_window()),
        },
        Err(e) => Err(e),
    }
}

/// The id of the first window with exactly this title.
pub open spec fn window_by_title(outcome: CommandOutcome, title: Seq<char>) -> Result<
    Option<u32>,
    ErrorModel,
> {
    match all_windows(outcome) {
        Ok(all) => Ok(first_hit(all, title_reader(title))),
        Err(e) => Err(e),
    }
}

/// The criterion that selects the container with the id.
pub open spec fn criterion(id: u32) -> Seq<char> {
    "[con_id="@ + decimal(id) + "]"@
}

/// `swaymsg --version`: asks the tool for its version.
pub open spec fn probe_request() -> CommandModel {
    request("swaymsg"@, seq!["--version"@])
}

/// `swaymsg -t get_tree`: asks for the tree of containers.
pub open spec fn tree_request() -> CommandModel {
    request("swaymsg"@, seq!["-t"@, "get_tree"@])
}

/// `swaymsg "[con_id=ID] focus"`: focuses the container with the id.
pub open spec fn activate_request(id: u32) -> CommandModel {
    request("swaymsg"@, seq![criterion(id) + " focus"@])
}

/// The three requests that put one window into the rectangle: make it
/// floating, move it, resize it.
pub open spec fn window_requests(id: u32, rect: Rect) -> Seq<CommandModel> {
    seq![
        request("swaymsg"@, seq![criterion(id) + " floating enable"@]),
        request(
            "swaymsg"@,
            seq![
                criterion(id) + " move position "@ + signed_decimal(rect.x) + " "@ + signed_decimal(
                    rect.y,
                ),
            ],
        ),
        request(
            "swaymsg"@,
            seq![
                criterion(id) + " resize set "@ + decimal(rect.width) + " "@ + decimal(rect.height),
            ],
        ),
    ]
}

/// The requests for all windows, window after window.
pub open spec fn stack_requests(windows: Seq<WindowModel>, rect: Rect) -> Seq<CommandModel>
    decreases windows.len(),
{
    if windows.len() == 0 {
        Seq::empty()
    } else {
        stack_requests(windows.drop_last(), rect) + window_requests(windows.last().id, rect)
    }
}

/// Whether the backend can be used, from the outcome of its probe.
pub open spec fn available(probe: CommandOutcome) -> Result<(), ErrorModel> {
    match probe {
        CommandOutcome::NotStarted => Err(
            failure(
                ErrorKind::Unavailable,
                "swaymsg not found. Make sure you're running Sway"@,
            ),
        ),
        CommandOutcome::Finished(_) => Ok(()),
    }
}

/// No window with the reserved id, and none that the title filter turns
/// away, is among the application's windows.
pub proof fn lemma_eve_windows_kept(outcome: CommandOutcome)
    ensures
        eve_windows(outcome) matches Ok(windows) ==> all_kept(windows),
{
    if let Ok(all) = all_windows(outcome) {
        assert forall|x: SwayWindowModel| (#[trigger] window_reader()(x)) is Some implies exists|
            id: u32,
            title: Seq<char>,
        | window_reader()(x) == #[trigger] eve_window(id, title) by {
            assert(window_reader()(x) == eve_window(low_bits(x.id->Some_0), x.name->Some_0));
        }
        lemma_sifted_windows_kept(all, window_reader());
    }
}

/// The characters of the criterion for the id.
fn criterion_chars(id: u32) -> (out: Vec<char>)
    ensures
        out@ == criterion(id),
{
    let mut out = to_chars("[con_id=");
    push_decimal(&mut out, id);
    append(&mut out, &to_chars("]"));
    out
}

/// A request to `swaymsg` with one argument: the criterion for the id and
/// what follows it.
fn message(id: u32, rest: &Vec<char>) -> (c: Command)
    ensures
        c@ == request("swaymsg"@, seq![criterion(id) + rest@]),
{
    let mut text = criterion_chars(id);
    append(&mut text, rest);
    let arg = from_chars(&text);
    let c = Command::new("swaymsg").arg(arg.as_str());
    assert(c@.args == seq![criterion(id) + rest@]);
    c
}

impl SwayManager {
    /// The request that probes for the backend's tool.
    pub fn probe_command() -> (c: Command)
        ensures
            c@ == probe_request(),
    {
        let c = Command::new("swaymsg").arg("--version");
        assert(c@.args == seq!["--version"@]);
        c
    }

    /// The backend, if the probe shows that its tool is there.
    pub fn new(probe: &CommandOutcome) -> (r: Result<SwayManager, BackendError>)
        ensures
            match r {
                Ok(_) => available(*probe) is Ok,
                Err(e) => available(*probe) == Err::<(), ErrorModel>(e@),
            },
    {
        match probe {
            CommandOutcome::NotStarted => Err(
                BackendError::Unavailable(
                    "swaymsg not found. Make sure you're running Sway".to_owned(),
                ),
            ),
            CommandOutcome::Finished(_) => Ok(SwayManager),
        }
    }

    /// The request that asks for the tree of containers.
    pub fn tree_command(&self) -> (c: Command)
        ensures
            c@ == tree_request(),
    {
        let c = Command::new("swaymsg").arg("-t").arg("get_tree");
        assert(c@.args == seq!["-t"@, "get_tree"@]);
        c
    }

    /// Whether the node is a window.
    fn node_is_window(node: &serde_json::Value) -> (b: bool)
        ensures
            b == is_window(json_of(*node)),
    {
        let container = match member_text(node, "type") {
            Some(kind) => same_text(kind.as_str(), "con") || same_text(
                kind.as_str(),
                "floating_con",
            ),
            None => false,
        };
        container && (has_value(node, "app_id") || has_value(node, "window_properties"))
    }

    /// What is read of a window node.
    fn read_window(node: &serde_json::Value) -> (w: SwayWindow)
        ensures
            w@ == window_of(json_of(*node)),
    {
        SwayWindow {
            name: member_text(node, "name"),
            id: match member(node, "id") {
                Some(v) => unsigned(v),
                None => None,
            },
            focused: match member(node, "focused") {
                Some(v) => boolean(v),
                None => None,
            },
        }
    }

    /// Appends the windows of the tree to `windows`, in the order of the
    /// walk.
    fn extract_windows(node: &serde_json::Value, windows: &mut Vec<SwayWindow>)
        ensures
            containers(final(windows)@) == containers(old(windows)@) + tree_windows(
                json_of(*node),
            ),
        decreases json_of(*node), 1nat,
    {
        if Self::node_is_window(node) {
            let w = Self::read_window(node);
            assert(containers(windows@.push(w)) == containers(windows@).push(w@));
            windows.push(w);
        }
        assert(containers(windows@) == containers(old(windows)@) + own_window(json_of(*node)));
        Self::extract_children(node, "nodes", windows);
        Self::extract_children(node, "floating_nodes", windows);
    }

    /// Appends the windows of the trees that the member `key` lists.
    fn extract_children(node: &serde_json::Value, key: &str, windows: &mut Vec<SwayWindow>)
        ensures
            containers(final(windows)@) == containers(old(windows)@) + child_windows(
                json_of(*node),
                key@,
            ),
        decreases json_of(*node), 0nat,
    {
        let list = match member(node, key) {
            Some(v) => v,
            None => {
                return ;
            },
        };
        let children = match elements(list) {
            Some(children) => children,
            None => {
                return ;
            },
        };
        let ghost all = jsons(children@);
        let mut i: usize = 0;
        while i < children.len()
            invariant
                i <= children.len(),
                all == jsons(children@),
                json_of(*node) matches Json::Object(m) && m.contains_key(key@) && m[key@]
                    == Json::Array(all),
                containers(windows@) == containers(old(windows)@) + forest_windows(all, i as nat),
            decreases children.len() - i,
        {
            proof {
                let m = json_of(*node)->Object_0;
                assert(all[i as int] == json_of(children@[i as int]));
                assert(m.dom().contains(key@));
                assert(decreases_to!(json_of(*node) => m[key@]));
                assert(m[key@]->Array_0 == all);
                assert(decreases_to!(m[key@] => all[i as int]));
            }
            Self::extract_windows(&children[i], windows);
            i += 1;
        }
    }

    /// All window containers of the tree.
    pub fn get_all_windows(&self, outcome: &CommandOutcome) -> (r: Result<
        Vec<SwayWindow>,
        BackendError,
    >)
        ensures
            match r {
                Ok(windows) => all_windows(*outcome) == Ok::<Seq<SwayWindowModel>, ErrorModel>(
                    containers(windows@),
                ),
                Err(e) => all_windows(*outcome) == Err::<Seq<SwayWindowModel>, ErrorModel>(e@),
            },
    {
        match outcome {
            CommandOutcome::NotStarted => Err(
                BackendError::QueryFailure("Failed to execute swaymsg".to_owned()),
            ),
            CommandOutcome::Finished(out) => {
                if !out.success {
                    let diagnostic = text_of(&out.stderr);
                    return Err(
                        BackendError::QueryFailure(chain("swaymsg failed: ", diagnostic.as_str())),
                    );
                }
                let tree = match parse(&out.stdout) {
                    Ok(tree) => tree,
                    Err(_) => {
                        return Err(
                            BackendError::QueryFailure(
                                "Failed to parse swaymsg output".to_owned(),
                            ),
                        );
                    },
                };
                let mut windows: Vec<SwayWindow> = Vec::new();
                assert(containers(windows@) == Seq::<SwayWindowModel>::empty());
                Self::extract_windows(&tree, &mut windows);
                Ok(windows)
            },
        }
    }

    /// The title of a window container.
    pub fn get_window_title(window: &SwayWindow) -> (r: Option<String>)
        ensures
            match r {
                Some(s) => window@.name == Some(s@),
                None => window@.name is None,
            },
    {
        match &window.name {
            Some(s) => Some(s.clone()),
            None => None,
        }
    }

    /// The canonical id of a window container.
    pub fn get_window_id(window: &SwayWindow) -> (r: Option<u32>)
        ensures
            r == window_id_of(window@),
    {
        match window.id {
            Some(id) => Some(truncate_id(id)),
            None => None,
        }
    }

    /// The id of the container, if it says that it has the focus.
    pub fn focused_window_id(window: &SwayWindow) -> (r: Option<u32>)
        ensures
            r == focused_id(window@),
    {
        match (window.focused, Self::get_window_id(window)) {
            (Some(focused), Some(id)) => if focused && id != 0 {
                Some(id)
            } else {
                None
            },
            _ => None,
        }
    }

    /// The id of the container, if its title is exactly `title`.
    pub fn titled_window_id(window: &SwayWindow, title: &str) -> (r: Option<u32>)
        ensures
            r == titled_id(window@, title@),
    {
        match (&window.name, Self::get_window_id(window)) {
            (Some(name), Some(id)) => if id != 0 && same_text(name.as_str(), title) {
                Some(id)
            } else {
                None
            },
            _ => None,
        }
    }

    /// The application's windows.
    pub fn get_eve_windows(&self, outcome: &CommandOutcome) -> (r: Result<
        Vec<EveWindow>,
        BackendError,
    >)
        ensures
            match r {
                Ok(windows) => eve_windows(*outcome) == Ok::<Seq<WindowModel>, ErrorModel>(
                    models(windows@),
                ) && all_kept(models(windows@)),
                Err(e) => eve_windows(*outcome) == Err::<Seq<WindowModel>, ErrorModel>(e@),
            },
    {
        let all = match self.get_all_windows(outcome) {
            Ok(all) => all,
            Err(e) => {
                return Err(e);
            },
        };
        let ghost list = containers(all@);
        let mut windows: Vec<EveWindow> = Vec::new();
        let mut i: usize = 0;
        assert(list.take(0) == Seq::<SwayWindowModel>::empty());
        assert(models(windows@) == Seq::<WindowModel>::empty());
        while i < all.len()
            invariant
                i <= all.len(),
                list == containers(all@),
                models(windows@) == sift(list.take(i as int), window_reader()),
            decreases all.len() - i,
        {
            proof {
                lemma_sift_step(list, window_reader(), i as int);
            }
            let found = match (&all[i].name, Self::get_window_id(&all[i])) {
                (Some(title), Some(id)) => filter_window(id, title.as_str()),
                _ => None,
            };
            match found {
                Some(w) => {
                    assert(models(windows@.push(w)) == models(windows@).push(w@));
                    windows.push(w);
                },
                None => {},
            }
            i += 1;
        }
        assert(list.take(all.len() as int) == list);
        proof {
            lemma_eve_windows_kept(*outcome);
        }
        Ok(windows)
    }

    /// The request that focuses the window.
    pub fn activate_command(&self, window_id: u32) -> (c: Command)
        ensures
            c@ == activate_request(window_id),
    {
        message(window_id, &to_chars(" focus"))
    }

    /// Whether the window was activated.
    pub fn activate_window(&self, outcome: &CommandOutcome) -> (r: Result<(), BackendError>)
        ensures
            match r {
                Ok(_) => activation(*outcome) is Ok,
                Err(e) => activation(*outcome) == Err::<(), ErrorModel>(e@),
            },
    {
        read_activation(outcome)
    }

    /// The requests that stack the windows: for each window, the request to
    /// make it floating first, then the move, then the resize.
    pub fn stack_commands(&self, windows: &Vec<EveWindow>, config: &Config) -> (out: Vec<Command>)
        requires
            config.fits_display(),
        ensures
            command_models(out@) == stack_requests(models(windows@), config.stack_rect_of()),
    {
        let rect = config.stack_rect();
        let mut out: Vec<Command> = Vec::new();
        let mut i: usize = 0;
        assert(command_models(out@) == Seq::<CommandModel>::empty());
        while i < windows.len()
            invariant
                i <= windows.len(),
                rect == config.stack_rect_of(),
                command_models(out@) == stack_requests(models(windows@).take(i as int), rect),
            decreases windows.len() - i,
        {
            let id = windows[i].id;
            let float = message(id, &to_chars(" floating enable"));
            let mut place = to_chars(" move position ");
            push_signed_decimal(&mut place, rect.x);
            append(&mut place, &to_chars(" "));
            push_signed_decimal(&mut place, rect.y);
            let moved = message(id, &place);
            let mut size = to_chars(" resize set ");
            push_decimal(&mut size, rect.width);
            append(&mut size, &to_chars(" "));
            push_decimal(&mut size, rect.height);
            let resized = message(id, &size);
            proof {
                let before = models(windows@).take(i as int);
                let after = models(windows@).take(i + 1);
                assert(after.drop_last() == before);
                assert(after.last().id == id);
                assert(criterion(id) + place@ == criterion(id) + " move position "@
                    + signed_decimal(rect.x) + " "@ + signed_decimal(rect.y));
                assert(criterion(id) + size@ == criterion(id) + " resize set "@ + decimal(
                    rect.width,
                ) + " "@ + decimal(rect.height));
                assert(seq![float@, moved@, resized@] == window_requests(id, rect));
                assert(command_models(out@.push(float).push(moved).push(resized))
                    == command_models(out@) + seq![float@, moved@, resized@]);
            }
            out.push(float);
            out.push(moved);
            out.push(resized);
            i += 1;
        }
        assert(models(windows@).take(windows.len() as int) == models(windows@));
        out
    }

    /// Whether the windows were stacked.
    pub fn stack_windows(&self, outcomes: &Vec<CommandOutcome>) -> (r: Result<(), BackendError>)
        ensures
            match r {
                Ok(_) => stacking(outcomes@) is Ok,
                Err(e) => stacking(outcomes@) == Err::<(), ErrorModel>(e@),
            },
    {
        read_stacking(outcomes)
    }

    /// The id of the window that has the focus.
    pub fn get_active_window(&self, outcome: &CommandOutcome) -> (r: Result<u32, BackendError>)
        ensures
            match r {
                Ok(id) => active_window(*outcome) == Ok::<u32, ErrorModel>(id),
                Err(e) => active_window(*outcome) == Err::<u32, ErrorModel>(e@),
            },
    {
        let all = match self.get_all_windows(outcome) {
            Ok(all) => all,
            Err(e) => {
                return Err(e);
            },
        };
        let ghost list = containers(all@);
        let ghost f = focus_reader();
        let mut i: usize = 0;
        assert(list.take(0) == Seq::<SwayWindowModel>::empty());
        while i < all.len()
            invariant
                i <= all.len(),
                list == containers(all@),
                f == focus_reader(),
                all_windows(*outcome) == Ok::<Seq<SwayWindowModel>, ErrorModel>(list),
                sift(list.take(i as int), f).len() == 0,
            decreases all.len() - i,
        {
            if let Some(id) = Self::focused_window_id(&all[i]) {
                proof {
                    lemma_first_hit_at(list, f, i as int, id);
                }
                return Ok(id);
            }
            proof {
                lemma_no_hit_yet(list, f, i as int);
            }
            i += 1;
        }
        proof {
            lemma_no_hit(list, f);
        }
        Err(BackendError::NoActiveWindow)
    }

    /// The id of the first window whose title is exactly `title`.
    pub fn find_window_by_title(&self, outcome: &CommandOutcome, title: &str) -> (r: Result<
        Option<u32>,
        BackendError,
    >)
        ensures
            match r {
                Ok(id) => window_by_title(*outcome, title@) == Ok::<Option<u32>, ErrorModel>(id),
                Err(e) => window_by_title(*outcome, title@) == Err::<Option<u32>, ErrorModel>(e@),
            },
    {
        let all = match self.get_all_windows(outcome) {
            Ok(all) => all,
            Err(e) => {
                return Err(e);
            },
        };
        let ghost list = containers(all@);
        let ghost f = title_reader(title@);
        let mut i: usize = 0;
        assert(list.take(0) == Seq::<SwayWindowModel>::empty());
        while i < all.len()
            invariant
                i <= all.len(),
                list == containers(all@),
                f == title_reader(title@),
                all_windows(*outcome) == Ok::<Seq<SwayWindowModel>, ErrorModel>(list),
                sift(list.take(i as int), f).len() == 0,
            decreases all.len() - i,
        {
            if let Some(id) = Self::titled_window_id(&all[i], title) {
                proof {
                    lemma_first_hit_at(list, f, i as int, id);
                }
                return Ok(Some(id));
            }
            proof {
                lemma_no_hit_yet(list, f, i as int);
            }
            i += 1;
        }
        proof {
            lemma_no_hit(list, f);
        }
        Ok(None)
    }
}

} // verus!
