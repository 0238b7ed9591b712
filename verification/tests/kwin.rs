use eve_multibox::command::{Command, CommandOutcome, CommandOutput};
use eve_multibox::config::{Config, Rect};
use eve_multibox::error::{BackendError, ErrorKind};
use eve_multibox::kwin::{parse_window_list, read_row, KWinManager};
use eve_multibox::text::to_chars;
use eve_multibox::window::EveWindow;

const LISTING: &str = "0x06e00008  0 atlantis EVE - Homeless Addict\n\
0x06e00009  0 atlantis EVE - Launcher\n\
0x03a00003 -1 atlantis Firefox\n\
0x06e0000a  1 atlantis EVE - Pilot One\n\
short line\n\
115343371  0 atlantis EVE - Decimal Id\n\
0xnothex  0 atlantis EVE - Broken Id\n";

fn finished(success: bool, stdout: &str, stderr: &str) -> CommandOutcome {
    CommandOutcome::Finished(CommandOutput {
        success,
        stdout: stdout.as_bytes().to_vec(),
        stderr: stderr.as_bytes().to_vec(),
    })
}

fn cmd(program: &str, args: &[&str]) -> Command {
    Command { program: program.to_string(), args: args.iter().map(|a| a.to_string()).collect() }
}

fn pair(id: &str, title: &str) -> (String, String) {
    (id.to_string(), title.to_string())
}

fn window(id: u32, title: &str) -> EveWindow {
    EveWindow { id, title: title.to_string() }
}

fn config() -> Config {
    Config { display_width: 7680, display_height: 2160, panel_height: 40, eve_width: 4147, eve_height: 2160 }
}

#[test]
fn kwin_row_of_the_documented_line() {
    assert_eq!(
        read_row(&to_chars("0x06e00008  0 atlantis EVE - Homeless Addict")),
        Some(pair("0x06e00008", "EVE - Homeless Addict"))
    );
    assert_eq!(read_row(&to_chars("0x1 0 host")), None);
    assert_eq!(read_row(&to_chars("")), None);
    assert_eq!(read_row(&to_chars("0x1 0 host  Two   Spaces ")), Some(pair("0x1", "Two Spaces")));
    assert_eq!(read_row(&to_chars("0x1 0 host T")), Some(pair("0x1", "T")));
}

#[test]
fn kwin_listing_rows() {
    let rows = parse_window_list(LISTING);
    assert_eq!(rows.len(), 6);
    assert_eq!(rows[0], pair("0x06e00008", "EVE - Homeless Addict"));
    assert_eq!(rows[2], pair("0x03a00003", "Firefox"));
    assert_eq!(rows[4], pair("115343371", "EVE - Decimal Id"));
    assert!(parse_window_list("").is_empty());
    assert_eq!(parse_window_list("a b c d\r\ne f g h"), vec![pair("a", "d"), pair("e", "h")]);
}

#[test]
fn kwin_probe() {
    assert_eq!(KWinManager::probe_command(), cmd("wmctrl", &["-m"]));
    assert_eq!(KWinManager::new(&finished(true, "", "")), Ok(KWinManager));
    assert_eq!(KWinManager::new(&finished(false, "", "no display")), Ok(KWinManager));
    let err = KWinManager::new(&CommandOutcome::NotStarted).unwrap_err();
    assert_eq!(err.kind(), ErrorKind::Unavailable);
    assert_eq!(err.message(), "wmctrl not found. Install wmctrl package");
}

#[test]
fn kwin_all_windows() {
    let wm = KWinManager;
    assert_eq!(wm.list_command(), cmd("wmctrl", &["-l"]));
    assert_eq!(wm.get_all_windows(&finished(true, LISTING, "")).unwrap().len(), 6);
    assert_eq!(
        wm.get_all_windows(&CommandOutcome::NotStarted),
        Err(BackendError::QueryFailure("Failed to execute wmctrl".to_string()))
    );
    assert_eq!(
        wm.get_all_windows(&finished(false, LISTING, "Cannot open display.\n")),
        Err(BackendError::QueryFailure("wmctrl failed: Cannot open display.\n".to_string()))
    );
}

#[test]
fn kwin_eve_windows_are_filtered() {
    let wm = KWinManager;
    assert_eq!(
        wm.get_eve_windows(&finished(true, LISTING, "")),
        Ok(vec![
            window(0x06e00008, "Homeless Addict"),
            window(0x06e0000a, "Pilot One"),
            window(115343371, "Decimal Id"),
        ])
    );
    assert_eq!(wm.get_eve_windows(&finished(true, "", "")), Ok(Vec::new()));
    assert_eq!(
        wm.get_eve_windows(&finished(false, "", "boom")),
        Err(BackendError::QueryFailure("wmctrl failed: boom".to_string()))
    );
}

#[test]
fn kwin_listing_that_is_not_utf8() {
    let wm = KWinManager;
    let mut bytes = b"0x00000011 0 host EVE - Pil".to_vec();
    bytes.push(0xff);
    bytes.extend_from_slice(b"t\n");
    let outcome = CommandOutcome::Finished(CommandOutput { success: true, stdout: bytes, stderr: Vec::new() });
    assert_eq!(wm.get_eve_windows(&outcome), Ok(vec![window(0x11, "Pil\u{fffd}t")]));
}

#[test]
fn kwin_activation() {
    let wm = KWinManager;
    assert_eq!(wm.activate_command(0x06e00008), cmd("wmctrl", &["-i", "-a", "0x06e00008"]));
    assert_eq!(wm.activate_command(5), cmd("wmctrl", &["-i", "-a", "0x00000005"]));
    assert_eq!(wm.activate_window(&finished(true, "", "")), Ok(()));
    assert_eq!(
        wm.activate_window(&finished(false, "", "no such window")),
        Err(BackendError::Activation("Failed to activate window: no such window".to_string()))
    );
    assert_eq!(
        wm.activate_window(&CommandOutcome::NotStarted),
        Err(BackendError::Activation("Failed to activate window".to_string()))
    );
}

#[test]
fn kwin_stacking() {
    let wm = KWinManager;
    let windows = vec![window(0x06e00008, "A"), window(0x11, "B")];
    assert_eq!(
        wm.stack_commands(&windows, &config()),
        vec![
            cmd("wmctrl", &["-i", "-r", "0x06e00008", "-e", "0,1766,0,4147,2120"]),
            cmd("wmctrl", &["-i", "-r", "0x00000011", "-e", "0,1766,0,4147,2120"]),
        ]
    );
    assert!(wm.stack_commands(&Vec::new(), &config()).is_empty());
    let rect = Rect { x: -3, y: 10, width: 800, height: 600 };
    assert_eq!(wm.stack_command(1, &rect), cmd("wmctrl", &["-i", "-r", "0x00000001", "-e", "0,-3,10,800,600"]));
    assert_eq!(wm.stack_windows(&vec![finished(true, "", ""), finished(false, "", "x")]), Ok(()));
    assert_eq!(wm.stack_windows(&Vec::new()), Ok(()));
    assert_eq!(
        wm.stack_windows(&vec![finished(true, "", ""), CommandOutcome::NotStarted]),
        Err(BackendError::Activation("Failed to move window".to_string()))
    );
}

#[test]
fn kwin_active_window() {
    let wm = KWinManager;
    assert_eq!(wm.active_window_command(), cmd("xdotool", &["getactivewindow"]));
    assert_eq!(wm.get_active_window(&finished(true, "115343368\n", "")), Ok(115343368));
    assert_eq!(wm.get_active_window(&finished(false, " 42 ", "")), Ok(42));
    assert_eq!(
        wm.get_active_window(&finished(true, "", "")),
        Err(BackendError::QueryFailure("Failed to parse active window ID".to_string()))
    );
    assert_eq!(
        wm.get_active_window(&finished(true, "0x10\n", "")),
        Err(BackendError::QueryFailure("Failed to parse active window ID".to_string()))
    );
    assert_eq!(wm.get_active_window(&finished(true, "0\n", "")), Err(BackendError::NoActiveWindow));
    assert_eq!(
        wm.get_active_window(&CommandOutcome::NotStarted),
        Err(BackendError::QueryFailure("Failed to get active window".to_string()))
    );
}

#[test]
fn kwin_find_by_title() {
    let wm = KWinManager;
    let listing = finished(true, LISTING, "");
    assert_eq!(wm.find_window_by_title(&listing, "Firefox"), Ok(Some(0x03a00003)));
    assert_eq!(wm.find_window_by_title(&listing, "EVE - Pilot One"), Ok(Some(0x06e0000a)));
    assert_eq!(wm.find_window_by_title(&listing, "Pilot One"), Ok(None));
    assert_eq!(wm.find_window_by_title(&listing, "EVE - Broken Id"), Ok(None));
    let twice = finished(true, "junk 0 h Same\n0x7 0 h Same\n0x8 0 h Same\n", "");
    assert_eq!(wm.find_window_by_title(&twice, "Same"), Ok(Some(7)));
    assert_eq!(
        wm.find_window_by_title(&CommandOutcome::NotStarted, "Firefox"),
        Err(BackendError::QueryFailure("Failed to execute wmctrl".to_string()))
    );
}
