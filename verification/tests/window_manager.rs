use eve_multibox::command::{Command, CommandOutcome, CommandOutput};
use eve_multibox::config::Config;
use eve_multibox::error::BackendError;
use eve_multibox::hyprland::HyprlandManager;
use eve_multibox::kwin::KWinManager;
use eve_multibox::sway::SwayManager;
use eve_multibox::window::EveWindow;
use eve_multibox::window_manager::WindowManager;

fn finished(stdout: &str) -> CommandOutcome {
    CommandOutcome::Finished(CommandOutput {
        success: true,
        stdout: stdout.as_bytes().to_vec(),
        stderr: Vec::new(),
    })
}

fn cmd(program: &str, args: &[&str]) -> Command {
    Command { program: program.to_string(), args: args.iter().map(|a| a.to_string()).collect() }
}

fn pilot(id: u32) -> Vec<EveWindow> {
    vec![EveWindow { id, title: "Pilot One".to_string() }]
}

fn managers() -> [(WindowManager, &'static str, &'static str); 3] {
    [
        (
            WindowManager::KWin(KWinManager),
            "0x06e00008 0 host EVE - Pilot One\n0x1 0 host EVE - Launcher\n0x0 0 host EVE - Null\n",
            "115343368\n",
        ),
        (
            WindowManager::Sway(SwayManager),
            r#"{"nodes":[{"type":"con","app_id":"e","id":115343368,"name":"EVE - Pilot One","focused":true},
                {"type":"con","app_id":"e","id":1,"name":"EVE - Launcher"},
                {"type":"con","app_id":"e","id":0,"name":"EVE - Null"}]}"#,
            r#"{"nodes":[{"type":"con","app_id":"e","id":115343368,"name":"EVE - Pilot One","focused":true}]}"#,
        ),
        (
            WindowManager::Hyprland(HyprlandManager),
            r#"[{"address":"0x6e00008","title":"EVE - Pilot One"},{"address":"0x1","title":"EVE - Launcher"},
                {"address":"0x0","title":"EVE - Null"}]"#,
            r#"{"address":"0x6e00008","title":"EVE - Pilot One"}"#,
        ),
    ]
}

#[test]
fn every_backend_applies_the_same_filter() {
    for (wm, listing, _) in managers() {
        assert_eq!(wm.get_eve_windows(&finished(listing)), Ok(pilot(0x06e00008)));
    }
}

#[test]
fn every_backend_finds_by_full_title() {
    for (wm, listing, _) in managers() {
        let listing = finished(listing);
        assert_eq!(wm.find_window_by_title(&listing, "EVE - Pilot One"), Ok(Some(0x06e00008)));
        assert_eq!(wm.find_window_by_title(&listing, "EVE - Launcher"), Ok(Some(1)));
        assert_eq!(wm.find_window_by_title(&listing, "EVE - Null"), Ok(None));
        assert_eq!(wm.find_window_by_title(&listing, "Pilot One"), Ok(None));
    }
}

#[test]
fn every_backend_reads_its_own_id_form_back() {
    for (wm, _, active) in managers() {
        assert_eq!(wm.get_active_window(&finished(active)), Ok(0x06e00008));
        assert!(wm.get_active_window(&CommandOutcome::NotStarted).is_err());
    }
}

#[test]
fn requests_of_the_backends() {
    let [(kwin, _, _), (sway, _, _), (hyprland, _, _)] = managers();
    assert_eq!(kwin.windows_command(), cmd("wmctrl", &["-l"]));
    assert_eq!(sway.windows_command(), cmd("swaymsg", &["-t", "get_tree"]));
    assert_eq!(hyprland.windows_command(), cmd("hyprctl", &["clients", "-j"]));
    assert_eq!(kwin.active_window_command(), cmd("xdotool", &["getactivewindow"]));
    assert_eq!(sway.active_window_command(), cmd("swaymsg", &["-t", "get_tree"]));
    assert_eq!(hyprland.active_window_command(), cmd("hyprctl", &["activewindow", "-j"]));
    assert_eq!(kwin.activate_command(0x06e00008), cmd("wmctrl", &["-i", "-a", "0x06e00008"]));
    assert_eq!(sway.activate_command(0x06e00008), cmd("swaymsg", &["[con_id=115343368] focus"]));
    assert_eq!(
        hyprland.activate_command(0x06e00008),
        cmd("hyprctl", &["dispatch", "focuswindow", "address:0x6e00008"])
    );
}

#[test]
fn stacking_through_the_capability() {
    let config = Config { display_width: 1920, display_height: 1080, panel_height: 0, eve_width: 1036, eve_height: 1080 };
    let counts = [1usize, 3, 3];
    for ((wm, _, _), per_window) in managers().into_iter().zip(counts) {
        assert_eq!(wm.stack_commands(&pilot(7), &config).len(), per_window);
        assert_eq!(wm.stack_windows(&vec![finished("")]), Ok(()));
        assert_eq!(
            wm.stack_windows(&vec![CommandOutcome::NotStarted]),
            Err(BackendError::Activation("Failed to move window".to_string()))
        );
        assert_eq!(wm.activate_window(&finished("")), Ok(()));
    }
}
