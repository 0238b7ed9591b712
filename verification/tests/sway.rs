use eve_multibox::command::{Command, CommandOutcome, CommandOutput};
use eve_multibox::config::Config;
use eve_multibox::error::{BackendError, ErrorKind};
use eve_multibox::sway::{SwayManager, SwayWindow};
use eve_multibox::window::EveWindow;

const TREE: &str = r#"{
  "id": 1, "type": "root", "name": "root",
  "nodes": [
    { "id": 2, "type": "output", "name": "DP-1",
      "nodes": [
        { "id": 3, "type": "workspace", "name": "1",
          "nodes": [
            { "id": 10, "type": "con", "name": "EVE - Pilot One", "app_id": null,
              "window_properties": { "class": "steam_app_8500" }, "focused": false,
              "nodes": [], "floating_nodes": [] },
            { "id": 11, "type": "con", "name": "Terminal", "app_id": "foot", "focused": true,
              "nodes": [], "floating_nodes": [] },
            { "id": 12, "type": "con", "name": "split", "app_id": null, "window_properties": null,
              "nodes": [
                { "id": 13, "type": "con", "name": "EVE - Launcher", "app_id": "launcher", "focused": false }
              ] }
          ],
          "floating_nodes": [
            { "id": 4294967316, "type": "floating_con", "name": "EVE - Pilot Two", "app_id": "eve",
              "focused": false }
          ] }
      ] }
  ],
  "floating_nodes": [
    { "id": 30, "type": "floating_con", "name": "EVE - Last", "app_id": "eve", "focused": "yes" }
  ]
}"#;

fn finished(success: bool, stdout: &str, stderr: &str) -> CommandOutcome {
    CommandOutcome::Finished(CommandOutput {
        success,
        stdout: stdout.as_bytes().to_vec(),
        stderr: stderr.as_bytes().to_vec(),
    })
}

fn cmd(program: &str, args: &[&str]) -> Command {
    Command { program: program.to_string(), args: args.iter().map(|a| a.to_string()).collect() }
}

fn container(name: Option<&str>, id: Option<u64>, focused: Option<bool>) -> SwayWindow {
    SwayWindow { name: name.map(|n| n.to_string()), id, focused }
}

fn window(id: u32, title: &str) -> EveWindow {
    EveWindow { id, title: title.to_string() }
}

#[test]
fn sway_probe() {
    assert_eq!(SwayManager::probe_command(), cmd("swaymsg", &["--version"]));
    assert_eq!(SwayManager::new(&finished(true, "sway version 1.9", "")), Ok(SwayManager));
    let err = SwayManager::new(&CommandOutcome::NotStarted).unwrap_err();
    assert_eq!(err.kind(), ErrorKind::Unavailable);
    assert_eq!(err.message(), "swaymsg not found. Make sure you're running Sway");
}

#[test]
fn sway_tree_walk_order() {
    let wm = SwayManager;
    assert_eq!(wm.tree_command(), cmd("swaymsg", &["-t", "get_tree"]));
    assert_eq!(
        wm.get_all_windows(&finished(true, TREE, "")),
        Ok(vec![
            container(Some("EVE - Pilot One"), Some(10), Some(false)),
            container(Some("Terminal"), Some(11), Some(true)),
            container(Some("EVE - Launcher"), Some(13), Some(false)),
            container(Some("EVE - Pilot Two"), Some(4294967316), Some(false)),
            container(Some("EVE - Last"), Some(30), None),
        ])
    );
}

#[test]
fn sway_window_nodes() {
    let wm = SwayManager;
    let one = |json: &str| wm.get_all_windows(&finished(true, json, "")).unwrap();
    assert_eq!(one(r#"{"type":"con","app_id":"a"}"#), vec![container(None, None, None)]);
    assert_eq!(one(r#"{"type":"floating_con","window_properties":{}}"#).len(), 1);
    assert_eq!(one(r#"{"type":"con","app_id":null,"window_properties":{"class":"x"}}"#).len(), 1);
    assert_eq!(one(r#"{"type":"con","app_id":null}"#).len(), 0);
    assert_eq!(one(r#"{"type":"con"}"#).len(), 0);
    assert_eq!(one(r#"{"type":"workspace","app_id":"a"}"#).len(), 0);
    assert_eq!(one(r#"{"type":7,"app_id":"a"}"#).len(), 0);
    assert_eq!(one(r#"{"app_id":"a"}"#).len(), 0);
    assert_eq!(one(r#"[{"type":"con","app_id":"a"}]"#).len(), 0);
    assert_eq!(one("null").len(), 0);
    assert_eq!(one(r#"{"type":"con","app_id":false,"id":-4,"name":5,"focused":1}"#), vec![container(None, None, None)]);
    assert_eq!(one(r#"{"type":"con","app_id":"a","id":7.5}"#), vec![container(None, None, None)]);
    assert_eq!(one(r#"{"nodes":{"type":"con","app_id":"a"}}"#).len(), 0);
    assert_eq!(
        one(r#"{"type":"con","app_id":"a","id":1,"nodes":[{"type":"con","app_id":"b","id":2}],"floating_nodes":[{"type":"con","app_id":"c","id":3}]}"#),
        vec![container(None, Some(1), None), container(None, Some(2), None), container(None, Some(3), None)]
    );
}

#[test]
fn sway_query_failures() {
    let wm = SwayManager;
    assert_eq!(
        wm.get_all_windows(&CommandOutcome::NotStarted),
        Err(BackendError::QueryFailure("Failed to execute swaymsg".to_string()))
    );
    assert_eq!(
        wm.get_all_windows(&finished(false, TREE, "no socket")),
        Err(BackendError::QueryFailure("swaymsg failed: no socket".to_string()))
    );
    for bad in ["", "{", "{} trailing", "{'type':'con'}"] {
        assert_eq!(
            wm.get_eve_windows(&finished(true, bad, "")),
            Err(BackendError::QueryFailure("Failed to parse swaymsg output".to_string())),
            "{:?}",
            bad
        );
    }
}

#[test]
fn sway_eve_windows_are_filtered() {
    let wm = SwayManager;
    assert_eq!(
        wm.get_eve_windows(&finished(true, TREE, "")),
        Ok(vec![window(10, "Pilot One"), window(20, "Pilot Two"), window(30, "Last")])
    );
    let zero = r#"{"nodes":[{"type":"con","app_id":"e","name":"EVE - Zero","id":0},
        {"type":"con","app_id":"e","name":"EVE - Wrapped","id":4294967296},
        {"type":"con","app_id":"e","name":"EVE - No Id"},
        {"type":"con","app_id":"e","id":5}]}"#;
    assert_eq!(wm.get_eve_windows(&finished(true, zero, "")), Ok(Vec::new()));
}

#[test]
fn sway_window_fields() {
    let w = container(Some("EVE - Pilot"), Some(0x1_0000_0007), Some(true));
    assert_eq!(SwayManager::get_window_title(&w), Some("EVE - Pilot".to_string()));
    assert_eq!(SwayManager::get_window_id(&w), Some(7));
    assert_eq!(SwayManager::focused_window_id(&w), Some(7));
    assert_eq!(SwayManager::titled_window_id(&w, "EVE - Pilot"), Some(7));
    assert_eq!(SwayManager::titled_window_id(&w, "Pilot"), None);
    let none = container(None, None, None);
    assert_eq!(SwayManager::get_window_title(&none), None);
    assert_eq!(SwayManager::get_window_id(&none), None);
    assert_eq!(SwayManager::focused_window_id(&none), None);
    assert_eq!(SwayManager::focused_window_id(&container(None, Some(7), Some(false))), None);
    assert_eq!(SwayManager::focused_window_id(&container(None, Some(0), Some(true))), None);
}

#[test]
fn sway_activation() {
    let wm = SwayManager;
    assert_eq!(wm.activate_command(10), cmd("swaymsg", &["[con_id=10] focus"]));
    assert_eq!(wm.activate_window(&finished(true, "", "")), Ok(()));
    assert_eq!(
        wm.activate_window(&finished(false, "", "Error: no matching node")),
        Err(BackendError::Activation("Failed to activate window: Error: no matching node".to_string()))
    );
}

#[test]
fn sway_stacking_floats_before_it_moves() {
    let wm = SwayManager;
    let config = Config { display_width: 1920, display_height: 1080, panel_height: 30, eve_width: 1036, eve_height: 1080 };
    assert_eq!(
        wm.stack_commands(&vec![window(10, "A"), window(20, "B")], &config),
        vec![
            cmd("swaymsg", &["[con_id=10] floating enable"]),
            cmd("swaymsg", &["[con_id=10] move position 442 0"]),
            cmd("swaymsg", &["[con_id=10] resize set 1036 1050"]),
            cmd("swaymsg", &["[con_id=20] floating enable"]),
            cmd("swaymsg", &["[con_id=20] move position 442 0"]),
            cmd("swaymsg", &["[con_id=20] resize set 1036 1050"]),
        ]
    );
    assert!(wm.stack_commands(&Vec::new(), &config).is_empty());
    assert_eq!(wm.stack_windows(&vec![finished(false, "", "")]), Ok(()));
    assert_eq!(
        wm.stack_windows(&vec![CommandOutcome::NotStarted]),
        Err(BackendError::Activation("Failed to move window".to_string()))
    );
}

#[test]
fn sway_active_window() {
    let wm = SwayManager;
    assert_eq!(wm.get_active_window(&finished(true, TREE, "")), Ok(11));
    let err = wm.get_active_window(&finished(true, r#"{"type":"con","app_id":"a","id":1}"#, "")).unwrap_err();
    assert_eq!(err, BackendError::NoActiveWindow);
    assert_eq!(err.message(), "No active window found");
    let two = r#"{"nodes":[{"type":"con","app_id":"a","focused":true},
        {"type":"con","app_id":"a","id":8,"focused":true},{"type":"con","app_id":"a","id":9,"focused":true}]}"#;
    assert_eq!(wm.get_active_window(&finished(true, two, "")), Ok(8));
    assert_eq!(
        wm.get_active_window(&finished(true, "not json", "")),
        Err(BackendError::QueryFailure("Failed to parse swaymsg output".to_string()))
    );
}

#[test]
fn sway_find_by_title() {
    let wm = SwayManager;
    let tree = finished(true, TREE, "");
    assert_eq!(wm.find_window_by_title(&tree, "Terminal"), Ok(Some(11)));
    assert_eq!(wm.find_window_by_title(&tree, "EVE - Pilot Two"), Ok(Some(20)));
    assert_eq!(wm.find_window_by_title(&tree, "Pilot Two"), Ok(None));
    assert_eq!(wm.find_window_by_title(&tree, "split"), Ok(None));
    assert_eq!(
        wm.find_window_by_title(&finished(false, "", "x"), "Terminal"),
        Err(BackendError::QueryFailure("swaymsg failed: x".to_string()))
    );
}
