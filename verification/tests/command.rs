use eve_multibox::backend::{read_activation, read_stacking};
use eve_multibox::command::{chain, every_started, Command, CommandOutcome, CommandOutput};
use eve_multibox::error::{BackendError, ErrorKind};

fn done(success: bool) -> CommandOutcome {
    CommandOutcome::Finished(CommandOutput { success, stdout: Vec::new(), stderr: vec![0x6f, 0x68, 0xff] })
}

#[test]
fn commands_are_built_argument_by_argument() {
    let c = Command::new("wmctrl");
    assert_eq!(c.program, "wmctrl");
    assert!(c.args.is_empty());
    let c = c.arg("-i").arg("-a").arg("0x1");
    assert_eq!(c.args, vec!["-i", "-a", "0x1"]);
    assert_eq!(chain("wmctrl failed: ", "x"), "wmctrl failed: x");
    assert_eq!(chain("", ""), "");
}

#[test]
fn started_or_not() {
    assert!(every_started(&Vec::new()));
    assert!(every_started(&vec![done(true), done(false)]));
    assert!(!every_started(&vec![done(true), CommandOutcome::NotStarted, done(true)]));
}

#[test]
fn reading_outcomes() {
    assert_eq!(read_activation(&done(true)), Ok(()));
    assert_eq!(
        read_activation(&done(false)),
        Err(BackendError::Activation("Failed to activate window: oh\u{fffd}".to_string()))
    );
    assert_eq!(read_stacking(&vec![done(false)]), Ok(()));
    assert_eq!(
        read_stacking(&vec![CommandOutcome::NotStarted]),
        Err(BackendError::Activation("Failed to move window".to_string()))
    );
}

#[test]
fn error_kinds_and_messages() {
    let cases = [
        (BackendError::Unavailable("a".to_string()), ErrorKind::Unavailable, "a"),
        (BackendError::QueryFailure("b".to_string()), ErrorKind::QueryFailure, "b"),
        (BackendError::Activation("c".to_string()), ErrorKind::Activation, "c"),
        (BackendError::NoActiveWindow, ErrorKind::NoActiveWindow, "No active window found"),
    ];
    for (error, kind, message) in cases {
        assert_eq!(error.kind(), kind);
        assert_eq!(error.message(), message);
    }
}
