use eve_multibox::window::{eve_prefix, filter_window, launcher, passes_filter, EveWindow};
use eve_multibox::text::to_chars;

#[test]
fn pilot_title_qualifies_and_loses_its_prefix() {
    assert_eq!(
        filter_window(7, "EVE - Pilot One"),
        Some(EveWindow { id: 7, title: "Pilot One".to_string() })
    );
}

#[test]
fn launcher_is_excluded() {
    assert_eq!(filter_window(7, "EVE - Launcher"), None);
    assert_eq!(filter_window(7, "EVE - My Launcher Alt"), None);
}

#[test]
fn other_applications_are_excluded() {
    assert_eq!(filter_window(7, "Firefox"), None);
    assert_eq!(filter_window(7, "EVE"), None);
    assert_eq!(filter_window(7, "EVE -"), None);
    assert_eq!(filter_window(7, " EVE - Pilot"), None);
    assert_eq!(filter_window(7, "eve - Pilot"), None);
    assert_eq!(filter_window(7, ""), None);
}

#[test]
fn reserved_id_is_discarded() {
    assert_eq!(filter_window(0, "EVE - Pilot One"), None);
}

#[test]
fn bare_prefix_gives_an_empty_title() {
    assert_eq!(filter_window(1, "EVE - "), Some(EveWindow { id: 1, title: String::new() }));
}

#[test]
fn only_one_prefix_is_stripped() {
    assert_eq!(
        filter_window(1, "EVE - EVE - Twice"),
        Some(EveWindow { id: 1, title: "EVE - Twice".to_string() })
    );
}

#[test]
fn lowercase_launcher_is_no_launcher() {
    assert_eq!(
        filter_window(3, "EVE - launcher"),
        Some(EveWindow { id: 3, title: "launcher".to_string() })
    );
}

#[test]
fn filter_on_characters() {
    assert!(passes_filter(&to_chars("EVE - Pilot One")));
    assert!(!passes_filter(&to_chars("EVE - Launcher")));
    assert!(!passes_filter(&to_chars("Firefox")));
    assert_eq!(eve_prefix(), to_chars("EVE - "));
    assert_eq!(launcher(), to_chars("Launcher"));
}

#[test]
fn duplicate_keeps_the_window() {
    let w = EveWindow { id: 9, title: "Pilot".to_string() };
    assert_eq!(w.duplicate(), w);
}
