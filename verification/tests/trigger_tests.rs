use pomodomo::session::Config;
use pomodomo::session::{handle_message, respond};
use pomodomo::trigger::{is_trigger, trigger_text};

#[test]
fn trigger_text_is_the_command_with_trailing_space() {
    assert_eq!(trigger_text(), "!pomodomo ");
}

#[test]
fn exact_trigger_matches() {
    assert!(is_trigger("!pomodomo "));
}

#[test]
fn near_misses_do_not_match() {
    assert!(!is_trigger("!pomodomo"));
    assert!(!is_trigger("!pomodomo  "));
    assert!(!is_trigger(" !pomodomo "));
    assert!(!is_trigger("!Pomodomo "));
    assert!(!is_trigger("pomodomo "));
    assert!(!is_trigger("!pomodomo please"));
    assert!(!is_trigger(""));
    assert!(!is_trigger("hello"));
}

#[test]
fn non_trigger_creates_no_session() {
    let cfg = Config::default_table();
    assert!(handle_message("!pomodomo", cfg).is_none());
    assert!(handle_message("start a timer", cfg).is_none());
    assert!(respond("!pomodomo", cfg).is_none());
    assert!(respond("", cfg).is_none());
}

#[test]
fn trigger_creates_a_fresh_session() {
    let cfg = Config::default_table();
    let session = handle_message("!pomodomo ", cfg).expect("trigger should start a session");
    assert_eq!(session.config, cfg);
    assert!(!session.is_done());
}
