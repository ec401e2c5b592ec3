//! The command-line helpers: completion and bounded history.

use babibapp::cli::{BabicliCompletion, BabicliHistory};

#[test]
fn single_match_completes_fully() {
    let c = BabicliCompletion::new(&["show_student", "show_self", "quit"]);
    assert_eq!(c.get("q"), Some("quit".to_string()));
    assert_eq!(c.get("show_st"), Some("show_student".to_string()));
}

#[test]
fn several_matches_complete_to_the_common_prefix() {
    let c = BabicliCompletion::new(&["show_student", "show_self", "show_all_students"]);
    assert_eq!(c.get("show_s"), Some("show_s".to_string()));
    assert_eq!(c.get("show"), Some("show_".to_string()));
    assert_eq!(c.get(""), Some("show_".to_string()));
}

#[test]
fn no_match_completes_to_nothing() {
    let c = BabicliCompletion::new(&["show_student", "quit"]);
    assert_eq!(c.get("x"), None);
    assert_eq!(c.get("quiz"), None);
}

#[test]
fn empty_common_prefix_completes_to_nothing() {
    let c = BabicliCompletion::new(&["alpha", "beta"]);
    assert_eq!(c.get(""), None);
}

#[test]
fn exact_command_completes_to_itself() {
    let c = BabicliCompletion::new(&["quit"]);
    assert_eq!(c.get("quit"), Some("quit".to_string()));
}

#[test]
fn history_reads_back_most_recent_first() {
    let mut h = BabicliHistory::default();
    h.write("first");
    h.write("second");
    assert_eq!(h.read(0), Some("second".to_string()));
    assert_eq!(h.read(1), Some("first".to_string()));
    assert_eq!(h.read(2), None);
}

#[test]
fn history_is_bounded_at_sixteen() {
    let mut h = BabicliHistory::default();
    for i in 0..20 {
        h.write(&format!("line{}", i));
    }
    assert_eq!(h.read(0), Some("line19".to_string()));
    assert_eq!(h.read(15), Some("line4".to_string()));
    assert_eq!(h.read(16), None);
}
