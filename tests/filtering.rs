use log_forwarder::line_filter::{line_is_blank, matches_any_rule, should_process_line};

fn rules(rs: &[&str]) -> Option<Vec<String>> {
    Some(rs.iter().map(|s| s.to_string()).collect())
}

#[test]
fn blank_lines_are_rejected_even_without_rules() {
    assert!(!should_process_line(&None, ""));
    assert!(!should_process_line(&None, "   \t "));
    assert!(!should_process_line(&rules(&[" "]), "    "));
    assert!(line_is_blank(" \u{a0}\u{3000}"));
    assert!(!line_is_blank(" x "));
}

#[test]
fn no_rules_accepts_every_non_blank_line() {
    assert!(should_process_line(&None, "anything at all"));
}

#[test]
fn a_line_passes_when_it_holds_any_rule() {
    let r = rules(&["ERROR", "WARN"]);
    assert!(should_process_line(&r, "2024 WARN disk"));
    assert!(should_process_line(&r, "ERROR boom"));
    assert!(!should_process_line(&r, "info ok"));
}

#[test]
fn matching_is_case_sensitive() {
    let r = rules(&["ERROR"]);
    assert!(!should_process_line(&r, "error lower case"));
}

#[test]
fn empty_rule_list_rejects_everything() {
    let r = rules(&[]);
    assert!(!should_process_line(&r, "ERROR boom"));
    assert!(!matches_any_rule(&Vec::new(), "ERROR boom"));
}

#[test]
fn accepting_twice_gives_true_again() {
    let r = rules(&["ERROR"]);
    let line = "ERROR boom";
    assert!(should_process_line(&r, line));
    assert!(should_process_line(&r, line));
}
