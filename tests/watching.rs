use log_forwarder::log_watcher::LogWatcher;
use log_forwarder::pipeline::LineOutcome;
use log_forwarder::watch_state::{PassStart, Phase, WatchState};
use log_forwarder::watcher_config::WatcherConfig;

fn config(filter: Option<Vec<String>>) -> WatcherConfig {
    WatcherConfig {
        log_path: "/var/log/app.log".to_string(),
        batch_size: Some(10),
        retry_attempts: Some(3),
        retry_delay_ms: Some(1000),
        filter,
    }
}

#[test]
fn truncation_restarts_from_the_first_byte() {
    let mut s = WatchState::new(100);
    assert_eq!(s.read_cursor(), 100);
    assert_eq!(s.begin_pass(10), PassStart::Rotated);
    assert_eq!(s.read_cursor(), 0);
    s.advance(4);
    assert_eq!(s.begin_pass(20), PassStart::Continue);
    assert_eq!(s.read_cursor(), 4);
    assert_eq!(s.last_known_size(), 20);
}

#[test]
fn recreated_file_is_read_from_its_start() {
    let mut s = WatchState::new(50);
    s.file_missing();
    assert_eq!(s.phase(), Phase::AwaitingFile);
    s.file_reappeared();
    assert_eq!(s.phase(), Phase::Idle);
    assert_eq!(s.read_cursor(), 0);
    assert_eq!(s.begin_pass(8), PassStart::Continue);
    assert_eq!(s.read_cursor(), 0);
}

#[test]
fn watcher_reads_rotated_content_from_byte_zero() {
    let mut w = LogWatcher::init(config(None), 100);
    assert_eq!(w.begin_pass(10), PassStart::Rotated);
    assert_eq!(w.read_cursor(), 0);
    assert!(matches!(w.offer_line("new\n"), LineOutcome::Consumed(None)));
    assert_eq!(w.read_cursor(), 4);
    let b = w.finish_pass().expect("batch");
    assert_eq!(b[0].content(), "new");
}

#[test]
fn watcher_counts_consumed_bytes_and_skips_partial_lines() {
    let mut w = LogWatcher::init(config(Some(vec!["ERROR".to_string()])), 0);
    assert!(matches!(w.offer_line("info é\n"), LineOutcome::Consumed(None)));
    assert_eq!(w.read_cursor(), 8);
    assert!(matches!(w.offer_line("ERROR half"), LineOutcome::Partial));
    assert_eq!(w.read_cursor(), 8);
    assert!(w.finish_pass().is_none());
}

#[test]
fn only_modifications_of_the_log_file_are_relevant() {
    let w = LogWatcher::init(config(None), 0);
    let here = vec!["/var/log/app.log".to_string()];
    let other = vec!["/var/log/other.log".to_string()];
    assert!(w.is_relevant(true, &here));
    assert!(!w.is_relevant(true, &other));
    assert!(!w.is_relevant(false, &here));
    assert_eq!(w.log_path_str(), "/var/log/app.log");
}

#[test]
fn delivery_follows_configured_policy() {
    let w = LogWatcher::init(config(None), 0);
    let d = w.start_delivery();
    assert_eq!(d.failures(), 0);
}

#[test]
fn defaults_match_documented_values() {
    let c = WatcherConfig::default();
    assert_eq!(c.log_path, "solana-validator.log");
    assert_eq!(c.max_entries(), 10);
    assert_eq!(c.retries(), 3);
    assert_eq!(c.retry_delay(), 1000);
    assert!(c.filter.is_none());
    let empty = WatcherConfig { log_path: String::new(), batch_size: None, retry_attempts: None, retry_delay_ms: None, filter: None };
    assert_eq!(empty.max_entries(), 10);
    assert_eq!(empty.retries(), 3);
    assert_eq!(empty.retry_delay(), 1000);
}
