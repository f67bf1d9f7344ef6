use log_forwarder::batch::{BatchAssembler, LogEntry};
use log_forwarder::pipeline::{plan_batches, LineOutcome, LinePipeline};

fn lines(ls: &[&str]) -> Vec<String> {
    ls.iter().map(|s| s.to_string()).collect()
}

fn contents(batches: &[Vec<LogEntry>]) -> Vec<Vec<String>> {
    batches
        .iter()
        .map(|b| b.iter().map(|e| e.content().to_string()).collect())
        .collect()
}

#[test]
fn filtered_example_gives_one_batch_of_two() {
    let input = lines(&["ERROR boom\n", "info ok\n", "ERROR again\n"]);
    let out = plan_batches(Some(vec!["ERROR".to_string()]), &input, 10, 1_048_576);
    assert_eq!(contents(&out), vec![vec!["ERROR boom".to_string(), "ERROR again".to_string()]]);
}

#[test]
fn count_bound_splits_batches() {
    let input = lines(&["a\n", "b\n", "c\n", "d\n", "e\n"]);
    let out = plan_batches(None, &input, 2, 1_000);
    assert_eq!(
        contents(&out),
        vec![vec!["a", "b"], vec!["c", "d"], vec!["e"]]
            .into_iter()
            .map(|b| b.into_iter().map(String::from).collect::<Vec<_>>())
            .collect::<Vec<_>>()
    );
}

#[test]
fn byte_bound_splits_batches() {
    let input = lines(&["aaaa\n", "bbbb\n", "cc\n"]);
    let out = plan_batches(None, &input, 10, 6);
    assert_eq!(contents(&out).len(), 2);
    assert_eq!(contents(&out)[0], vec!["aaaa".to_string()]);
    assert_eq!(contents(&out)[1], vec!["bbbb".to_string(), "cc".to_string()]);
}

#[test]
fn oversized_entry_goes_out_alone() {
    let input = lines(&["x\n", "0123456789\n", "y\n"]);
    let out = plan_batches(None, &input, 10, 4);
    assert_eq!(
        contents(&out),
        vec![vec!["x".to_string()], vec!["0123456789".to_string()], vec!["y".to_string()]]
    );
    for b in &out {
        assert!(b.len() <= 10);
    }
}

#[test]
fn every_accepted_line_is_delivered_once_in_order() {
    let input = lines(&["1\n", "\n", "2\n", "skip\n", "3\n", "4\n", "5\n"]);
    let out = plan_batches(Some(vec!["1".into(), "2".into(), "3".into(), "4".into(), "5".into()]), &input, 2, 100);
    let flat: Vec<String> = contents(&out).into_iter().flatten().collect();
    assert_eq!(flat, vec!["1", "2", "3", "4", "5"]);
    for b in &out {
        assert!(!b.is_empty() && b.len() <= 2);
    }
}

#[test]
fn empty_input_gives_no_batches() {
    assert!(plan_batches(None, &Vec::new(), 10, 100).is_empty());
}

#[test]
fn byte_size_counts_utf8_bytes() {
    let e = LogEntry::new("é€".to_string(), 7);
    assert_eq!(e.byte_size(), 5);
    assert_eq!(e.timestamp_millis(), 7);
    let input = lines(&["éé\n", "é\n"]);
    let out = plan_batches(None, &input, 10, 5);
    assert_eq!(contents(&out).len(), 2);
}

#[test]
fn assembler_seals_only_when_an_entry_does_not_fit() {
    let mut a = BatchAssembler::new(2, 100);
    assert!(a.push(LogEntry::new("a".into(), 0)).is_none());
    assert!(a.push(LogEntry::new("b".into(), 0)).is_none());
    let sealed = a.push(LogEntry::new("c".into(), 0)).expect("sealed");
    assert_eq!(sealed.len(), 2);
    assert_eq!(a.pending(), 1);
    let last = a.flush().expect("flushed");
    assert_eq!(last[0].content(), "c");
    assert!(a.flush().is_none());
}

#[test]
fn partial_line_is_left_for_the_next_pass() {
    let mut p = LinePipeline::new(None, 10, 100);
    assert!(matches!(p.offer_line("no terminator"), LineOutcome::Partial));
    assert_eq!(p.pending(), 0);
    assert!(matches!(p.offer_line("done\n"), LineOutcome::Consumed(None)));
    assert_eq!(p.pending(), 1);
    let b = p.finish().expect("flushed");
    assert_eq!(b[0].content(), "done");
}
