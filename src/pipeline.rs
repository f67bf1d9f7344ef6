use vstd::prelude::*;

use crate::batch::{
    admits, assemble, batch_texts, batches_of, concat, lemma_batches_in_bounds,
    lemma_batches_preserve_texts, texts, BatchAssembler, LogEntry, batch_in_bounds,
};
use crate::line_filter::{accepts, rules_view, should_process_line};

verus! {

/// Whether a raw read ends with its line terminator.
pub open spec fn is_complete(raw: Seq<char>) -> bool {
    raw.len() > 0 && raw.last() == '\n'
}

/// The text of a line: the raw read without its terminator.
pub open spec fn line_text(raw: Seq<char>) -> Seq<char> {
    if is_complete(raw) {
        raw.drop_last()
    } else {
        raw
    }
}

/// The texts of `ts` that the filter accepts, in order.
pub open spec fn accepted_texts(rules: Option<Seq<Seq<char>>>, ts: Seq<Seq<char>>) -> Seq<
    Seq<char>,
>
    decreases ts.len(),
{
    if ts.len() == 0 {
        Seq::empty()
    } else if accepts(rules, ts.last()) {
        accepted_texts(rules, ts.drop_last()).push(ts.last())
    } else {
        accepted_texts(rules, ts.drop_last())
    }
}

/// Filtering is idempotent: every line that the filter accepted is accepted
/// again, so filtering the accepted lines a second time changes nothing.
pub proof fn lemma_filter_idempotent(rules: Option<Seq<Seq<char>>>, ts: Seq<Seq<char>>)
    ensures
        forall|i: int|
            0 <= i < accepted_texts(rules, ts).len() ==> accepts(
                rules,
                #[trigger] accepted_texts(rules, ts)[i],
            ),
        accepted_texts(rules, accepted_texts(rules, ts)) == accepted_texts(rules, ts),
    decreases ts.len(),
{
    if ts.len() > 0 {
        let prev = accepted_texts(rules, ts.drop_last());
        lemma_filter_idempotent(rules, ts.drop_last());
        if accepts(rules, ts.last()) {
            assert(prev.push(ts.last()).drop_last() =~= prev);
        }
    }
}

/// Relies on `chrono::Utc::now` and `DateTime::timestamp_millis`: the current
/// time in milliseconds since the Unix epoch. Nothing is known of its value.
#[verifier::external_body]
fn now_millis() -> (r: i64) {
    chrono::Utc::now().timestamp_millis()
}

/// Relies on `str::strip_suffix` with the pattern `'\n'`: the string without
/// its last character when that is a line feed, and `None` otherwise.
#[verifier::external_body]
fn strip_newline(raw: &str) -> (r: Option<&str>)
    ensures
        r is Some <==> is_complete(raw@),
        r is Some ==> r->0@ == raw@.drop_last(),
{
    raw.strip_suffix('\n')
}

/// What became of one raw read.
pub enum LineOutcome {
    /// The read holds no terminator yet: nothing was taken, and the reader
    /// should come back to it on the next pass.
    Partial,
    /// The line was taken; a batch that it sealed, if any, must be delivered
    /// before reading on.
    Consumed(Option<Vec<LogEntry>>),
}

/// Filters lines and groups the accepted ones into bounded batches.
pub struct LinePipeline {
    rules: Option<Vec<String>>,
    assembler: BatchAssembler,
}

impl LinePipeline {
    pub closed spec fn rules(&self) -> Option<Seq<Seq<char>>> {
        rules_view(&self.rules)
    }

    pub closed spec fn open_texts(&self) -> Seq<Seq<char>> {
        self.assembler.open_texts()
    }

    pub closed spec fn entry_bound(&self) -> nat {
        self.assembler.entry_bound()
    }

    pub closed spec fn byte_bound(&self) -> nat {
        self.assembler.byte_bound()
    }

    pub closed spec fn wf(&self) -> bool {
        self.assembler.wf()
    }

    pub fn new(rules: Option<Vec<String>>, max_entries: usize, max_bytes: usize) -> (r:
        LinePipeline)
        ensures
            r.wf(),
            r.rules() == rules_view(&rules),
            r.open_texts() == Seq::<Seq<char>>::empty(),
            r.entry_bound() == max_entries,
            r.byte_bound() == max_bytes,
    {
        LinePipeline { rules, assembler: BatchAssembler::new(max_entries, max_bytes) }
    }

    /// Number of accepted entries waiting in the open batch.
    pub fn pending(&self) -> (r: usize)
        ensures
            r == self.open_texts().len(),
    {
        self.assembler.pending()
    }

    /// Offers the text of one line: a blank or filtered-out line is dropped;
    /// an accepted one is stamped with the current time and batched.
    pub fn offer_text(&mut self, text: String) -> (r: Option<Vec<LogEntry>>)
        requires
            old(self).wf(),
        ensures
            final(self).wf(),
            final(self).rules() == old(self).rules(),
            final(self).entry_bound() == old(self).entry_bound(),
            final(self).byte_bound() == old(self).byte_bound(),
            !accepts(old(self).rules(), text@) ==> r is None && final(self).open_texts() == old(
                self,
            ).open_texts(),
            accepts(old(self).rules(), text@) && admits(
                old(self).open_texts(),
                text@,
                old(self).entry_bound(),
                old(self).byte_bound(),
            ) ==> r is None && final(self).open_texts() == old(self).open_texts().push(text@),
            accepts(old(self).rules(), text@) && !admits(
                old(self).open_texts(),
                text@,
                old(self).entry_bound(),
                old(self).byte_bound(),
            ) ==> r is Some && texts(r->0@) == old(self).open_texts() && final(self).open_texts()
                == seq![text@],
    {
        if !should_process_line(&self.rules, text.as_str()) {
            return None;
        }
        let entry = LogEntry::new(text, now_millis());
        self.assembler.push(entry)
    }

    /// Offers one raw read. A read without its terminator is left alone;
    /// otherwise its text is offered as by `offer_text`.
    pub fn offer_line(&mut self, raw: &str) -> (r: LineOutcome)
        requires
            old(self).wf(),
        ensures
            final(self).wf(),
            final(self).rules() == old(self).rules(),
            final(self).entry_bound() == old(self).entry_bound(),
            final(self).byte_bound() == old(self).byte_bound(),
            !is_complete(raw@) ==> r is Partial && final(self).open_texts() == old(
                self,
            ).open_texts(),
            is_complete(raw@) ==> r is Consumed,
            is_complete(raw@) && !accepts(old(self).rules(), line_text(raw@)) ==> r == LineOutcome::Consumed(None)
                && final(self).open_texts() == old(self).open_texts(),
            ({
                let t = line_text(raw@);
                is_complete(raw@) && accepts(old(self).rules(), t) && admits(
                    old(self).open_texts(),
                    t,
                    old(self).entry_bound(),
                    old(self).byte_bound(),
                ) ==> r == LineOutcome::Consumed(None) && final(self).open_texts() == old(
                    self,
                ).open_texts().push(t)
            }),
            ({
                let t = line_text(raw@);
                is_complete(raw@) && accepts(old(self).rules(), t) && !admits(
                    old(self).open_texts(),
                    t,
                    old(self).entry_bound(),
                    old(self).byte_bound(),
                ) ==> (r matches LineOutcome::Consumed(Some(b)) && texts(b@) == old(self).open_texts()
                    && final(self).open_texts() == seq![t])
            }),
    {
        match strip_newline(raw) {
            None => LineOutcome::Partial,
            Some(text) => LineOutcome::Consumed(self.offer_text(text.to_owned())),
        }
    }

    /// End of input for this pass: seals and returns the open batch if it holds
    /// anything, so that no entry waits longer than one pass.
    pub fn finish(&mut self) -> (r: Option<Vec<LogEntry>>)
        requires
            old(self).wf(),
        ensures
            final(self).wf(),
            final(self).rules() == old(self).rules(),
            final(self).entry_bound() == old(self).entry_bound(),
            final(self).byte_bound() == old(self).byte_bound(),
            final(self).open_texts() == Seq::<Seq<char>>::empty(),
            old(self).open_texts().len() == 0 ==> r is None,
            old(self).open_texts().len() > 0 ==> r is Some && texts(r->0@) == old(
                self,
            ).open_texts(),
    {
        self.assembler.flush()
    }
}

/// The texts of a sequence of raw lines.
pub open spec fn line_texts(lines: Seq<String>) -> Seq<Seq<char>> {
    lines.map_values(|s: String| line_text(s@))
}

/// The batches that a whole input of raw lines gives, in the order they are
/// handed to the sink.
pub open spec fn delivered(
    rules: Option<Seq<Seq<char>>>,
    lines: Seq<String>,
    max_entries: nat,
    max_bytes: nat,
) -> Seq<Seq<Seq<char>>> {
    batches_of(accepted_texts(rules, line_texts(lines)), max_entries, max_bytes)
}

/// Runs a whole input through filtering and batching and returns the batches
/// in the order they would be delivered. Each line may end with its
/// terminator or not; either way it counts as a complete line.
pub fn plan_batches(
    rules: Option<Vec<String>>,
    lines: &Vec<String>,
    max_entries: usize,
    max_bytes: usize,
) -> (r: Vec<Vec<LogEntry>>)
    ensures
        batch_texts(r@) == delivered(rules_view(&rules), lines@, max_entries as nat, max_bytes as nat),
{
    let ghost rv = rules_view(&rules);
    let ghost all = line_texts(lines@);
    let mut p = LinePipeline::new(rules, max_entries, max_bytes);
    let mut out: Vec<Vec<LogEntry>> = Vec::new();
    let mut i: usize = 0;
    while i < lines.len()
        invariant
            i <= lines.len(),
            all == line_texts(lines@),
            p.wf(),
            p.rules() == rv,
            p.entry_bound() == max_entries,
            p.byte_bound() == max_bytes,
            batch_texts(out@) == assemble(
                accepted_texts(rv, all.subrange(0, i as int)),
                max_entries as nat,
                max_bytes as nat,
            ).0,
            p.open_texts() == assemble(
                accepted_texts(rv, all.subrange(0, i as int)),
                max_entries as nat,
                max_bytes as nat,
            ).1,
        decreases lines.len() - i,
    {
        let raw = lines[i].as_str();
        let text: &str = match strip_newline(raw) {
            Some(t) => t,
            None => raw,
        };
        let ghost t = text@;
        assert(t == all[i as int]);
        let ghost before = accepted_texts(rv, all.subrange(0, i as int));
        assert(all.subrange(0, i as int + 1).drop_last() =~= all.subrange(0, i as int));
        let sealed = p.offer_text(text.to_owned());
        proof {
            if accepts(rv, t) {
                assert(before.push(t).drop_last() =~= before);
            }
        }
        match sealed {
            Some(b) => {
                let ghost prev = out@;
                out.push(b);
                assert(batch_texts(out@) =~= batch_texts(prev).push(texts(b@)));
            },
            None => {},
        }
        i = i + 1;
    }
    let last = p.finish();
    match last {
        Some(b) => {
            let ghost prev = out@;
            out.push(b);
            assert(batch_texts(out@) =~= batch_texts(prev).push(texts(b@)));
        },
        None => {},
    }
    assert(all.subrange(0, lines.len() as int) =~= all);
    out
}

/// Every accepted line reaches the sink exactly once and in input order: the
/// delivered batches, joined, are the accepted line texts.
pub proof fn lemma_delivery_complete_and_ordered(
    rules: Option<Seq<Seq<char>>>,
    lines: Seq<String>,
    max_entries: nat,
    max_bytes: nat,
)
    ensures
        concat(delivered(rules, lines, max_entries, max_bytes)) == accepted_texts(
            rules,
            line_texts(lines),
        ),
{
    lemma_batches_preserve_texts(accepted_texts(rules, line_texts(lines)), max_entries, max_bytes);
}

/// Every delivered batch holds between one and `max_entries` entries and at
/// most `max_bytes` bytes, unless it is a single entry that alone is larger.
pub proof fn lemma_delivered_in_bounds(
    rules: Option<Seq<Seq<char>>>,
    lines: Seq<String>,
    max_entries: nat,
    max_bytes: nat,
)
    requires
        max_entries >= 1,
    ensures
        forall|i: int|
            0 <= i < delivered(rules, lines, max_entries, max_bytes).len() ==> batch_in_bounds(
                #[trigger] delivered(rules, lines, max_entries, max_bytes)[i],
                max_entries,
                max_bytes,
            ),
{
    lemma_batches_in_bounds(accepted_texts(rules, line_texts(lines)), max_entries, max_bytes);
}

} // verus!
