use vstd::prelude::*;

use crate::batch::{texts, LogEntry, admits};
use crate::delivery::Delivery;
use crate::line_filter::{accepts, rules_view};
use crate::pipeline::{is_complete, line_text, LineOutcome, LinePipeline};
use crate::watch_state::{concerns_log, is_relevant_event, PassStart, Phase, WatchState};
use crate::watcher_config::{or_default, WatcherConfig, DEFAULT_BATCH_SIZE, DEFAULT_RETRY_ATTEMPTS, DEFAULT_RETRY_DELAY_MS, MAX_BATCH_BYTES};

verus! {

/// The state of one tailed file: its configuration, read position and the
/// batch being assembled. The caller owns the file handle and the sink; it
/// reports what it observes and performs what it is told.
pub struct LogWatcher {
    config: WatcherConfig,
    state: WatchState,
    pipeline: LinePipeline,
}

impl LogWatcher {
    pub closed spec fn log_path(&self) -> Seq<char> {
        self.config.log_path@
    }

    pub closed spec fn cursor(&self) -> u64 {
        self.state.cursor()
    }

    pub closed spec fn known_size(&self) -> u64 {
        self.state.known_size()
    }

    pub closed spec fn current_phase(&self) -> Phase {
        self.state.current_phase()
    }

    pub closed spec fn rules(&self) -> Option<Seq<Seq<char>>> {
        self.pipeline.rules()
    }

    pub closed spec fn open_texts(&self) -> Seq<Seq<char>> {
        self.pipeline.open_texts()
    }

    pub closed spec fn entry_bound(&self) -> nat {
        self.pipeline.entry_bound()
    }

    pub closed spec fn byte_bound(&self) -> nat {
        self.pipeline.byte_bound()
    }

    pub closed spec fn retry_bound(&self) -> nat {
        or_default(self.config.retry_attempts, DEFAULT_RETRY_ATTEMPTS) as nat
    }

    pub closed spec fn delay(&self) -> u64 {
        or_default(self.config.retry_delay_ms, DEFAULT_RETRY_DELAY_MS)
    }

    pub closed spec fn wf(&self) -> bool {
        self.pipeline.wf()
    }

    /// A watcher for the file that `config` names, whose size is
    /// `size_at_start` now: reading starts at its end.
    pub fn init(config: WatcherConfig, size_at_start: u64) -> (r: LogWatcher)
        ensures
            r.wf(),
            r.log_path() == config.log_path@,
            r.cursor() == size_at_start,
            r.known_size() == size_at_start,
            r.current_phase() == Phase::Idle,
            r.rules() == rules_view(&config.filter),
            r.open_texts() == Seq::<Seq<char>>::empty(),
            r.entry_bound() == or_default(config.batch_size, DEFAULT_BATCH_SIZE),
            r.byte_bound() == MAX_BATCH_BYTES,
            r.retry_bound() == or_default(config.retry_attempts, DEFAULT_RETRY_ATTEMPTS),
            r.delay() == or_default(config.retry_delay_ms, DEFAULT_RETRY_DELAY_MS),
    {
        let max_entries = config.max_entries();
        let rules = match &config.filter {
            Some(v) => Some(clone_rules(v)),
            None => None,
        };
        let pipeline = LinePipeline::new(rules, max_entries, MAX_BATCH_BYTES);
        LogWatcher { config, state: WatchState::new(size_at_start), pipeline }
    }

    /// Path of the tailed file.
    pub fn log_path_str(&self) -> (r: &str)
        ensures
            r@ == self.log_path(),
    {
        self.config.log_path.as_str()
    }

    /// Byte offset at which the next read starts.
    pub fn read_cursor(&self) -> (r: u64)
        ensures
            r == self.cursor(),
    {
        self.state.read_cursor()
    }

    pub fn phase(&self) -> (r: Phase)
        ensures
            r == self.current_phase(),
    {
        self.state.phase()
    }

    /// Whether a change notification starts a read pass.
    pub fn is_relevant(&self, is_modify: bool, paths: &Vec<String>) -> (r: bool)
        ensures
            r == concerns_log(is_modify, paths@.map_values(|p: String| p@), self.log_path()),
    {
        is_relevant_event(is_modify, paths, &self.config.log_path)
    }

    /// Starts a read pass with the file's present size; on truncation the
    /// cursor goes back to the first byte.
    pub fn begin_pass(&mut self, current_size: u64) -> (r: PassStart)
        requires
            old(self).wf(),
        ensures
            final(self).wf(),
            final(self).log_path() == old(self).log_path(),
            final(self).rules() == old(self).rules(),
            final(self).open_texts() == old(self).open_texts(),
            final(self).entry_bound() == old(self).entry_bound(),
            final(self).byte_bound() == old(self).byte_bound(),
            final(self).retry_bound() == old(self).retry_bound(),
            final(self).delay() == old(self).delay(),
            final(self).current_phase() == old(self).current_phase(),
            final(self).known_size() == current_size,
            current_size < old(self).known_size() ==> r == PassStart::Rotated && final(self).cursor() == 0,
            current_size >= old(self).known_size() ==> r == PassStart::Continue && final(self).cursor() == old(self).cursor(),
    {
        self.state.begin_pass(current_size)
    }

    /// Takes one raw read at the cursor. A complete line
    /// moves the cursor past it and is filtered and batched; a partial one is
    /// left for the next pass.
    pub fn offer_line(&mut self, raw: &str) -> (r: LineOutcome)
        requires
            old(self).wf(),
            old(self).cursor() + vstd::utf8::encode_utf8(raw@).len() <= u64::MAX,
        ensures
            final(self).wf(),
            final(self).log_path() == old(self).log_path(),
            final(self).rules() == old(self).rules(),
            final(self).entry_bound() == old(self).entry_bound(),
            final(self).byte_bound() == old(self).byte_bound(),
            final(self).retry_bound() == old(self).retry_bound(),
            final(self).delay() == old(self).delay(),
            final(self).current_phase() == old(self).current_phase(),
            final(self).known_size() == old(self).known_size(),
            !is_complete(raw@) ==> r is Partial && final(self).open_texts() == old(self).open_texts()
                && final(self).cursor() == old(self).cursor(),
            is_complete(raw@) ==> r is Consumed && final(self).cursor() == old(self).cursor()
                + vstd::utf8::encode_utf8(raw@).len(),
            is_complete(raw@) && !accepts(old(self).rules(), line_text(raw@)) ==> r == LineOutcome::Consumed(None)
                && final(self).open_texts() == old(self).open_texts(),
            ({
                let t = line_text(raw@);
                is_complete(raw@) && accepts(old(self).rules(), t) && admits(
                    old(self).open_texts(),
                    t,
                    old(self).entry_bound(),
                    old(self).byte_bound(),
                ) ==> r == LineOutcome::Consumed(None) && final(self).open_texts() == old(self).open_texts().push(t)
            }),
            ({
                let t = line_text(raw@);
                is_complete(raw@) && accepts(old(self).rules(), t) && !admits(
                    old(self).open_texts(),
                    t,
                    old(self).entry_bound(),
                    old(self).byte_bound(),
                ) ==> (r matches LineOutcome::Consumed(Some(b)) && texts(b@) == old(self).open_texts()
                    && final(self).open_texts() == seq![t])
            }),
    {
        let n = raw.as_bytes().len();
        let r = self.pipeline.offer_line(raw);
        match r {
            LineOutcome::Partial => {},
            LineOutcome::Consumed(_) => {
                self.state.advance(n as u64);
            },
        }
        r
    }

    /// End of a read pass: the open batch, if any, is sealed for delivery.
    pub fn finish_pass(&mut self) -> (r: Option<Vec<LogEntry>>)
        requires
            old(self).wf(),
        ensures
            final(self).wf(),
            final(self).log_path() == old(self).log_path(),
            final(self).rules() == old(self).rules(),
            final(self).entry_bound() == old(self).entry_bound(),
            final(self).byte_bound() == old(self).byte_bound(),
            final(self).retry_bound() == old(self).retry_bound(),
            final(self).delay() == old(self).delay(),
            final(self).current_phase() == old(self).current_phase(),
            final(self).cursor() == old(self).cursor(),
            final(self).known_size() == old(self).known_size(),
            final(self).open_texts() == Seq::<Seq<char>>::empty(),
            old(self).open_texts().len() == 0 ==> r is None,
            old(self).open_texts().len() > 0 ==> r is Some && texts(r->0@) == old(self).open_texts(),
    {
        self.pipeline.finish()
    }

    /// The file could not be found: wait for it to reappear.
    pub fn file_missing(&mut self)
        requires
            old(self).wf(),
        ensures
            final(self).wf(),
            final(self).log_path() == old(self).log_path(),
            final(self).rules() == old(self).rules(),
            final(self).open_texts() == old(self).open_texts(),
            final(self).entry_bound() == old(self).entry_bound(),
            final(self).byte_bound() == old(self).byte_bound(),
            final(self).retry_bound() == old(self).retry_bound(),
            final(self).delay() == old(self).delay(),
            final(self).current_phase() == Phase::AwaitingFile,
            final(self).cursor() == old(self).cursor(),
    {
        self.state.file_missing();
    }

    /// The file exists again: it is new, so all of it is read, from byte 0.
    pub fn file_reappeared(&mut self)
        requires
            old(self).wf(),
        ensures
            final(self).wf(),
            final(self).log_path() == old(self).log_path(),
            final(self).rules() == old(self).rules(),
            final(self).open_texts() == old(self).open_texts(),
            final(self).entry_bound() == old(self).entry_bound(),
            final(self).byte_bound() == old(self).byte_bound(),
            final(self).retry_bound() == old(self).retry_bound(),
            final(self).delay() == old(self).delay(),
            final(self).current_phase() == Phase::Idle,
            final(self).cursor() == 0,
            final(self).known_size() == 0,
    {
        self.state.file_reappeared();
    }

    /// The delivery of a freshly sealed batch under the configured retry
    /// policy.
    pub fn start_delivery(&self) -> (r: Delivery)
        ensures
            r.wf(),
            r.failed() == 0,
            r.retry_bound() == self.retry_bound(),
            r.delay() == self.delay(),
    {
        Delivery::new(self.config.retries(), self.config.retry_delay())
    }
}

fn clone_rules(v: &Vec<String>) -> (r: Vec<String>)
    ensures
        r@.map_values(|s: String| s@) == v@.map_values(|s: String| s@),
{
    let mut out: Vec<String> = Vec::new();
    let mut i: usize = 0;
    while i < v.len()
        invariant
            i <= v.len(),
            out@.len() == i,
            forall|j: int| 0 <= j < i ==> #[trigger] out@[j]@ == v@[j]@,
        decreases v.len() - i,
    {
        out.push(v[i].clone());
        i = i + 1;
    }
    assert(out@.map_values(|s: String| s@) =~= v@.map_values(|s: String| s@));
    out
}

} // verus!
