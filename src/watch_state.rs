use vstd::prelude::*;

verus! {

/// Where the watcher stands between file-system events.
#[derive(PartialEq, Eq, Structural, Debug, Clone, Copy)]
pub enum Phase {
    /// Waiting for the next change notification.
    Idle,
    /// The file is gone; polling until it reappears.
    AwaitingFile,
}

/// What the read pass must do first.
#[derive(PartialEq, Eq, Structural, Debug, Clone, Copy)]
pub enum PassStart {
    /// The file grew or kept its size: read on from the cursor.
    Continue,
    /// The file shrank: it was truncated, so read from its first byte.
    Rotated,
}

/// The read position of the tailed file and the size last seen.
pub struct WatchState {
    read_cursor: u64,
    last_known_size: u64,
    phase: Phase,
}

impl WatchState {
    pub closed spec fn cursor(&self) -> u64 {
        self.read_cursor
    }

    pub closed spec fn known_size(&self) -> u64 {
        self.last_known_size
    }

    pub closed spec fn current_phase(&self) -> Phase {
        self.phase
    }

    /// The state at startup: history is never replayed, so reading starts at
    /// the end of the file as it is now.
    pub fn new(size_at_start: u64) -> (r: WatchState)
        ensures
            r.cursor() == size_at_start,
            r.known_size() == size_at_start,
            r.current_phase() == Phase::Idle,
    {
        WatchState { read_cursor: size_at_start, last_known_size: size_at_start, phase: Phase::Idle }
    }

    /// Byte offset at which the next read starts.
    pub fn read_cursor(&self) -> (r: u64)
        ensures
            r == self.cursor(),
    {
        self.read_cursor
    }

    /// File size seen by the last pass.
    pub fn last_known_size(&self) -> (r: u64)
        ensures
            r == self.known_size(),
    {
        self.last_known_size
    }

    pub fn phase(&self) -> (r: Phase)
        ensures
            r == self.current_phase(),
    {
        self.phase
    }

    /// Runs before each read pass with the file's present size. A size below
    /// the one seen last means truncation: the cursor goes back to the start.
    /// Either way the new size is remembered.
    pub fn begin_pass(&mut self, current_size: u64) -> (r: PassStart)
        ensures
            final(self).known_size() == current_size,
            final(self).current_phase() == old(self).current_phase(),
            current_size < old(self).known_size() ==> r == PassStart::Rotated && final(self).cursor() == 0,
            current_size >= old(self).known_size() ==> r == PassStart::Continue && final(self).cursor() == old(self).cursor(),
    {
        let r = if current_size < self.last_known_size {
            self.read_cursor = 0;
            PassStart::Rotated
        } else {
            PassStart::Continue
        };
        self.last_known_size = current_size;
        r
    }

    /// Records that `n` more bytes were consumed as complete lines.
    pub fn advance(&mut self, n: u64)
        requires
            old(self).cursor() + n <= u64::MAX,
        ensures
            final(self).cursor() == old(self).cursor() + n,
            final(self).known_size() == old(self).known_size(),
            final(self).current_phase() == old(self).current_phase(),
    {
        self.read_cursor = self.read_cursor + n;
    }

    /// The file could not be found: wait for it to come back.
    pub fn file_missing(&mut self)
        ensures
            final(self).current_phase() == Phase::AwaitingFile,
            final(self).cursor() == old(self).cursor(),
            final(self).known_size() == old(self).known_size(),
    {
        self.phase = Phase::AwaitingFile;
    }

    /// The file exists again. It is a new file, all of it unread: reading
    /// starts at its first byte.
    pub fn file_reappeared(&mut self)
        ensures
            final(self).current_phase() == Phase::Idle,
            final(self).cursor() == 0,
            final(self).known_size() == 0,
    {
        self.phase = Phase::Idle;
        self.read_cursor = 0;
        self.last_known_size = 0;
    }
}

/// A notification concerns the log file when it is a modification and one of
/// its paths is the log file's path.
pub open spec fn concerns_log(is_modify: bool, paths: Seq<Seq<char>>, log_path: Seq<char>) -> bool {
    is_modify && paths.contains(log_path)
}

/// Whether a change notification starts a read pass: only modifications of
/// the log file itself do; others in the same directory are ignored.
pub fn is_relevant_event(is_modify: bool, paths: &Vec<String>, log_path: &String) -> (r: bool)
    ensures
        r == concerns_log(is_modify, paths@.map_values(|p: String| p@), log_path@),
{
    let ghost ps = paths@.map_values(|p: String| p@);
    if !is_modify {
        return false;
    }
    let mut i: usize = 0;
    while i < paths.len()
        invariant
            i <= paths.len(),
            is_modify,
            ps == paths@.map_values(|p: String| p@),
            forall|j: int| 0 <= j < i ==> #[trigger] ps[j] != log_path@,
        decreases paths.len() - i,
    {
        if paths[i].eq(log_path) {
            assert(ps[i as int] == log_path@);
            assert(concerns_log(is_modify, ps, log_path@));
            return true;
        }
        i = i + 1;
    }
    false
}

} // verus!
