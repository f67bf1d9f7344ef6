use vstd::prelude::*;

verus! {

/// Entries per batch when the configuration names no batch size.
pub const DEFAULT_BATCH_SIZE: usize = 10;

/// Retries after a failed delivery when the configuration names none.
pub const DEFAULT_RETRY_ATTEMPTS: u32 = 3;

/// Pause between delivery attempts when the configuration names none.
pub const DEFAULT_RETRY_DELAY_MS: u64 = 1000;

/// Upper bound on the bytes of one batch (a single larger entry still goes
/// out alone).
pub const MAX_BATCH_BYTES: usize = 1048576;

/// Settings of the watcher: which file to tail and how to batch, retry and
/// filter.
pub struct WatcherConfig {
    /// Path of the log file.
    pub log_path: String,
    /// Most entries in one batch.
    pub batch_size: Option<usize>,
    /// Retries after a failed delivery.
    pub retry_attempts: Option<u32>,
    /// Pause between delivery attempts, in milliseconds.
    pub retry_delay_ms: Option<u64>,
    /// Substrings of which a line must hold one; `None` accepts every line.
    pub filter: Option<Vec<String>>,
}

pub open spec fn or_default<T>(o: Option<T>, d: T) -> T {
    match o {
        Some(v) => v,
        None => d,
    }
}

impl WatcherConfig {
    /// Most entries in one batch.
    pub fn max_entries(&self) -> (r: usize)
        ensures
            r == or_default(self.batch_size, DEFAULT_BATCH_SIZE),
    {
        match self.batch_size {
            Some(n) => n,
            None => DEFAULT_BATCH_SIZE,
        }
    }

    /// Retries after a failed delivery.
    pub fn retries(&self) -> (r: u32)
        ensures
            r == or_default(self.retry_attempts, DEFAULT_RETRY_ATTEMPTS),
    {
        match self.retry_attempts {
            Some(n) => n,
            None => DEFAULT_RETRY_ATTEMPTS,
        }
    }

    /// Pause between delivery attempts, in milliseconds.
    pub fn retry_delay(&self) -> (r: u64)
        ensures
            r == or_default(self.retry_delay_ms, DEFAULT_RETRY_DELAY_MS),
    {
        match self.retry_delay_ms {
            Some(n) => n,
            None => DEFAULT_RETRY_DELAY_MS,
        }
    }
}

impl Default for WatcherConfig {
    fn default() -> (r: WatcherConfig)
        ensures
            r.log_path@ == "solana-validator.log"@,
            r.batch_size == Some(DEFAULT_BATCH_SIZE),
            r.retry_attempts == Some(DEFAULT_RETRY_ATTEMPTS),
            r.retry_delay_ms == Some(DEFAULT_RETRY_DELAY_MS),
            r.filter is None,
    {
        WatcherConfig {
            filter: None,
            retry_delay_ms: Some(DEFAULT_RETRY_DELAY_MS),
            log_path: "solana-validator.log".to_owned(),
            batch_size: Some(DEFAULT_BATCH_SIZE),
            retry_attempts: Some(DEFAULT_RETRY_ATTEMPTS),
        }
    }
}

} // verus!
