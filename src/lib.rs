use vstd::prelude::*;

pub mod batch;
pub mod delivery;
pub mod line_filter;
pub mod log_config;
pub mod log_watcher;
pub mod pipeline;
pub mod watch_state;
pub mod watcher_config;

verus! {

} // verus!
