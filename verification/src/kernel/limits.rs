//! The limits that apply where a configuration sets none.

use vstd::prelude::*;

verus! {

/// How many tool calls of one assistant message run side by side, unless
/// configured otherwise.
pub const DEFAULT_MAX_CONCURRENCY: usize = 4;

/// How long the provider may take over one request, in seconds.
pub const DEFAULT_PROVIDER_TIMEOUT_SECS: u64 = 120;

/// How long a tool may run, in seconds.
pub const DEFAULT_TOOL_TIMEOUT_SECS: u64 = 30;

/// How long a harness hook may run, in milliseconds.
pub const DEFAULT_HOOK_TIMEOUT_MS: u64 = 2000;

/// How long the event bus is given to drain at shutdown, in seconds.
pub const DEFAULT_BUS_SHUTDOWN_SECS: u64 = 5;

/// How long a change of the harness script must have settled before the
/// script is reloaded, in milliseconds.
pub const WATCH_DEBOUNCE_MS: u64 = 200;

} // verus!
