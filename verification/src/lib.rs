//! Core logic of `kep`, a command-line wrapper that runs a shell command
//! and caches its standard-output bytes on disk, keyed by the exact command
//! line, for a configurable time-to-live. This library holds every decision
//! the tool makes: parsing the duration token, splitting the command line,
//! deriving the cache key and the entry path, judging an entry's freshness,
//! joining the tokens for the shell, and picking the exit code. Reading and
//! writing the entry, printing, and spawning the child process are
//! input/output and stay with the binary built around this library.

pub mod cli;
pub mod duration;
pub mod key;
pub mod store;

use vstd::prelude::*;

verus! {

/// Number of seconds in one hour, the default time-to-live for cache entries.
pub const DEFAULT_TTL_SECS: u64 = 3600;

} // verus!
