//! Logging settings.

use vstd::prelude::*;
use vstd::string::*;

verus! {

/// Logging configuration.
#[derive(Debug, Clone)]
pub struct LogConfig {
    /// Log level (such as "info", "debug", "trace").
    pub level: String,
    /// Whether to use JSON format rather than human-readable output.
    pub json: bool,
}

impl Default for LogConfig {
    fn default() -> (c: Self)
        ensures
            c.level@ == seq!['i', 'n', 'f', 'o'],
            !c.json,
    {
        proof { reveal_strlit("info"); }
        LogConfig { level: String::from_str("info"), json: false }
    }
}

} // verus!
