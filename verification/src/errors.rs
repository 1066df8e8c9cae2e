//! Error type returned by the configuration and device operations.

use vstd::prelude::*;

verus! {

/// Error returned to the caller of a configuration or device operation:
/// a human-readable message and, for validation failures, the full list of
/// rule violations.
#[derive(Debug)]
pub struct ConfigError {
    pub message: String,
    pub details: Option<Vec<String>>,
}

impl ConfigError {
    /// An error that carries a message alone.
    pub fn new(message: String) -> (r: ConfigError)
        ensures
            r.message == message,
            r.details is None,
    {
        ConfigError { message, details: None }
    }
}

} // verus!
