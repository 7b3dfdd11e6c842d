//! Error types of logging initialization.
//!
//! Configuration mistakes (malformed directives, invalid output requests)
//! are never downgraded silently: they surface as [`ConfigError`] values.
//! Installation can additionally fail because the process-wide slot is
//! already taken or because a sink's destination is unavailable.

use vstd::prelude::*;

verus! {

/// A configuration mistake: a filter directive the parser rejects, or an
/// output request of an invalid length or shape.
#[derive(Clone, Copy, Debug, PartialEq, Eq)]
pub enum ConfigError {
    /// The default filter directive does not parse, and the environment
    /// variable did not supply a valid one either.
    InvalidDirective,
    /// More than two output destinations were requested.
    TooManyOutputs,
    /// A two-entry output request whose first entry is not absent.
    InvalidOutputShape,
    /// A hand-composed backend holds a sink set that installation does not
    /// know how to materialize.
    UnsupportedSinkSet,
}

/// Why installing a composed backend as the process-wide default failed.
#[derive(Clone, Copy, Debug, PartialEq, Eq)]
pub enum InstallError {
    /// A process-wide default was already installed; installation is
    /// one-shot and the earlier backend is left untouched.
    AlreadyInstalled,
    /// A sink's destination cannot be reached: the system journal is
    /// unavailable, or a file sink names an unusable path.
    SinkUnavailable,
    /// The backend itself is misconfigured.
    Config(ConfigError),
}

} // verus!
