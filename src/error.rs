use vstd::prelude::*;

verus! {

/// What can go wrong while describing an environment.
#[derive(Debug, PartialEq, Eq)]
pub enum CondaError {
    /// Writing the rendered document failed; the message of the cause.
    Io(String),
    /// An export document could not be parsed; the message of the cause.
    Yaml(String),
    /// The package inventory could not be parsed; the message of the cause.
    Json(String),
    /// Output of the package manager was not valid UTF-8.
    Utf8(String),
    /// A package that would be written out has no version.
    MissingVersion,
    /// The requested environment is unknown: its name, and every name that
    /// the package manager listed, in its order.
    EnvNotFound(String, Vec<String>),
    /// The package manager exited with failure: its arguments joined by
    /// spaces, and what it wrote to its error stream.
    CondaCommandFailed(String, String),
    /// The package manager could not be started at all.
    CommandExecutionFailed(String),
}

} // verus!
