//! The error taxonomy of the library.

use vstd::prelude::*;

verus! {

/// Failure to resolve a connection configuration.
#[derive(Clone, Copy, Debug, PartialEq, Eq, Structural)]
pub enum ConfigError {
    /// The override could not be understood: a structured blob that does not
    /// parse, a number out of range, or two keys that collide once case is
    /// ignored.
    Malformed,
    /// A signing seed was supplied without its paired token, or vice versa.
    InvalidCredential,
}

/// Failure to resolve the vault store's configuration.
#[derive(Clone, Copy, Debug, PartialEq, Eq, Structural)]
pub enum VaultConfigError {
    /// No token was supplied, neither in the environment nor in the values.
    MissingToken,
}

/// Failure to link a tenant.
#[derive(Debug)]
pub enum LinkError {
    /// The broker endpoint could not be reached.
    Connect(String),
    /// The broker rejected the credentials.
    Auth(String),
}

/// Failure of a synchronous request.
#[derive(Debug)]
pub enum RequestError {
    /// The tenant has no live connection.
    NotLinked,
    /// The broker did not reply within the caller's timeout.
    Timeout,
    /// The request could not be sent.
    Transport(String),
}

/// Failure of a fire-and-forget publish.
#[derive(Debug)]
pub enum PublishError {
    /// The tenant has no live connection.
    NotLinked,
    /// The message could not be sent.
    Transport(String),
}

} // verus!
