//! Errors of the discovery component.

use vstd::prelude::*;

verus! {

/// `mdns_sd::Error`, the error type of the mDNS crate; carried, never read.
#[verifier::external_type_specification]
#[verifier::external_body]
pub struct ExMdnsError(mdns_sd::Error);

/// `std::io::Error`; carried, never read.
#[verifier::external_type_specification]
#[verifier::external_body]
pub struct ExIoError(std::io::Error);

/// Errors that the discovery component produces.
#[derive(Debug)]
pub enum HiveDiscoError {
    /// Network communication failed.
    NetworkError(String),
    /// The mDNS crate reported an error.
    MdnsError(mdns_sd::Error),
    /// An I/O operation failed.
    IoError(std::io::Error),
    /// Shutting the discovery component down failed.
    ShutdownError(String),
    /// The configuration is not usable.
    ConfigError(String),
    /// The operation is not allowed in the current state.
    StateError(String),
}

/// Result type of the discovery component.
pub type Result<T> = std::result::Result<T, HiveDiscoError>;

} // verus!
