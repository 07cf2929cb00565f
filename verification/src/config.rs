//! Connection configuration.
//!
//! A [`Config`] says where the daemon's RPC endpoint is expected and
//! whether the daemon should be started when no connection can be made.
//! Establishing the connection itself - sockets, retries, starting the
//! daemon - is transport work that lives outside the library; the error
//! types it reports with are defined here.

use vstd::prelude::*;

use crate::OLA_DEFAULT_PORT;

verus! {

/// Configuration for connecting to the daemon.
///
/// By default a connection is attempted on the loopback interface at
/// port 9010, and the daemon is started on that port if the attempt
/// fails.
#[derive(Clone, Debug)]
pub struct Config {
    /// Whether to auto-start the daemon if a connection cannot be made.
    pub auto_start: bool,
    /// The port the daemon's RPC endpoint listens on. This is also the
    /// port the daemon will be configured to listen on if auto-started.
    pub server_port: u16,
}

impl Default for Config {
    /// Auto-start enabled, on the default port.
    fn default() -> (r: Self)
        ensures
            r.auto_start == true,
            r.server_port == 9010,
    {
        Config { auto_start: true, server_port: OLA_DEFAULT_PORT }
    }
}

impl Config {
    /// Build a new configuration with auto-start enabled and the
    /// default port of 9010.
    pub fn new() -> (r: Self)
        ensures
            r.auto_start == true,
            r.server_port == 9010,
    {
        Config { auto_start: true, server_port: OLA_DEFAULT_PORT }
    }
}

/// The error type returned when connecting to the daemon fails.
#[derive(Debug)]
pub struct ConnectError {
    /// What made the connection fail.
    pub kind: ConnectErrorKind,
}

impl ConnectError {
    /// A short description of the failure.
    pub fn message(&self) -> &'static str {
        "failed to connect to OLA"
    }
}

/// The ways establishing a connection can fail.
#[derive(Debug)]
pub enum ConnectErrorKind {
    /// Unable to establish a TCP connection with the daemon.
    Connect(std::io::Error),
    /// Problem while setting `TCP_NODELAY` on the underlying socket.
    NoDelay(std::io::Error),
    /// Failure while attempting to auto-start the daemon.
    Spawn(SpawnOladError),
}

/// The error type returned when starting the daemon fails.
#[derive(Debug)]
pub struct SpawnOladError {
    cause: std::io::Error,
}

impl SpawnOladError {
    /// Wrap the I/O error the spawn failed with.
    pub fn new(cause: std::io::Error) -> Self {
        SpawnOladError { cause }
    }

    /// The I/O error the spawn failed with.
    pub fn cause(&self) -> &std::io::Error {
        &self.cause
    }

    /// A short description of the failure.
    pub fn message(&self) -> &'static str {
        "failed to start olad"
    }
}

} // verus!
