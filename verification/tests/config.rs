//! Tests of the connection configuration and the error types.

use ola::client::StreamingClientConfig;
use ola::config::{Config, ConnectError, ConnectErrorKind, SpawnOladError};
use ola::error::BufferError;

#[test]
fn config_defaults_to_auto_start_on_port_9010() {
    let config = Config::new();
    assert!(config.auto_start);
    assert_eq!(config.server_port, 9010);
    let config = Config::default();
    assert!(config.auto_start);
    assert_eq!(config.server_port, 9010);
}

#[test]
fn streaming_client_config_defaults_match() {
    let config = StreamingClientConfig::new();
    assert!(config.auto_start);
    assert_eq!(config.server_port, 9010);
}

#[test]
fn connect_error_carries_its_cause() {
    let cause = std::io::Error::new(std::io::ErrorKind::ConnectionRefused, "refused");
    let error = ConnectError { kind: ConnectErrorKind::Connect(cause) };
    assert_eq!(error.message(), "failed to connect to OLA");
    assert!(matches!(error.kind, ConnectErrorKind::Connect(_)));

    let spawn = SpawnOladError::new(std::io::Error::new(std::io::ErrorKind::NotFound, "no olad"));
    assert_eq!(spawn.message(), "failed to start olad");
    assert_eq!(spawn.cause().kind(), std::io::ErrorKind::NotFound);
}

#[test]
fn buffer_error_is_the_size_error() {
    assert_eq!(BufferError::Size, BufferError::Size);
}
