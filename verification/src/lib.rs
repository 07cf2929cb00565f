//! A client library for the Open Lighting Architecture RPC protocol.
//!
//! The protocol runs over a single ordered byte stream. Each frame is a
//! 4-byte header (protocol version and payload size, packed in the host's
//! byte order) followed by a serialized message envelope. This crate holds
//! the verified protocol core: the header codec, the envelope codec, the
//! typed call tables, the per-session sequence counter, the streaming frame
//! assembler, and the dispatcher that answers peer-initiated calls.

use vstd::prelude::*;

pub mod assembler;
pub mod buffer;
pub mod bytesmut;
pub mod client;
pub mod config;
pub mod error;
pub mod ioerror;
pub mod ola;
pub mod wire;

pub use buffer::{DmxBuffer, TryFromBufferError};

verus! {

/// Protocol version written into every outbound frame header.
pub const PROTOCOL_VERSION: u32 = 1;

/// The default port of the daemon's RPC endpoint.
pub const OLA_DEFAULT_PORT: u16 = 9010;

/// Mask of the header bits that carry the protocol version.
pub const VERSION_MASK: u32 = 0xf000_0000;

/// Mask of the header bits that carry the payload size.
pub const SIZE_MASK: u32 = 0x0fff_ffff;

} // verus!
