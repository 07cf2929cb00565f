//! Error types shared by the older streaming-client entry points.

use vstd::prelude::*;

verus! {

/// Represents errors that can occur when talking to the daemon.
#[derive(Debug)]
pub enum Error {
    /// I/O errors, usually with the underlying connection.
    Io(std::io::Error),
    /// Errors related to auto-starting the daemon.
    AutoStart(std::io::Error),
    /// Encode buffer is too small.
    Encode(),
}

/// Represents errors that can occur when working with DMX buffers.
#[derive(Clone, Copy, Debug, PartialEq, Eq, Structural)]
pub enum BufferError {
    /// A DMX buffer source was not 512 bytes.
    Size,
}

} // verus!
