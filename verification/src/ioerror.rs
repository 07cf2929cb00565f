//! Declares the platform I/O error type, so that the library's error
//! values can carry the error a transport operation failed with.

use vstd::prelude::*;

verus! {

/// `std::io::Error`, declared so it can stand in fields and signatures.
/// The library never inspects one; it only carries them back to the
/// caller.
#[verifier::external_type_specification]
#[verifier::external_body]
pub struct ExIoError(std::io::Error);

} // verus!
