//! The closed set of failures that the client surfaces.

use vstd::prelude::*;

verus! {

/// Why construction or a call did not succeed.
#[derive(Clone, Copy, Debug, PartialEq, Eq, Structural)]
pub enum Error {
    /// The endpoint text is not a network locator.
    InvalidEndpoint,
    /// The transport could not be connected, or encryption could not be set up.
    ConnectionFailed,
    /// The credential cannot be carried in request metadata.
    InvalidCredential,
    /// A call failed after the connection had been made.
    CallFailed,
}

} // verus!
