//! The failure kinds that dispatch and decoding may signal.

use vstd::prelude::*;

verus! {

/// Everything a caller of the endpoint can see go wrong.
///
/// All decode and transport failures are returned as one of these kinds;
/// none of them terminates the process.
#[derive(Clone, Copy, Debug, PartialEq, Eq, Structural)]
pub enum RpcError {
    /// The network call failed to complete, or the response body could not
    /// be read.
    Transport,
    /// The response text is too short for fixed-offset extraction.
    OutOfBounds,
    /// The response text is not valid JSON where JSON parsing was required.
    Malformed,
    /// The JSON parsed, but the expected field or shape was absent.
    InvalidResponse,
    /// A hex string failed to parse as a base-16 integer.
    ParseError,
}

} // verus!
