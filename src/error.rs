use vstd::prelude::*;

verus! {

/// Why the connection to the display server could not be used.
#[derive(Debug, Clone, Copy, PartialEq, Eq, Structural)]
pub enum ConnFailure {
    /// Socket, pipe or other stream failure.
    Connection,
    /// The connection was shut down because an extension is not supported.
    ClosedExtNotSupported,
    /// The connection was shut down for lack of memory.
    ClosedMemInsufficient,
    /// The connection was shut down because a request was too long.
    ClosedReqLenExceed,
    /// The display name could not be parsed.
    ClosedParseErr,
    /// The server has no screen matching the display.
    ClosedInvalidScreen,
    /// Passing a file descriptor failed.
    ClosedFdPassingFailed,
}

/// Everything that can go wrong while driving the gamma tables.
#[derive(Debug, Clone, Copy, PartialEq, Eq, Structural)]
pub enum RandrError {
    /// A request failed or the server answered it with an error; holds the
    /// protocol error code.
    Generic(u8),
    /// The transport failed.
    Conn(ConnFailure),
    /// The server speaks a RandR version this library cannot use
    /// (reported major, reported minor).
    UnsupportedVersion(u32, u32),
    /// The gamma reply of the given controller is empty or its three channels
    /// do not all have the announced size.
    MalformedGamma(u32),
}

} // verus!
