use vstd::prelude::*;

verus! {

/// The kinds of operating-system I/O failure that the protocol engine
/// distinguishes. The embedding application maps the platform's error kind
/// into this type before handing an event to the engine; the engine's only
/// branching decision is whether the failure is the retryable would-block
/// condition of a non-blocking socket.
#[derive(Clone, Copy, Debug, PartialEq, Eq, Structural)]
pub enum IoErrorKind {
    /// The non-blocking operation would have to block to complete.
    WouldBlock,
    /// The operation was interrupted before any data was transferred.
    Interrupted,
    /// The peer is not listening or refused the connection.
    ConnectionRefused,
    /// The peer closed the connection.
    BrokenPipe,
    /// The stream ended before a whole frame arrived.
    UnexpectedEof,
    /// Any other failure; the engine treats all of these alike.
    Other,
}

/// The fatal errors of one server drain invocation. Accept and read failures
/// are not fatal (that connection is abandoned and the server keeps running),
/// so they do not appear here.
#[derive(Clone, Copy, Debug, PartialEq, Eq, Structural)]
pub enum IpcError {
    /// The bytes read from an accepted connection decode to no command.
    Decode,
    /// Writing the response back failed with a non-retryable error.
    Write(IoErrorKind),
}

/// Returns true exactly when the error kind is the retryable would-block
/// condition.
pub fn would_block(kind: &IoErrorKind) -> (r: bool)
    ensures
        r == (*kind is WouldBlock),
{
    match kind {
        IoErrorKind::WouldBlock => true,
        _ => false,
    }
}

} // verus!
