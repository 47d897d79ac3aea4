use vstd::prelude::*;

verus! {

/// The operating-system error of a failed socket operation, carried through
/// unchanged.
#[verifier::external_type_specification]
#[verifier::external_body]
pub struct ExIoError(std::io::Error);

/// The error that bincode reports when a frame cannot be encoded or decoded.
#[verifier::external_type_specification]
#[verifier::external_body]
pub struct ExBincodeErrorKind(bincode::ErrorKind);

/// Failure while setting an endpoint up (binding or connecting its socket).
#[derive(Debug)]
pub enum BuildError {
    SocketFailed(std::io::Error),
}

/// Failure while transmitting or receiving one impulse.
#[derive(Debug)]
pub enum CommunicationError {
    /// The socket's send or receive failed.
    SocketFailed(std::io::Error),
    /// The frame could not be encoded, or a datagram could not be decoded.
    SerdeFailed(Box<bincode::ErrorKind>),
    /// A well-formed frame carried an identifier with no registered behaviour.
    UnrecognizedImpulse(u16),
    /// The emitter, named here, was asked to send a symbol it never registered.
    UnrecognizedTrigger(String),
}

} // verus!
