use vstd::prelude::*;

verus! {

/// Every way a session can fail. All of them are fatal to the session.
#[derive(Debug, Clone, Copy, PartialEq, Eq, Structural)]
pub enum ProtocolError {
    /// An inbound payload or envelope is malformed, or arrives in the wrong phase.
    DecodeError,
    /// The envelope names a protocol other than FROST.
    WrongProtocol,
    /// A round message arrived before the session was initialised.
    NotInitialized,
    /// The session has already reached its terminal state.
    AlreadyFinished,
    /// The session has not reached its terminal state yet.
    NotFinished,
    /// The signing subset does not contain this participant.
    ParticipantNotIncluded,
    /// A participant number is zero, out of range, or out of order.
    InvalidIdentifier,
    /// The threshold or the number of parties is unusable.
    InvalidThreshold,
    /// The signing subset is smaller than the threshold.
    InsufficientSigners,
    /// The cryptographic library rejected an input.
    CryptoError,
    /// A curve point handed to or received from the card is not valid.
    InvalidPointEncoding,
    /// The card answered with a status word other than success.
    CardError,
}

} // verus!
