//! The ways in which a peer, a transport or a caller can fail.

use vstd::prelude::*;

verus! {

/// The peer broke the protocol. Nothing it sends afterwards can be trusted, so
/// a caller is expected to treat every variant as fatal for the connection.
#[derive(PartialEq, Eq, Structural, Debug, Clone, Copy)]
pub enum ProtocolViolation {
    /// The message is shorter than a packet header.
    MalformedPacket,
    /// A message on the request stream does not carry a request slot.
    NotARequest,
    /// A call or a delete names a service object that is not registered.
    UnknownService,
    /// A response names a slot on which no call is waiting.
    UnknownSlot,
    /// The target service object has no method with the given id.
    UnknownMethod,
    /// The body of a call could not be read as the arguments of the method,
    /// or its result could not be written.
    Codec,
}

/// Why a skeleton rejects a call. No structured error goes back to the peer:
/// to the server either is a violation of the protocol.
#[derive(PartialEq, Eq, Structural, Debug, Clone, Copy)]
pub enum DispatchError {
    /// The service has no method with the given id.
    UnknownMethod,
    /// The arguments could not be read, or the result could not be written.
    Codec,
}

impl DispatchError {
    /// The violation that a rejected call amounts to.
    pub open spec fn spec_violation(self) -> ProtocolViolation {
        match self {
            DispatchError::UnknownMethod => ProtocolViolation::UnknownMethod,
            DispatchError::Codec => ProtocolViolation::Codec,
        }
    }

    /// The violation that a rejected call amounts to.
    pub fn violation(self) -> (violation: ProtocolViolation)
        ensures
            violation == self.spec_violation(),
    {
        match self {
            DispatchError::UnknownMethod => ProtocolViolation::UnknownMethod,
            DispatchError::Codec => ProtocolViolation::Codec,
        }
    }
}

/// A configuration value that no port can work with.
#[derive(PartialEq, Eq, Structural, Debug, Clone, Copy)]
pub enum ConfigError {
    /// The number of call slots is so large that a slot would no longer
    /// read as a correlation id.
    CallSlots,
    /// The number of server threads is beyond what a queue can hold.
    ServerThreads,
    /// The registry would hold no service at all.
    MaximumServices,
}

/// A port has no room for what it was asked to keep.
#[derive(PartialEq, Eq, Structural, Debug, Clone, Copy)]
pub enum PortError {
    /// The registry holds as many service objects as it may.
    TooManyServices,
    /// The port keeps track of as many remote objects as it may.
    TooManyRemotes,
}

/// An outbound call could not be started.
#[derive(PartialEq, Eq, Structural, Debug, Clone, Copy)]
pub enum CallError {
    /// Every call slot is taken by a call in flight.
    TooManyCalls,
}

/// The response receiver of a client did not end as it should.
#[derive(PartialEq, Eq, Structural, Debug, Clone, Copy)]
pub enum ShutdownError {
    /// The receiver is still running: there is a deadlock, or the client is
    /// shut down before the multiplexer.
    ReceiverRunning,
    /// The receiver is gone without a word: it has panicked.
    ReceiverLost,
}

/// The transport could not deliver a message.
#[derive(PartialEq, Eq, Structural, Debug, Clone, Copy)]
pub enum SendError {
    /// The transport was terminated.
    Termination,
}

/// The transport could not produce a message.
#[derive(PartialEq, Eq, Structural, Debug, Clone, Copy)]
pub enum RecvError {
    /// No message arrived within the time allowed.
    TimeOut,
    /// The transport was terminated.
    Termination,
}

} // verus!
