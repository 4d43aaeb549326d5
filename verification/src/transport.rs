//! What a port asks of the byte transport beneath it.
//!
//! A transport carries whole messages: framing is its own business. It comes
//! as a sending half and a receiving half, and the receiving half can make a
//! terminator that unblocks a pending `recv` and leaves the transport dead.

pub mod multiplex;
pub mod socket;

use crate::error::{RecvError, SendError};
use std::time::Duration;
use vstd::prelude::*;

verus! {

/// Ends a transport: a pending `recv` returns, and every later `recv` or
/// `send` fails with a termination error.
pub trait Terminate: Send {
    fn terminate(&self);
}

/// The sending half of a transport.
pub trait TransportSend: Send {
    /// Delivers one message.
    fn send(&self, data: &[u8]) -> Result<(), SendError>;
}

/// What a receive gave, as plain values.
pub open spec fn spec_received(event: Result<Vec<u8>, RecvError>) -> Result<Seq<u8>, RecvError> {
    match event {
        Ok(message) => Ok(message@),
        Err(e) => Err(e),
    }
}

/// The receiving half of a transport.
pub trait TransportRecv: Send {
    type Terminator: Terminate;

    /// Whether `result` is something that a receive with this timeout may
    /// give. A transport that says nothing allows every result.
    open spec fn yields(
        &self,
        timeout: Option<Duration>,
        result: Result<Seq<u8>, RecvError>,
    ) -> bool {
        true
    }

    /// Waits for one message: without bound where `timeout` is `None`.
    fn recv(&self, timeout: Option<Duration>) -> (result: Result<Vec<u8>, RecvError>)
        ensures
            self.yields(timeout, spec_received(result)),
    ;

    /// Makes a terminator for this transport.
    fn create_terminator(&self) -> Self::Terminator;
}

} // verus!
