//! Splitting the inbound stream of a transport into requests and responses.
//!
//! One reader takes messages off the transport and forwards each, by the
//! slot in its header, to the server or to the client. Within each of the
//! two streams the messages keep the order in which they arrived.

use crate::error::{ProtocolViolation, RecvError};
use crate::packet::{
    spec_is_request, PacketHeader, PacketView, HEADER_SIZE, SLOT_CALL_OR_RETURN_INDICATOR,
};
use crate::transport::{spec_received, TransportRecv};
use vstd::prelude::*;

verus! {

/// Where an inbound message belongs.
#[derive(PartialEq, Eq, Structural, Debug, Clone, Copy)]
pub enum ForwardResult {
    /// On the request stream, which the server reads.
    Request,
    /// On the response stream, which the client reads.
    Response,
}

/// A rule that sorts inbound packets into requests and responses.
pub trait Forward {
    /// Whether a packet with these bytes may be sent to `result`. A rule
    /// that says nothing allows either stream.
    open spec fn forwards(data: Seq<u8>, result: ForwardResult) -> bool {
        true
    }

    /// Tells where `data` belongs.
    fn forward(data: PacketView) -> (result: ForwardResult)
        ensures
            Self::forwards(data@, result),
    ;
}

/// Where the rule of a port sends a packet with these bytes.
pub open spec fn spec_forward(data: Seq<u8>) -> ForwardResult {
    if spec_is_request(PacketHeader::spec_parse(data).slot) {
        ForwardResult::Request
    } else {
        ForwardResult::Response
    }
}

/// The rule of a port: a slot at or above the indicator marks a request for
/// the server, a slot below it a response for the client.
pub struct ServerOrClientForwarder;

impl Forward for ServerOrClientForwarder {
    open spec fn forwards(data: Seq<u8>, result: ForwardResult) -> bool {
        result == spec_forward(data)
    }

    fn forward(data: PacketView) -> (result: ForwardResult) {
        if data.slot() >= SLOT_CALL_OR_RETURN_INDICATOR {
            ForwardResult::Request
        } else {
            ForwardResult::Response
        }
    }
}

/// Why the reader must give up.
#[derive(PartialEq, Eq, Structural, Debug, Clone, Copy)]
pub enum MultiplexError {
    /// The transport timed out, though the reader waits without bound.
    UnexpectedTimeout,
    /// The peer sent something that is no packet.
    Violation(ProtocolViolation),
}

/// What the reader does with what the transport gave it.
pub enum MultiplexAction {
    /// Push the message onto the request stream and go on reading.
    ToServer(Vec<u8>),
    /// Push the message onto the response stream and go on reading.
    ToClient(Vec<u8>),
    /// The transport was terminated: tell both streams so, and stop.
    Close,
    /// Stop, and treat the connection as broken.
    Fatal(MultiplexError),
}

/// Whether `action` is what the reader does with `event` under rule `F`.
pub open spec fn spec_routed<F: Forward>(
    event: Result<Seq<u8>, RecvError>,
    action: MultiplexAction,
) -> bool {
    match event {
        Err(RecvError::Termination) => action is Close,
        Err(RecvError::TimeOut) => action matches MultiplexAction::Fatal(e) && e
            == MultiplexError::UnexpectedTimeout,
        Ok(message) => if message.len() < HEADER_SIZE {
            action matches MultiplexAction::Fatal(e) && e == MultiplexError::Violation(
                ProtocolViolation::MalformedPacket,
            )
        } else {
            match action {
                MultiplexAction::ToServer(m) => m@ == message && F::forwards(
                    message,
                    ForwardResult::Request,
                ),
                MultiplexAction::ToClient(m) => m@ == message && F::forwards(
                    message,
                    ForwardResult::Response,
                ),
                _ => false,
            }
        },
    }
}

/// Decides what to do with what the transport gave: a message goes to the
/// stream that rule `F` names, a termination closes both streams, and a
/// timeout or a message too short for a header is fatal.
pub fn route<F: Forward>(event: Result<Vec<u8>, RecvError>) -> (action: MultiplexAction)
    ensures
        spec_routed::<F>(spec_received(event), action),
{
    match event {
        Err(RecvError::Termination) => MultiplexAction::Close,
        Err(RecvError::TimeOut) => MultiplexAction::Fatal(MultiplexError::UnexpectedTimeout),
        Ok(message) => {
            let result = match PacketView::parse(message.as_slice()) {
                Err(e) => {
                    return MultiplexAction::Fatal(MultiplexError::Violation(e));
                },
                Ok(view) => F::forward(view),
            };
            match result {
                ForwardResult::Request => MultiplexAction::ToServer(message),
                ForwardResult::Response => MultiplexAction::ToClient(message),
            }
        },
    }
}

/// Takes one message off the transport, waiting without bound, and decides
/// what to do with it: the action is the one that `route` decides for what
/// a receive without timeout gave.
pub fn receive_one<R: TransportRecv, F: Forward>(transport_recv: &R) -> (action: MultiplexAction)
    ensures
        exists|event: Result<Seq<u8>, RecvError>|
            #[trigger] transport_recv.yields(None, event) && spec_routed::<F>(event, action),
{
    let event = transport_recv.recv(None);
    let action = route::<F>(event);
    assert(transport_recv.yields(None, spec_received(event)) && spec_routed::<F>(
        spec_received(event),
        action,
    ));
    action
}

/// The stream that the reader of a port builds for `kind` out of the
/// messages `inbound`, each of them a packet: those that the rule of the
/// port sends there, in the order of their arrival.
pub open spec fn spec_stream(inbound: Seq<Seq<u8>>, kind: ForwardResult) -> Seq<Seq<u8>>
    decreases inbound.len(),
{
    if inbound.len() == 0 {
        Seq::empty()
    } else if spec_forward(inbound.last()) == kind {
        spec_stream(inbound.drop_last(), kind).push(inbound.last())
    } else {
        spec_stream(inbound.drop_last(), kind)
    }
}

/// The number of messages among the first `upto` of `inbound` that the rule
/// of the port sends to the stream for `kind`.
pub open spec fn spec_position(inbound: Seq<Seq<u8>>, kind: ForwardResult, upto: int) -> nat
    decreases upto,
{
    if upto <= 0 {
        0
    } else {
        spec_position(inbound, kind, upto - 1) + if spec_forward(inbound[upto - 1]) == kind {
            1nat
        } else {
            0nat
        }
    }
}

proof fn lemma_position_prefix(inbound: Seq<Seq<u8>>, kind: ForwardResult, upto: int)
    requires
        0 <= upto < inbound.len(),
    ensures
        spec_position(inbound.drop_last(), kind, upto) == spec_position(inbound, kind, upto),
    decreases upto,
{
    if upto > 0 {
        lemma_position_prefix(inbound, kind, upto - 1);
    }
}

proof fn lemma_stream_len(inbound: Seq<Seq<u8>>, kind: ForwardResult)
    ensures
        spec_stream(inbound, kind).len() == spec_position(inbound, kind, inbound.len() as int),
    decreases inbound.len(),
{
    if inbound.len() > 0 {
        lemma_stream_len(inbound.drop_last(), kind);
        lemma_position_prefix(inbound, kind, inbound.len() - 1);
    }
}

proof fn lemma_position_monotonic(inbound: Seq<Seq<u8>>, kind: ForwardResult, i: int, j: int)
    requires
        0 <= i <= j,
    ensures
        spec_position(inbound, kind, i) <= spec_position(inbound, kind, j),
    decreases j - i,
{
    if i < j {
        lemma_position_monotonic(inbound, kind, i, j - 1);
    }
}

/// Each message is found in its stream, at the place that the messages
/// before it left for it.
pub proof fn lemma_stream_holds(inbound: Seq<Seq<u8>>, kind: ForwardResult, i: int)
    requires
        0 <= i < inbound.len(),
        spec_forward(inbound[i]) == kind,
    ensures
        spec_position(inbound, kind, i) < spec_stream(inbound, kind).len(),
        spec_stream(inbound, kind)[spec_position(inbound, kind, i) as int] == inbound[i],
    decreases inbound.len(),
{
    lemma_stream_len(inbound, kind);
    if i == inbound.len() - 1 {
        lemma_stream_len(inbound.drop_last(), kind);
        if i > 0 {
            lemma_position_prefix(inbound, kind, i);
        }
    } else {
        lemma_stream_holds(inbound.drop_last(), kind, i);
        lemma_position_prefix(inbound, kind, i);
    }
}

/// The two streams keep the order of arrival: of two messages for the same
/// stream, the one that arrived first stands first in the stream. So the
/// server sees the requests of one caller in the order in which the
/// transport delivered them.
pub proof fn law_streams_keep_order(inbound: Seq<Seq<u8>>, kind: ForwardResult, i: int, j: int)
    requires
        0 <= i < j < inbound.len(),
        spec_forward(inbound[i]) == kind,
        spec_forward(inbound[j]) == kind,
    ensures
        spec_position(inbound, kind, i) < spec_position(inbound, kind, j) < spec_stream(
            inbound,
            kind,
        ).len(),
        spec_stream(inbound, kind)[spec_position(inbound, kind, i) as int] == inbound[i],
        spec_stream(inbound, kind)[spec_position(inbound, kind, j) as int] == inbound[j],
{
    lemma_stream_holds(inbound, kind, i);
    lemma_stream_holds(inbound, kind, j);
    lemma_position_monotonic(inbound, kind, i + 1, j);
}

} // verus!
