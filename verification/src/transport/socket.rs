//! What a stream transport needs besides its stream: the framing of
//! messages, and the rule by which the two ends find each other.
//!
//! On a stream a message travels as its length, in eight big-endian bytes,
//! followed by its bytes. A length of zero never travels: on the sending
//! side an empty message is the signal to stop.

use crate::cbor::{cbor_flag_and_texts, cbor_of_flag_and_texts, Cbor};
use vstd::prelude::*;

verus! {

/// The number of bytes in which the length of a message travels.
pub const FRAME_PREFIX_SIZE: usize = 8;

/// How often an end tries to reach the other before it gives up.
pub const CONNECT_ATTEMPTS: u32 = 100;

/// How long an end waits between two attempts, in milliseconds.
pub const CONNECT_PAUSE_MILLIS: u64 = 10;

/// The eight bytes of `n`, most significant first.
pub open spec fn spec_u64_to_be(n: u64) -> Seq<u8> {
    seq![
        ((n / 0x100_0000_0000_0000) % 256) as u8,
        ((n / 0x1_0000_0000_0000) % 256) as u8,
        ((n / 0x100_0000_0000) % 256) as u8,
        ((n / 0x1_0000_0000) % 256) as u8,
        ((n / 0x100_0000) % 256) as u8,
        ((n / 0x1_0000) % 256) as u8,
        ((n / 0x100) % 256) as u8,
        (n % 256) as u8,
    ]
}

/// The number whose eight big-endian bytes stand at the front of `bytes`.
pub open spec fn spec_u64_from_be(bytes: Seq<u8>) -> u64
    recommends
        bytes.len() >= 8,
{
    (bytes[7] as int + 0x100 * (bytes[6] as int) + 0x1_0000 * (bytes[5] as int) + 0x100_0000 * (
    bytes[4] as int) + 0x1_0000_0000 * (bytes[3] as int) + 0x100_0000_0000 * (bytes[2] as int)
        + 0x1_0000_0000_0000 * (bytes[1] as int) + 0x100_0000_0000_0000 * (bytes[0] as int)) as u64
}

/// Reading back the length that was written gives the same length.
pub proof fn lemma_u64_be_round_trip(n: u64)
    ensures
        spec_u64_to_be(n).len() == 8,
        spec_u64_from_be(spec_u64_to_be(n)) == n,
{
    let x = n as int;
    let q1 = x / 0x100;
    let q2 = x / 0x1_0000;
    let q3 = x / 0x100_0000;
    let q4 = x / 0x1_0000_0000;
    let q5 = x / 0x100_0000_0000;
    let q6 = x / 0x1_0000_0000_0000;
    let q7 = x / 0x100_0000_0000_0000;
    assert(q2 == q1 / 256);
    assert(q3 == q2 / 256);
    assert(q4 == q3 / 256);
    assert(q5 == q4 / 256);
    assert(q6 == q5 / 256);
    assert(q7 == q6 / 256);
    assert(q7 < 256);
    assert(x == 256 * q1 + x % 256);
    assert(q1 == 256 * q2 + q1 % 256);
    assert(q2 == 256 * q3 + q2 % 256);
    assert(q3 == 256 * q4 + q3 % 256);
    assert(q4 == 256 * q5 + q4 % 256);
    assert(q5 == 256 * q6 + q5 % 256);
    assert(q6 == 256 * q7 + q6 % 256);
}

/// Why no frame can be built, or none can follow a prefix.
#[derive(PartialEq, Eq, Structural, Debug, Clone, Copy)]
pub enum FrameError {
    /// The message is empty, or the prefix announces an empty message.
    Empty,
    /// The prefix announces more bytes than this machine can address.
    TooLong,
}

/// The frame in which `message` travels: its length, then its bytes.
pub open spec fn spec_frame(message: Seq<u8>) -> Seq<u8> {
    spec_u64_to_be(message.len() as u64) + message
}

/// The prefix that announces a message of `len` bytes.
pub fn frame_prefix(len: usize) -> (prefix: Vec<u8>)
    ensures
        prefix@ == spec_u64_to_be(len as u64),
{
    let n: u64 = len as u64;
    let mut prefix: Vec<u8> = Vec::new();
    prefix.push(((n / 0x100_0000_0000_0000) % 256) as u8);
    prefix.push(((n / 0x1_0000_0000_0000) % 256) as u8);
    prefix.push(((n / 0x100_0000_0000) % 256) as u8);
    prefix.push(((n / 0x1_0000_0000) % 256) as u8);
    prefix.push(((n / 0x100_0000) % 256) as u8);
    prefix.push(((n / 0x1_0000) % 256) as u8);
    prefix.push(((n / 0x100) % 256) as u8);
    prefix.push((n % 256) as u8);
    assert(prefix@ =~= spec_u64_to_be(len as u64));
    prefix
}

/// Puts `message` into its frame. An empty message has no frame: to the
/// sending side it is the signal to stop.
pub fn frame(message: &[u8]) -> (result: Result<Vec<u8>, FrameError>)
    ensures
        result is Ok <==> message@.len() > 0,
        result matches Ok(framed) ==> framed@ == spec_frame(message@),
        result matches Err(e) ==> e == FrameError::Empty,
{
    if message.len() == 0 {
        return Err(FrameError::Empty);
    }
    let mut framed = frame_prefix(message.len());
    framed.extend_from_slice(message);
    Ok(framed)
}

/// The length that a prefix announces, for the receiving side to read as
/// many bytes.
pub fn frame_length(prefix: &[u8; 8]) -> (result: Result<usize, FrameError>)
    ensures
        result matches Ok(len) ==> len == spec_u64_from_be(prefix@) && len > 0,
        result matches Err(e) ==> e == (if spec_u64_from_be(prefix@) == 0 {
            FrameError::Empty
        } else {
            FrameError::TooLong
        }),
        result is Ok <==> 0 < spec_u64_from_be(prefix@) <= usize::MAX,
{
    let n: u64 = prefix[7] as u64 + 0x100 * (prefix[6] as u64) + 0x1_0000 * (prefix[5] as u64)
        + 0x100_0000 * (prefix[4] as u64) + 0x1_0000_0000 * (prefix[3] as u64) + 0x100_0000_0000
        * (prefix[2] as u64) + 0x1_0000_0000_0000 * (prefix[1] as u64) + 0x100_0000_0000_0000 * (
    prefix[0] as u64);
    if n == 0 {
        Err(FrameError::Empty)
    } else if n > usize::MAX as u64 {
        Err(FrameError::TooLong)
    } else {
        Ok(n as usize)
    }
}

/// A frame is read back as the message that was put into it.
pub proof fn law_frame_round_trip(message: Seq<u8>)
    requires
        0 < message.len() <= u64::MAX,
    ensures
        spec_frame(message).len() == FRAME_PREFIX_SIZE + message.len(),
        spec_u64_from_be(spec_frame(message)) == message.len(),
        spec_frame(message).skip(FRAME_PREFIX_SIZE as int) == message,
{
    let n = message.len() as u64;
    lemma_u64_be_round_trip(n);
    let f = spec_frame(message);
    let p = spec_u64_to_be(n);
    assert(f[0] == p[0] && f[1] == p[1] && f[2] == p[2] && f[3] == p[3]);
    assert(f[4] == p[4] && f[5] == p[5] && f[6] == p[6] && f[7] == p[7]);
    assert(f.skip(8) =~= message);
}

/// What an end does after an attempt to reach the other.
#[derive(PartialEq, Eq, Structural, Debug, Clone, Copy)]
pub enum ConnectStep {
    /// The other end was reached.
    Connected,
    /// Wait for the pause, then try again.
    Retry,
    /// The other end was not reached within the attempts allowed.
    GiveUp,
}

/// Decides what to do after the attempt with number `attempt`, counted from
/// zero, has succeeded or failed.
pub fn connect_step(attempt: u32, reached: bool) -> (step: ConnectStep)
    ensures
        step == (if reached {
            ConnectStep::Connected
        } else if attempt + 1 < CONNECT_ATTEMPTS {
            ConnectStep::Retry
        } else {
            ConnectStep::GiveUp
        }),
{
    if reached {
        ConnectStep::Connected
    } else if attempt < CONNECT_ATTEMPTS - 1 {
        ConnectStep::Retry
    } else {
        ConnectStep::GiveUp
    }
}

/// What one end of a socket transport is created from. Both ends are given
/// the same two addresses; the flag tells them apart.
pub struct SocketArguments {
    /// Whether this end listens, or else connects.
    pub am_i_server: bool,
    /// The address of the first socket.
    pub address_send: String,
    /// The address of the second socket.
    pub address_recv: String,
}

impl SocketArguments {
    /// Reads the arguments of an end from their CBOR form.
    pub fn read(data: &[u8]) -> (result: Option<SocketArguments>)
        ensures
            result is Some <==> cbor_flag_and_texts(data@) is Some,
            result matches Some(arguments) ==> cbor_flag_and_texts(data@) == Some(
                (arguments.am_i_server, arguments.address_send@, arguments.address_recv@),
            ),
    {
        match Cbor::flag_and_texts_from_slice(data) {
            Ok(read) => Some(
                SocketArguments { am_i_server: read.0, address_send: read.1, address_recv: read.2 },
            ),
            Err(_) => None,
        }
    }

    /// Writes the arguments of an end in their CBOR form.
    pub fn write(&self) -> (result: Result<Vec<u8>, ()>)
        ensures
            result matches Ok(data) && data@ == cbor_of_flag_and_texts(
                self.am_i_server,
                self.address_send@,
                self.address_recv@,
            ),
    {
        Cbor::flag_and_texts_to_vec(
            self.am_i_server,
            self.address_send.as_str(),
            self.address_recv.as_str(),
        )
    }

    /// The arguments of the two ends of a transport over the sockets at the
    /// addresses `first` and `second`: both ends are given the two addresses
    /// in this order, the first end to listen and the second to connect.
    pub fn for_both_ends(first: &str, second: &str) -> (ends: (SocketArguments, SocketArguments))
        ensures
            ends.0.am_i_server && !ends.1.am_i_server,
            ends.0.address_send@ == first@ && ends.0.address_recv@ == second@,
            ends.1.address_send@ == first@ && ends.1.address_recv@ == second@,
    {
        (
            SocketArguments {
                am_i_server: true,
                address_send: first.to_owned(),
                address_recv: second.to_owned(),
            },
            SocketArguments {
                am_i_server: false,
                address_send: first.to_owned(),
                address_recv: second.to_owned(),
            },
        )
    }
}

} // verus!
