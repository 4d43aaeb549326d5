//! The wire packet: a fixed header of three little-endian `u32` words,
//! followed by an opaque body.

use crate::error::ProtocolViolation;
use vstd::prelude::*;

verus! {

/// Correlation id of a call. On the wire it also tells requests from responses.
pub type SlotId = u32;

/// Index of a method within a service interface.
pub type MethodId = u32;

/// Slots at or above this value mark a request; slots below it mark a response.
pub const SLOT_CALL_OR_RETURN_INDICATOR: SlotId = 1000;

/// The method id that asks the exporter to drop a service object.
pub const DELETE_INDICATOR: MethodId = 1234;

/// Number of bytes that the header occupies at the front of every packet.
pub const HEADER_SIZE: usize = 12;

/// Identifier of an exported service object, unique within the exporting port.
#[derive(PartialEq, Eq, Structural, Debug, Clone, Copy)]
pub struct ServiceObjectId {
    pub index: u32,
}

/// The four bytes of `x`, least significant first.
pub open spec fn spec_u32_to_le(x: u32) -> Seq<u8> {
    seq![
        (x % 256) as u8,
        ((x / 256) % 256) as u8,
        ((x / 65536) % 256) as u8,
        ((x / 16777216) % 256) as u8,
    ]
}

/// The word whose little-endian bytes start at `at` in `bytes`.
pub open spec fn spec_u32_from_le(bytes: Seq<u8>, at: int) -> u32
    recommends
        0 <= at,
        at + 4 <= bytes.len(),
{
    (bytes[at] as int + 256 * (bytes[at + 1] as int) + 65536 * (bytes[at + 2] as int) + 16777216
        * (bytes[at + 3] as int)) as u32
}

/// Reading back what was written gives the same word.
pub proof fn lemma_u32_le_round_trip(x: u32)
    ensures
        spec_u32_to_le(x).len() == 4,
        spec_u32_from_le(spec_u32_to_le(x), 0) == x,
{
}

proof fn lemma_base_256_digits(b0: int, b1: int, b2: int, b3: int)
    requires
        0 <= b0 < 256,
        0 <= b1 < 256,
        0 <= b2 < 256,
        0 <= b3 < 256,
    ensures
        ({
            let x = b0 + 256 * b1 + 65536 * b2 + 16777216 * b3;
            &&& 0 <= x < 0x1_0000_0000
            &&& x % 256 == b0
            &&& (x / 256) % 256 == b1
            &&& (x / 65536) % 256 == b2
            &&& (x / 16777216) % 256 == b3
        }),
{
    let x = b0 + 256 * b1 + 65536 * b2 + 16777216 * b3;
    let y = b1 + 256 * b2 + 65536 * b3;
    let z = b2 + 256 * b3;
    assert(x == 256 * y + b0);
    assert(x / 256 == y && x % 256 == b0);
    assert(y == 256 * z + b1);
    assert(y / 256 == z && y % 256 == b1);
    assert(x / 65536 == z) by {
        assert(x == 65536 * z + (256 * b1 + b0));
    }
    assert(z / 256 == b3 && z % 256 == b2);
    assert(x / 16777216 == b3) by {
        assert(x == 16777216 * b3 + (65536 * b2 + 256 * b1 + b0));
    }
}

/// Writing back what was read gives the same four bytes.
pub proof fn lemma_u32_le_bytes_round_trip(bytes: Seq<u8>, at: int)
    requires
        0 <= at,
        at + 4 <= bytes.len(),
    ensures
        spec_u32_to_le(spec_u32_from_le(bytes, at)) == bytes.subrange(at, at + 4),
{
    lemma_base_256_digits(
        bytes[at] as int,
        bytes[at + 1] as int,
        bytes[at + 2] as int,
        bytes[at + 3] as int,
    );
    assert(spec_u32_to_le(spec_u32_from_le(bytes, at)) =~= bytes.subrange(at, at + 4));
}

fn read_u32_le(buffer: &[u8], at: usize) -> (x: u32)
    requires
        at + 4 <= buffer.len(),
    ensures
        x == spec_u32_from_le(buffer@, at as int),
{
    let b0: u32 = buffer[at] as u32;
    let b1: u32 = buffer[at + 1] as u32;
    let b2: u32 = buffer[at + 2] as u32;
    let b3: u32 = buffer[at + 3] as u32;
    b0 + 256 * b1 + 65536 * b2 + 16777216 * b3
}

fn write_u32_le(buffer: &mut [u8], at: usize, x: u32)
    requires
        at + 4 <= old(buffer).len(),
    ensures
        final(buffer).len() == old(buffer).len(),
        final(buffer)@.subrange(at as int, at + 4) == spec_u32_to_le(x),
        forall|i: int|
            0 <= i < old(buffer).len() && !(at <= i < at + 4) ==> final(buffer)@[i] == old(
                buffer,
            )@[i],
{
    buffer[at] = (x % 256) as u8;
    buffer[at + 1] = ((x / 256) % 256) as u8;
    buffer[at + 2] = ((x / 65536) % 256) as u8;
    buffer[at + 3] = ((x / 16777216) % 256) as u8;
    assert(buffer@.subrange(at as int, at + 4) =~= spec_u32_to_le(x));
}

/// The header at the front of every packet.
#[derive(PartialEq, Eq, Structural, Debug, Clone, Copy)]
pub struct PacketHeader {
    /// Correlation id; a request when at or above the indicator.
    pub slot: SlotId,
    /// Target service object of a request; zero on a response.
    pub handle: ServiceObjectId,
    /// Method to invoke, or the delete indicator.
    pub method: MethodId,
}

impl PacketHeader {
    /// The twelve bytes that stand for this header on the wire.
    pub open spec fn spec_bytes(self) -> Seq<u8> {
        spec_u32_to_le(self.slot) + spec_u32_to_le(self.handle.index) + spec_u32_to_le(
            self.method,
        )
    }

    /// The header that the first twelve bytes of `bytes` stand for.
    pub open spec fn spec_parse(bytes: Seq<u8>) -> PacketHeader
        recommends
            bytes.len() >= HEADER_SIZE,
    {
        PacketHeader {
            slot: spec_u32_from_le(bytes, 0),
            handle: ServiceObjectId { index: spec_u32_from_le(bytes, 4) },
            method: spec_u32_from_le(bytes, 8),
        }
    }

    /// Reads the header from the front of `buffer`.
    pub fn new(buffer: &[u8]) -> (header: Self)
        requires
            buffer.len() >= HEADER_SIZE,
        ensures
            header == Self::spec_parse(buffer@),
    {
        PacketHeader {
            slot: read_u32_le(buffer, 0),
            handle: ServiceObjectId { index: read_u32_le(buffer, 4) },
            method: read_u32_le(buffer, 8),
        }
    }

    /// Writes the header over the front of `buffer`, leaving the rest as it was.
    pub fn write(&self, buffer: &mut [u8])
        requires
            old(buffer).len() >= HEADER_SIZE,
        ensures
            final(buffer)@ == self.spec_bytes() + old(buffer)@.skip(HEADER_SIZE as int),
    {
        write_u32_le(buffer, 0, self.slot);
        write_u32_le(buffer, 4, self.handle.index);
        write_u32_le(buffer, 8, self.method);
        proof {
            let b = buffer@;
            assert(b.subrange(0, 4) == spec_u32_to_le(self.slot));
            assert(b.subrange(4, 8) == spec_u32_to_le(self.handle.index));
            assert(b.subrange(8, 12) == spec_u32_to_le(self.method));
            assert forall|i: int| 0 <= i < b.len() implies b[i] == (self.spec_bytes() + old(
                buffer,
            )@.skip(12))[i] by {
                if i < 4 {
                    assert(b[i] == b.subrange(0, 4)[i]);
                } else if i < 8 {
                    assert(b[i] == b.subrange(4, 8)[i - 4]);
                } else if i < 12 {
                    assert(b[i] == b.subrange(8, 12)[i - 8]);
                }
            }
            assert(b =~= self.spec_bytes() + old(buffer)@.skip(12));
        }
    }
}

/// A header survives the trip through its bytes, whatever follows them.
pub proof fn lemma_header_round_trip(header: PacketHeader, rest: Seq<u8>)
    ensures
        header.spec_bytes().len() == HEADER_SIZE,
        PacketHeader::spec_parse(header.spec_bytes() + rest) == header,
{
    let b = header.spec_bytes() + rest;
    lemma_u32_le_round_trip(header.slot);
    lemma_u32_le_round_trip(header.handle.index);
    lemma_u32_le_round_trip(header.method);
    assert(b[0] == spec_u32_to_le(header.slot)[0]);
    assert(b[1] == spec_u32_to_le(header.slot)[1]);
    assert(b[2] == spec_u32_to_le(header.slot)[2]);
    assert(b[3] == spec_u32_to_le(header.slot)[3]);
    assert(b[4] == spec_u32_to_le(header.handle.index)[0]);
    assert(b[5] == spec_u32_to_le(header.handle.index)[1]);
    assert(b[6] == spec_u32_to_le(header.handle.index)[2]);
    assert(b[7] == spec_u32_to_le(header.handle.index)[3]);
    assert(b[8] == spec_u32_to_le(header.method)[0]);
    assert(b[9] == spec_u32_to_le(header.method)[1]);
    assert(b[10] == spec_u32_to_le(header.method)[2]);
    assert(b[11] == spec_u32_to_le(header.method)[3]);
}

/// Whether a slot value marks a request.
pub open spec fn spec_is_request(slot: SlotId) -> bool {
    slot >= SLOT_CALL_OR_RETURN_INDICATOR
}

/// Whether `id` can serve as a correlation id: a value that, sent back in a
/// response, reads as a response.
pub open spec fn spec_is_correlation_id(id: SlotId) -> bool {
    id < SLOT_CALL_OR_RETURN_INDICATOR
}

/// The slot value that carries correlation id `id` in a request.
pub fn slot_into_request(id: SlotId) -> (slot: SlotId)
    requires
        spec_is_correlation_id(id),
    ensures
        slot == id + SLOT_CALL_OR_RETURN_INDICATOR,
        spec_is_request(slot),
{
    id + SLOT_CALL_OR_RETURN_INDICATOR
}

/// The correlation id that a request slot carries: the slot without the
/// indicator. A slot below the indicator is no request slot and carries none.
pub fn slot_into_response(slot: SlotId) -> (id: Option<SlotId>)
    ensures
        id is Some <==> spec_is_request(slot),
        id matches Some(i) ==> i == slot - SLOT_CALL_OR_RETURN_INDICATOR,
{
    if slot >= SLOT_CALL_OR_RETURN_INDICATOR {
        Some(slot - SLOT_CALL_OR_RETURN_INDICATOR)
    } else {
        None
    }
}

/// The bytes of a packet with the given header and body.
pub open spec fn spec_packet(header: PacketHeader, body: Seq<u8>) -> Seq<u8> {
    header.spec_bytes() + body
}

/// The body of a packet: what follows the header.
pub open spec fn spec_body(bytes: Seq<u8>) -> Seq<u8>
    recommends
        bytes.len() >= HEADER_SIZE,
{
    bytes.skip(HEADER_SIZE as int)
}

/// A packet is its header followed by its body, and nothing else.
pub proof fn lemma_packet_parts(header: PacketHeader, body: Seq<u8>)
    ensures
        spec_packet(header, body).len() == HEADER_SIZE + body.len(),
        PacketHeader::spec_parse(spec_packet(header, body)) == header,
        spec_body(spec_packet(header, body)) == body,
{
    lemma_header_round_trip(header, body);
    assert(spec_body(spec_packet(header, body)) =~= body);
}

/// Bytes that are long enough are the packet of their header and their body.
pub proof fn law_packet_is_header_and_body(bytes: Seq<u8>)
    requires
        bytes.len() >= HEADER_SIZE,
    ensures
        spec_packet(PacketHeader::spec_parse(bytes), spec_body(bytes)) == bytes,
{
    lemma_u32_le_bytes_round_trip(bytes, 0);
    lemma_u32_le_bytes_round_trip(bytes, 4);
    lemma_u32_le_bytes_round_trip(bytes, 8);
    let h = PacketHeader::spec_parse(bytes);
    assert(h.spec_bytes() =~= bytes.subrange(0, 12));
    assert(spec_packet(h, spec_body(bytes)) =~= bytes);
}

/// A borrowed packet: bytes known to begin with a header.
#[derive(Debug, Clone, Copy)]
pub struct PacketView<'a> {
    buffer: &'a [u8],
}

impl<'a> View for PacketView<'a> {
    type V = Seq<u8>;

    closed spec fn view(&self) -> Seq<u8> {
        self.buffer@
    }
}

impl<'a> PacketView<'a> {
    #[verifier::type_invariant]
    spec fn inv(self) -> bool {
        self.buffer@.len() >= HEADER_SIZE
    }

    /// Looks at `buffer` as a packet.
    pub fn new(buffer: &'a [u8]) -> (view: Self)
        requires
            buffer.len() >= HEADER_SIZE,
        ensures
            view@ == buffer@,
    {
        PacketView { buffer }
    }

    /// Looks at `buffer` as a packet, if it is long enough to hold a header.
    pub fn parse(buffer: &'a [u8]) -> (result: Result<Self, ProtocolViolation>)
        ensures
            result is Ok <==> buffer.len() >= HEADER_SIZE,
            result matches Ok(view) ==> view@ == buffer@,
            result matches Err(e) ==> e == ProtocolViolation::MalformedPacket,
    {
        if buffer.len() >= HEADER_SIZE {
            Ok(PacketView { buffer })
        } else {
            Err(ProtocolViolation::MalformedPacket)
        }
    }

    /// The header of the packet.
    pub fn header(&self) -> (header: PacketHeader)
        ensures
            self@.len() >= HEADER_SIZE,
            header == PacketHeader::spec_parse(self@),
    {
        proof {
            use_type_invariant(self);
        }
        PacketHeader::new(self.buffer)
    }

    /// The slot word of the header.
    pub fn slot(&self) -> (slot: SlotId)
        ensures
            slot == PacketHeader::spec_parse(self@).slot,
    {
        self.header().slot
    }

    /// The service object that the packet addresses.
    pub fn object_id(&self) -> (id: ServiceObjectId)
        ensures
            id == PacketHeader::spec_parse(self@).handle,
    {
        self.header().handle
    }

    /// The method word of the header.
    pub fn method(&self) -> (method: MethodId)
        ensures
            method == PacketHeader::spec_parse(self@).method,
    {
        self.header().method
    }

    /// The body of the packet.
    pub fn data(&self) -> (data: &'a [u8])
        ensures
            self@.len() >= HEADER_SIZE,
            data@ == spec_body(self@),
    {
        proof {
            use_type_invariant(self);
        }
        let whole: &'a [u8] = self.buffer;
        let body = &whole[HEADER_SIZE..whole.len()];
        assert(body@ =~= spec_body(self@));
        body
    }

    /// All bytes of the packet, header included.
    pub fn buffer(&self) -> (buffer: &'a [u8])
        ensures
            buffer@ == self@,
            buffer@.len() >= HEADER_SIZE,
    {
        proof {
            use_type_invariant(self);
        }
        self.buffer
    }

    /// A copy of the packet that owns its bytes.
    pub fn to_owned(&self) -> (packet: Packet)
        ensures
            packet@ == self@,
    {
        proof {
            use_type_invariant(self);
        }
        let mut buffer: Vec<u8> = Vec::new();
        buffer.extend_from_slice(self.buffer);
        Packet { buffer }
    }
}

/// An owned packet: bytes known to begin with a header.
#[derive(Debug)]
pub struct Packet {
    buffer: Vec<u8>,
}

impl View for Packet {
    type V = Seq<u8>;

    closed spec fn view(&self) -> Seq<u8> {
        self.buffer@
    }
}

impl Packet {
    #[verifier::type_invariant]
    spec fn inv(self) -> bool {
        self.buffer@.len() >= HEADER_SIZE
    }

    /// Takes `buffer` as a packet.
    pub fn new_from_buffer(buffer: Vec<u8>) -> (packet: Self)
        requires
            buffer.len() >= HEADER_SIZE,
        ensures
            packet@ == buffer@,
    {
        Packet { buffer }
    }

    /// Takes `buffer` as a packet, if it is long enough to hold a header.
    pub fn parse(buffer: Vec<u8>) -> (result: Result<Self, ProtocolViolation>)
        ensures
            result is Ok <==> buffer.len() >= HEADER_SIZE,
            result matches Ok(packet) ==> packet@ == buffer@,
            result matches Err(e) ==> e == ProtocolViolation::MalformedPacket,
    {
        if buffer.len() >= HEADER_SIZE {
            Ok(Packet { buffer })
        } else {
            Err(ProtocolViolation::MalformedPacket)
        }
    }

    /// Builds the packet with the given header and body.
    pub fn new_with(header: PacketHeader, body: &[u8]) -> (packet: Self)
        ensures
            packet@ == spec_packet(header, body@),
    {
        let mut buffer: Vec<u8> = Vec::new();
        buffer.resize(HEADER_SIZE, 0u8);
        header.write(buffer.as_mut_slice());
        assert(buffer@ =~= header.spec_bytes());
        buffer.extend_from_slice(body);
        proof {
            lemma_header_round_trip(header, body@);
        }
        Packet { buffer }
    }

    /// Builds a call of `method` on `service` with the serialized arguments
    /// `args`. The slot is left at zero until a client stamps it.
    pub fn new_request(service: ServiceObjectId, method: MethodId, args: &[u8]) -> (packet: Self)
        ensures
            packet@ == spec_packet(PacketHeader { slot: 0, handle: service, method }, args@),
    {
        Self::new_with(PacketHeader { slot: 0, handle: service, method }, args)
    }

    /// A borrowed look at the packet.
    pub fn view_packet(&self) -> (view: PacketView<'_>)
        ensures
            view@ == self@,
    {
        proof {
            use_type_invariant(self);
        }
        PacketView { buffer: self.buffer.as_slice() }
    }

    /// The header of the packet.
    pub fn header(&self) -> (header: PacketHeader)
        ensures
            self@.len() >= HEADER_SIZE,
            header == PacketHeader::spec_parse(self@),
    {
        proof {
            use_type_invariant(self);
        }
        PacketHeader::new(self.buffer.as_slice())
    }

    /// The body of the packet.
    pub fn data(&self) -> (data: &[u8])
        ensures
            self@.len() >= HEADER_SIZE,
            data@ == spec_body(self@),
    {
        proof {
            use_type_invariant(self);
        }
        let whole = self.buffer.as_slice();
        let body = &whole[HEADER_SIZE..whole.len()];
        assert(body@ =~= spec_body(self@));
        body
    }

    /// All bytes of the packet, header included.
    pub fn buffer(&self) -> (buffer: &[u8])
        ensures
            buffer@ == self@,
            buffer@.len() >= HEADER_SIZE,
    {
        proof {
            use_type_invariant(self);
        }
        self.buffer.as_slice()
    }

    /// Gives up the packet for its bytes.
    pub fn into_vec(self) -> (buffer: Vec<u8>)
        ensures
            buffer@ == self@,
            buffer@.len() >= HEADER_SIZE,
    {
        proof {
            use_type_invariant(&self);
        }
        self.buffer
    }

    /// The same packet with the slot word of its header replaced.
    pub fn with_slot(self, slot: SlotId) -> (packet: Self)
        ensures
            packet@ == spec_packet(
                PacketHeader { slot, ..PacketHeader::spec_parse(self@) },
                spec_body(self@),
            ),
    {
        proof {
            use_type_invariant(&self);
        }
        let Packet { mut buffer } = self;
        let header = PacketHeader { slot, ..PacketHeader::new(buffer.as_slice()) };
        header.write(buffer.as_mut_slice());
        Packet { buffer }
    }
}

} // verus!
