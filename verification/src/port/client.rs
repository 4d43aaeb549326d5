//! The calling side of a port: a pool of call slots and the matching of
//! responses to the calls that wait for them.
//!
//! A call takes a free slot, stamps it into the request, and waits. The
//! response carries the slot back, is parked on it, and is collected by the
//! caller, which frees the slot. Sending, receiving and waiting are the
//! caller's business; this module decides.

use crate::error::{CallError, ConfigError, ProtocolViolation, ShutdownError};
use crate::packet::{
    slot_into_request, spec_body, spec_packet, Packet, PacketHeader, PacketView, SlotId,
    HEADER_SIZE, SLOT_CALL_OR_RETURN_INDICATOR,
};
use crate::pool::{lemma_acquire_valid, lemma_release_valid, Pool, PoolView};
use vstd::prelude::*;

verus! {

/// What a call slot is doing.
pub enum CallState {
    /// No call holds the slot.
    Free,
    /// A call was sent on the slot and its response is awaited.
    Waiting,
    /// The response has arrived, with these bytes, and waits to be collected.
    Answered(Seq<u8>),
}

/// The state of a client, as its callers may reason about it.
pub struct ClientView {
    /// The call slots: which are held by a call, and which are free.
    pub pool: PoolView,
    /// For each slot, the response parked on it, if any.
    pub answers: Seq<Option<Seq<u8>>>,
}

impl ClientView {
    /// The number of call slots.
    pub open spec fn call_slots(self) -> nat {
        self.pool.size()
    }

    /// The number of calls in flight: the slots that a call holds.
    pub open spec fn in_flight(self) -> nat {
        self.pool.taken_count()
    }

    /// What `slot` is doing.
    pub open spec fn state(self, slot: SlotId) -> CallState
        recommends
            slot < self.call_slots(),
    {
        if !self.pool.taken[slot as int] {
            CallState::Free
        } else {
            match self.answers[slot as int] {
                None => CallState::Waiting,
                Some(response) => CallState::Answered(response),
            }
        }
    }

    /// Whether a call waits on `slot` for its response.
    pub open spec fn awaits(self, slot: SlotId) -> bool {
        slot < self.call_slots() && self.state(slot) is Waiting
    }

    /// Whether a response is parked on `slot`.
    pub open spec fn answered(self, slot: SlotId) -> bool {
        slot < self.call_slots() && self.state(slot) is Answered
    }

    /// What holds of every client: its slots form a valid pool, small enough
    /// for every slot to read as a correlation id, and only a slot that a
    /// call holds has a response parked on it.
    pub open spec fn valid(self) -> bool {
        &&& self.pool.valid()
        &&& self.pool.size() <= SLOT_CALL_OR_RETURN_INDICATOR
        &&& self.answers.len() == self.pool.size()
        &&& forall|i: int|
            0 <= i < self.answers.len() ==> ((#[trigger] self.answers[i]) matches Some(response)
                ==> self.pool.taken[i] && response.len() >= HEADER_SIZE)
    }

    /// The client of `call_slots` slots with no call in flight.
    pub open spec fn fresh(call_slots: nat) -> ClientView {
        ClientView {
            pool: PoolView::fresh(call_slots),
            answers: Seq::new(call_slots, |i: int| None),
        }
    }

    /// The state after a call has taken the first free slot.
    pub open spec fn begin(self) -> ClientView
        recommends
            self.pool.free.len() > 0,
    {
        ClientView { pool: self.pool.acquire(), answers: self.answers }
    }

    /// The state after `response` has been parked on `slot`.
    pub open spec fn deliver(self, slot: SlotId, response: Seq<u8>) -> ClientView
        recommends
            self.awaits(slot),
    {
        ClientView { pool: self.pool, answers: self.answers.update(slot as int, Some(response)) }
    }

    /// The state after the response on `slot` has been collected.
    pub open spec fn finish(self, slot: SlotId) -> ClientView
        recommends
            self.answered(slot),
    {
        ClientView {
            pool: self.pool.release(slot),
            answers: self.answers.update(slot as int, None),
        }
    }
}

/// The request that leaves when a call built as `packet` goes out on the
/// slot with correlation id `id`.
pub open spec fn spec_stamped(packet: Seq<u8>, id: SlotId) -> Seq<u8>
    recommends
        packet.len() >= HEADER_SIZE,
{
    spec_packet(
        PacketHeader {
            slot: (id + SLOT_CALL_OR_RETURN_INDICATOR) as SlotId,
            ..PacketHeader::spec_parse(packet)
        },
        spec_body(packet),
    )
}

/// Each step of a call keeps a client valid.
pub proof fn lemma_steps_valid(c: ClientView, slot: SlotId, response: Seq<u8>)
    requires
        c.valid(),
    ensures
        c.pool.free.len() > 0 ==> c.begin().valid() && c.begin().awaits(c.pool.free[0]),
        c.awaits(slot) && response.len() >= HEADER_SIZE ==> c.deliver(slot, response).valid()
            && c.deliver(slot, response).state(slot) == CallState::Answered(response),
        c.answered(slot) ==> c.finish(slot).valid() && c.finish(slot).state(slot)
            == CallState::Free,
{
    lemma_acquire_valid(c.pool);
    if c.pool.free.len() > 0 {
        let n = c.begin();
        let k = c.pool.free[0];
        assert(c.answers[k as int] is None);
    }
    if c.answered(slot) {
        lemma_release_valid(c.pool, slot);
    }
}

/// How long a client waits for its response receiver to end, in
/// milliseconds, when it is shut down.
pub const JOIN_TIMEOUT_MILLIS: u64 = 100;

/// What a client learns of its response receiver when it is shut down.
#[derive(PartialEq, Eq, Structural, Debug, Clone, Copy)]
pub enum JoinEvent {
    /// The receiver has reported its end.
    Joined,
    /// The receiver has reported nothing within the timeout.
    TimedOut,
    /// The receiver can report nothing any more.
    Disconnected,
}

/// The calling side of a port.
pub struct Client {
    pool: Pool,
    answers: Vec<Option<Packet>>,
}

/// What a parked response holds, as bytes.
pub open spec fn spec_answer_bytes(answer: Option<Packet>) -> Option<Seq<u8>> {
    match answer {
        None => None,
        Some(packet) => Some(packet@),
    }
}

impl View for Client {
    type V = ClientView;

    closed spec fn view(&self) -> ClientView {
        ClientView {
            pool: self.pool@,
            answers: self.answers@.map_values(|a: Option<Packet>| spec_answer_bytes(a)),
        }
    }
}

impl Client {
    /// The invariant of a client. `new` establishes it and every method
    /// keeps it.
    pub closed spec fn wf(&self) -> bool {
        &&& self.pool.wf()
        &&& self@.valid()
    }

    /// A well-formed client has a valid view, and so never more calls in
    /// flight than it has slots.
    pub proof fn lemma_wf_valid(&self)
        requires
            self.wf(),
        ensures
            self@.valid(),
            self@.in_flight() <= self@.call_slots(),
    {
        self.pool.lemma_wf_valid();
    }

    /// Creates a client with `call_slots` slots, all free, to be taken in
    /// ascending order. With no slot every call fails. A count above the
    /// request indicator is refused: a slot beyond it would not come back
    /// as a response.
    pub fn new(call_slots: usize) -> (result: Result<Client, ConfigError>)
        ensures
            result is Ok <==> call_slots <= SLOT_CALL_OR_RETURN_INDICATOR,
            result matches Ok(client) ==> client.wf() && client@ == ClientView::fresh(
                call_slots as nat,
            ),
            result matches Err(e) ==> e == ConfigError::CallSlots,
    {
        if call_slots > SLOT_CALL_OR_RETURN_INDICATOR as usize {
            return Err(ConfigError::CallSlots);
        }
        let pool = match Pool::new(call_slots) {
            Ok(pool) => pool,
            Err(_) => {
                return Err(ConfigError::CallSlots);
            },
        };
        let mut answers: Vec<Option<Packet>> = Vec::new();
        let mut i: usize = 0;
        while i < call_slots
            invariant
                i <= call_slots,
                answers@.len() == i,
                forall|k: int| 0 <= k < i ==> answers@[k] is None,
            decreases call_slots - i,
        {
            answers.push(None);
            i = i + 1;
        }
        let client = Client { pool, answers };
        proof {
            pool.lemma_wf_valid();
            assert(client@.answers =~= Seq::new(call_slots as nat, |i: int| None));
        }
        Ok(client)
    }

    /// The number of call slots.
    pub fn call_slots(&self) -> (n: usize)
        requires
            self.wf(),
        ensures
            n == self@.call_slots(),
    {
        self.pool.size()
    }

    /// The number of calls in flight.
    pub fn calls_in_flight(&self) -> (n: usize)
        requires
            self.wf(),
        ensures
            n == self@.in_flight(),
            n <= self@.call_slots(),
    {
        self.pool.taken_count()
    }

    /// Shuts the client down, given what became of its response receiver.
    /// The receiver ends once the multiplexer has closed the response
    /// stream, so the multiplexer is to be shut down first.
    pub fn shutdown(&self, event: JoinEvent) -> (result: Result<(), ShutdownError>)
        ensures
            result == (match event {
                JoinEvent::Joined => Ok::<(), ShutdownError>(()),
                JoinEvent::TimedOut => Err(ShutdownError::ReceiverRunning),
                JoinEvent::Disconnected => Err(ShutdownError::ReceiverLost),
            }),
    {
        match event {
            JoinEvent::Joined => Ok(()),
            JoinEvent::TimedOut => Err(ShutdownError::ReceiverRunning),
            JoinEvent::Disconnected => Err(ShutdownError::ReceiverLost),
        }
    }

    /// Starts a call: takes the first free slot and stamps it, as a request,
    /// into a copy of `packet`, which is then ready to be sent. Fails when
    /// every slot is taken; a caller may wait for a slot to be freed and try
    /// again until its timeout has passed.
    pub fn begin_call(&mut self, packet: PacketView) -> (result: Result<Packet, CallError>)
        requires
            old(self).wf(),
        ensures
            final(self).wf(),
            result is Ok <==> old(self)@.in_flight() < old(self)@.call_slots(),
            result is Ok <==> old(self)@.pool.free.len() > 0,
            result matches Ok(request) ==> {
                &&& old(self)@.pool.free.len() > 0
                &&& final(self)@ == old(self)@.begin()
                &&& request@ == spec_stamped(packet@, old(self)@.pool.free[0])
            },
            result matches Err(e) ==> e == CallError::TooManyCalls && final(self)@ == old(self)@,
    {
        proof {
            self.pool.lemma_wf_valid();
            lemma_steps_valid(self@, 0, Seq::empty());
            lemma_acquire_valid(self@.pool);
        }
        match self.pool.acquire() {
            None => Err(CallError::TooManyCalls),
            Some(slot) => Ok(packet.to_owned().with_slot(slot_into_request(slot))),
        }
    }

    /// Takes in a message from the response stream and parks it on the slot
    /// it names, whose caller may then be woken. A message too short for a
    /// header, or one for a slot on which no call waits, is a violation and
    /// changes nothing.
    pub fn deliver(&mut self, response: Vec<u8>) -> (result: Result<SlotId, ProtocolViolation>)
        requires
            old(self).wf(),
        ensures
            final(self).wf(),
            result is Ok <==> response@.len() >= HEADER_SIZE && old(self)@.awaits(
                PacketHeader::spec_parse(response@).slot,
            ),
            result matches Ok(slot) ==> {
                &&& slot == PacketHeader::spec_parse(response@).slot
                &&& final(self)@ == old(self)@.deliver(slot, response@)
            },
            result matches Err(e) ==> {
                &&& final(self)@ == old(self)@
                &&& e == (if response@.len() < HEADER_SIZE {
                    ProtocolViolation::MalformedPacket
                } else {
                    ProtocolViolation::UnknownSlot
                })
            },
    {
        let packet = match Packet::parse(response) {
            Ok(packet) => packet,
            Err(e) => {
                return Err(e);
            },
        };
        let slot = packet.header().slot;
        if !self.pool.is_taken(slot) {
            return Err(ProtocolViolation::UnknownSlot);
        }
        proof {
            self.pool.lemma_wf_valid();
        }
        match &self.answers[slot as usize] {
            None => {},
            Some(_) => {
                return Err(ProtocolViolation::UnknownSlot);
            },
        }
        proof {
            lemma_steps_valid(self@, slot, response@);
            assert(self.answers@.update(slot as int, Some(packet)).map_values(
                |a: Option<Packet>| spec_answer_bytes(a),
            ) =~= self@.answers.update(slot as int, Some(response@)));
        }
        self.answers[slot as usize] = Some(packet);
        Ok(slot)
    }

    /// Collects the response parked on `slot` and frees the slot, which goes
    /// to the back of the queue of free slots. Gives nothing, and changes
    /// nothing, where no response is parked there.
    pub fn finish_call(&mut self, slot: SlotId) -> (response: Option<Packet>)
        requires
            old(self).wf(),
        ensures
            final(self).wf(),
            response is Some <==> old(self)@.answered(slot),
            response matches Some(packet) ==> {
                &&& old(self)@.state(slot) == CallState::Answered(packet@)
                &&& packet@.len() >= HEADER_SIZE
                &&& final(self)@ == old(self)@.finish(slot)
            },
            response is None ==> final(self)@ == old(self)@,
    {
        proof {
            self.pool.lemma_wf_valid();
        }
        if !self.pool.is_taken(slot) {
            return None;
        }
        match &self.answers[slot as usize] {
            None => {
                return None;
            },
            Some(_) => {},
        }
        proof {
            lemma_steps_valid(self@, slot, Seq::empty());
        }
        let mut taken: Option<Packet> = None;
        std::mem::swap(&mut self.answers[slot as usize], &mut taken);
        proof {
            assert(self.answers@.map_values(|a: Option<Packet>| spec_answer_bytes(a)) =~= old(
                self,
            )@.answers.update(slot as int, None));
        }
        let released = self.pool.release(slot);
        assert(released);
        taken
    }
}

} // verus!
