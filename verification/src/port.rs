//! The port: the router between what is exported, what is imported, and the
//! calls that go either way.
//!
//! A port owns the registry of exported service objects, the record of
//! imported handles, and the client that places outbound calls. It performs
//! no I/O: a call yields the packet to send, and what arrives is handed in.

pub mod client;
pub mod server;

use crate::port::client::{CallState, Client, ClientView, JoinEvent};
use crate::config::Config;
use crate::error::{
    CallError, ConfigError, DispatchError, PortError, ProtocolViolation, ShutdownError,
};
use crate::packet::{
    lemma_packet_parts, spec_packet, MethodId, Packet, PacketHeader, ServiceObjectId, SlotId,
    DELETE_INDICATOR, HEADER_SIZE, SLOT_CALL_OR_RETURN_INDICATOR,
};
use crate::port::server::{handle_request, prepare, spec_handled, spec_prepared, Handled, Prepared};
use crate::service::{Dispatch, HandleToExchange, RemoteObjectId};
use crate::table::{spec_has_room, spec_is_next_id, Table};
use std::sync::Arc;
use vstd::prelude::*;

verus! {

/// The state of a port, as its callers may reason about it.
pub struct PortView<D: ?Sized> {
    /// The exported service objects, by service object id.
    pub registry: Map<u32, Arc<D>>,
    /// The imported handles, by remote object id.
    pub remotes: Map<u32, HandleToExchange>,
    /// The calling side.
    pub client: ClientView,
    /// Whether the port is shutting down.
    pub terminating: bool,
    /// The number of service objects, and of remote objects, that the port
    /// may hold at most.
    pub limit: u32,
}

impl<D: ?Sized> PortView<D> {
    /// The same port with another registry.
    pub open spec fn with_registry(self, registry: Map<u32, Arc<D>>) -> PortView<D> {
        PortView { registry, ..self }
    }

    /// The same port with another record of imported handles.
    pub open spec fn with_remotes(self, remotes: Map<u32, HandleToExchange>) -> PortView<D> {
        PortView { remotes, ..self }
    }

    /// The same port with its calling side in another state.
    pub open spec fn with_client(self, client: ClientView) -> PortView<D> {
        PortView { client, ..self }
    }

    /// The same port, shutting down.
    pub open spec fn terminated(self) -> PortView<D> {
        PortView { terminating: true, ..self }
    }
}

/// The request that calls `method` of `service` with `args` on the slot with
/// correlation id `id`.
pub open spec fn spec_call_request(
    id: SlotId,
    service: ServiceObjectId,
    method: MethodId,
    args: Seq<u8>,
) -> Seq<u8> {
    spec_packet(
        PacketHeader {
            slot: (id + SLOT_CALL_OR_RETURN_INDICATOR) as SlotId,
            handle: service,
            method,
        },
        args,
    )
}

/// The request that asks the exporter to drop `service`, on the slot with
/// correlation id `id`.
pub open spec fn spec_delete_request(id: SlotId, service: ServiceObjectId) -> Seq<u8> {
    spec_call_request(id, service, DELETE_INDICATOR, Seq::<u8>::empty())
}

/// A port over service objects of type `D`.
pub struct BasicPort<D: Dispatch + ?Sized> {
    registry: Table<Arc<D>>,
    remotes: Table<HandleToExchange>,
    client: Client,
    termination: bool,
}

impl<D: Dispatch + ?Sized> View for BasicPort<D> {
    type V = PortView<D>;

    closed spec fn view(&self) -> PortView<D> {
        PortView {
            registry: self.registry@,
            remotes: self.remotes@,
            client: self.client@,
            terminating: self.termination,
            limit: self.registry.spec_limit(),
        }
    }
}

impl<D: Dispatch + ?Sized> BasicPort<D> {
    /// The invariant of a port. `new` establishes it and every method
    /// keeps it.
    pub closed spec fn wf(&self) -> bool {
        &&& self.registry.wf()
        &&& self.remotes.wf()
        &&& self.client.wf()
        &&& self.remotes.spec_limit() == self.registry.spec_limit()
    }

    /// In a well-formed port the client is valid, and so the calls in flight
    /// never exceed the call slots.
    pub proof fn lemma_wf_valid(&self)
        requires
            self.wf(),
        ensures
            self@.client.valid(),
            self@.client.in_flight() <= self@.client.call_slots(),
    {
        self.client.lemma_wf_valid();
    }

    /// Creates a port with nothing exported, nothing imported and no call in
    /// flight.
    pub fn new(config: &Config) -> (result: Result<Self, ConfigError>)
        ensures
            result is Ok <==> config.call_slots <= SLOT_CALL_OR_RETURN_INDICATOR
                && config.maximum_services_num > 0,
            result matches Ok(port) ==> {
                &&& port.wf()
                &&& port@.registry == Map::<u32, Arc<D>>::empty()
                &&& port@.remotes == Map::<u32, HandleToExchange>::empty()
                &&& port@.client == ClientView::fresh(config.call_slots as nat)
                &&& !port@.terminating
                &&& port@.limit == config.maximum_services_num
            },
            result matches Err(e) ==> e == (if config.call_slots
                <= SLOT_CALL_OR_RETURN_INDICATOR {
                ConfigError::MaximumServices
            } else {
                ConfigError::CallSlots
            }),
    {
        let client = match Client::new(config.call_slots) {
            Ok(client) => client,
            Err(e) => {
                return Err(e);
            },
        };
        if config.maximum_services_num == 0 {
            return Err(ConfigError::MaximumServices);
        }
        Ok(
            BasicPort {
                registry: Table::new(config.maximum_services_num),
                remotes: Table::new(config.maximum_services_num),
                client,
                termination: false,
            },
        )
    }

    /// Puts a service object into the registry and returns the id under
    /// which the peer may call it: the smallest id not in use.
    pub fn register(&mut self, service: Arc<D>) -> (result: Result<ServiceObjectId, PortError>)
        requires
            old(self).wf(),
        ensures
            final(self).wf(),
            result is Ok <==> spec_has_room(old(self)@.registry, old(self)@.limit),
            result matches Ok(id) ==> {
                &&& spec_is_next_id(old(self)@.registry, id.index)
                &&& final(self)@ == old(self)@.with_registry(
                    old(self)@.registry.insert(id.index, service),
                )
            },
            result matches Err(e) ==> e == PortError::TooManyServices && final(self)@ == old(
                self,
            )@,
    {
        match self.registry.insert(service) {
            Ok(index) => Ok(ServiceObjectId { index }),
            Err(_) => Err(PortError::TooManyServices),
        }
    }

    /// The service object registered under `id`, if there is one. A caller
    /// that shares the port may clone the pointer and run the call without
    /// holding on to the port.
    pub fn service(&self, id: ServiceObjectId) -> (object: Option<&Arc<D>>)
        requires
            self.wf(),
        ensures
            object is Some <==> self@.registry.dom().contains(id.index),
            object matches Some(found) ==> *found == self@.registry[id.index],
    {
        self.registry.get(id.index)
    }

    /// Reads a message from the request stream and, for a call, looks up the
    /// service object it names.
    pub fn prepare(&self, message: &[u8]) -> (result: Result<Prepared<D>, ProtocolViolation>)
        requires
            self.wf(),
        ensures
            result == spec_prepared(self@.registry, message@),
    {
        prepare(&self.registry, message)
    }

    /// Runs `method` of the service object `id` on `args` and returns what
    /// it returned. A call that names no registered service object, or that
    /// the skeleton of the object rejects, is a violation, fatal to the
    /// connection.
    pub fn dispatch(&self, id: ServiceObjectId, method: MethodId, args: &[u8]) -> (result: Result<
        Vec<u8>,
        ProtocolViolation,
    >)
        requires
            self.wf(),
        ensures
            !self@.registry.dom().contains(id.index) ==> result == Err::<Vec<u8>, _>(
                ProtocolViolation::UnknownService,
            ),
            self@.registry.dom().contains(id.index) ==> match result {
                Ok(ret) => self@.registry[id.index].answers(method, args@, Ok(ret@)),
                Err(violation) => exists|e: DispatchError|
                    violation == e.spec_violation() && #[trigger] self@.registry[id.index].answers(
                        method,
                        args@,
                        Err(e),
                    ),
            },
    {
        match self.registry.get(id.index) {
            None => Err(ProtocolViolation::UnknownService),
            Some(object) => match object.dispatch_and_call(method, args) {
                Ok(ret) => Ok(ret),
                Err(e) => Err(e.violation()),
            },
        }
    }

    /// Takes the service object `id` out of the registry and hands it to the
    /// caller, who decides where it is dropped. To delete what is not
    /// registered is a violation: nothing is removed, and the error is fatal
    /// to the connection, which the caller is to give up.
    pub fn delete(&mut self, id: ServiceObjectId) -> (result: Result<Arc<D>, ProtocolViolation>)
        requires
            old(self).wf(),
        ensures
            final(self).wf(),
            result is Ok <==> old(self)@.registry.dom().contains(id.index),
            result matches Ok(object) ==> {
                &&& object == old(self)@.registry[id.index]
                &&& final(self)@ == old(self)@.with_registry(
                    old(self)@.registry.remove(id.index),
                )
            },
            result matches Err(e) ==> e == ProtocolViolation::UnknownService && final(self)@
                == old(self)@,
    {
        match self.registry.remove(id.index) {
            Some(object) => Ok(object),
            None => Err(ProtocolViolation::UnknownService),
        }
    }

    /// Runs one message from the request stream against the registry and
    /// builds the response.
    pub fn handle_request(&mut self, message: &[u8]) -> (outcome: Result<
        Handled<D>,
        ProtocolViolation,
    >)
        requires
            old(self).wf(),
        ensures
            final(self).wf(),
            spec_handled(old(self)@.registry, message@, outcome, final(self)@.registry),
            final(self)@ == old(self)@.with_registry(final(self)@.registry),
    {
        handle_request(&mut self.registry, message)
    }

    /// Starts a call of `method` on the remote service `id` with the
    /// serialized arguments `args`, and returns the request to send. The
    /// call takes the first free slot; with every slot taken it fails.
    pub fn call(&mut self, id: ServiceObjectId, method: MethodId, args: &[u8]) -> (result: Result<
        Packet,
        CallError,
    >)
        requires
            old(self).wf(),
        ensures
            final(self).wf(),
            result is Ok <==> old(self)@.client.in_flight() < old(self)@.client.call_slots(),
            result is Ok <==> old(self)@.client.pool.free.len() > 0,
            result matches Ok(request) ==> {
                &&& old(self)@.client.pool.free.len() > 0
                &&& request@ == spec_call_request(old(self)@.client.pool.free[0], id, method, args@)
                &&& final(self)@ == old(self)@.with_client(old(self)@.client.begin())
            },
            result matches Err(e) ==> e == CallError::TooManyCalls && final(self)@ == old(self)@,
    {
        let packet = Packet::new_request(id, method, args);
        proof {
            lemma_packet_parts(PacketHeader { slot: 0, handle: id, method }, args@);
        }
        self.client.begin_call(packet.view_packet())
    }

    /// Takes in a message from the response stream and parks it on the slot
    /// it names.
    pub fn deliver(&mut self, response: Vec<u8>) -> (result: Result<SlotId, ProtocolViolation>)
        requires
            old(self).wf(),
        ensures
            final(self).wf(),
            result is Ok <==> response@.len() >= HEADER_SIZE && old(self)@.client.awaits(
                PacketHeader::spec_parse(response@).slot,
            ),
            result matches Ok(slot) ==> {
                &&& slot == PacketHeader::spec_parse(response@).slot
                &&& final(self)@ == old(self)@.with_client(
                    old(self)@.client.deliver(slot, response@),
                )
            },
            result matches Err(e) ==> {
                &&& final(self)@ == old(self)@
                &&& e == (if response@.len() < HEADER_SIZE {
                    ProtocolViolation::MalformedPacket
                } else {
                    ProtocolViolation::UnknownSlot
                })
            },
    {
        self.client.deliver(response)
    }

    /// Collects the response parked on `slot` and frees the slot.
    pub fn finish_call(&mut self, slot: SlotId) -> (response: Option<Packet>)
        requires
            old(self).wf(),
        ensures
            final(self).wf(),
            response is Some <==> old(self)@.client.answered(slot),
            response matches Some(packet) ==> {
                &&& old(self)@.client.state(slot) == CallState::Answered(packet@)
                &&& packet@.len() >= HEADER_SIZE
                &&& final(self)@ == old(self)@.with_client(old(self)@.client.finish(slot))
            },
            response is None ==> final(self)@ == old(self)@,
    {
        self.client.finish_call(slot)
    }

    /// Asks the peer to drop its service object `id`, as a dropped proxy
    /// does. A port that is terminating asks nothing: the result is `None`
    /// and nothing changes. Otherwise the request goes out as a call of the
    /// delete method with an empty body.
    pub fn delete_request(&mut self, id: ServiceObjectId) -> (result: Result<
        Option<Packet>,
        CallError,
    >)
        requires
            old(self).wf(),
        ensures
            final(self).wf(),
            old(self)@.terminating ==> result == Ok::<Option<Packet>, CallError>(None)
                && final(self)@ == old(self)@,
            !old(self)@.terminating ==> {
                &&& result is Ok <==> old(self)@.client.in_flight() < old(
                    self,
                )@.client.call_slots()
                &&& result matches Ok(sent) ==> {
                    &&& sent matches Some(request)
                    &&& old(self)@.client.pool.free.len() > 0
                    &&& request@ == spec_delete_request(old(self)@.client.pool.free[0], id)
                    &&& final(self)@ == old(self)@.with_client(old(self)@.client.begin())
                }
                &&& result matches Err(e) ==> e == CallError::TooManyCalls && final(self)@
                    == old(self)@
            },
    {
        if self.termination {
            return Ok(None);
        }
        let empty: Vec<u8> = Vec::new();
        match self.call(id, DELETE_INDICATOR, empty.as_slice()) {
            Ok(request) => Ok(Some(request)),
            Err(e) => Err(e),
        }
    }

    /// Takes note of a handle that the peer gave, and returns the id under
    /// which this port keeps track of it: the smallest id not in use.
    pub fn register_remote(&mut self, handle: HandleToExchange) -> (result: Result<
        RemoteObjectId,
        PortError,
    >)
        requires
            old(self).wf(),
        ensures
            final(self).wf(),
            result is Ok <==> spec_has_room(old(self)@.remotes, old(self)@.limit),
            result matches Ok(id) ==> {
                &&& spec_is_next_id(old(self)@.remotes, id.index)
                &&& final(self)@ == old(self)@.with_remotes(
                    old(self)@.remotes.insert(id.index, handle),
                )
            },
            result matches Err(e) ==> e == PortError::TooManyRemotes && final(self)@ == old(
                self,
            )@,
    {
        match self.remotes.insert(handle) {
            Ok(index) => Ok(RemoteObjectId { index }),
            Err(_) => Err(PortError::TooManyRemotes),
        }
    }

    /// Forgets the remote object `id` and returns the handle it stood for,
    /// if the port kept track of it.
    pub fn forget_remote(&mut self, id: RemoteObjectId) -> (handle: Option<HandleToExchange>)
        requires
            old(self).wf(),
        ensures
            final(self).wf(),
            handle is Some <==> old(self)@.remotes.dom().contains(id.index),
            handle matches Some(h) ==> {
                &&& h == old(self)@.remotes[id.index]
                &&& final(self)@ == old(self)@.with_remotes(old(self)@.remotes.remove(id.index))
            },
            handle is None ==> final(self)@ == old(self)@,
    {
        self.remotes.remove(id.index)
    }

    /// Shuts the client of the port down, given what became of its response
    /// receiver.
    pub fn shutdown_client(&self, event: JoinEvent) -> (result: Result<(), ShutdownError>)
        ensures
            result == (match event {
                JoinEvent::Joined => Ok::<(), ShutdownError>(()),
                JoinEvent::TimedOut => Err(ShutdownError::ReceiverRunning),
                JoinEvent::Disconnected => Err(ShutdownError::ReceiverLost),
            }),
    {
        self.client.shutdown(event)
    }

    /// Marks the port as shutting down: from now on dropped proxies ask the
    /// peer for nothing.
    pub fn terminate(&mut self)
        requires
            old(self).wf(),
        ensures
            final(self).wf(),
            final(self)@ == old(self)@.terminated(),
    {
        self.termination = true;
    }

    /// Whether the port is shutting down.
    pub fn is_terminating(&self) -> (terminating: bool)
        ensures
            terminating == self@.terminating,
    {
        self.termination
    }

    /// The number of service objects exported.
    pub fn exported(&self) -> (n: usize)
        requires
            self.wf(),
        ensures
            n == self@.registry.dom().len(),
    {
        self.registry.len()
    }

    /// The number of remote objects imported.
    pub fn imported(&self) -> (n: usize)
        requires
            self.wf(),
        ensures
            n == self@.remotes.dom().len(),
    {
        self.remotes.len()
    }

    /// The number of outbound calls in flight.
    pub fn calls_in_flight(&self) -> (n: usize)
        requires
            self.wf(),
        ensures
            n == self@.client.in_flight(),
            n <= self@.client.call_slots(),
    {
        self.client.calls_in_flight()
    }
}

} // verus!
