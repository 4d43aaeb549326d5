//! The context: one end of a connection, assembled from a port and a server,
//! and taken apart in a fixed order.

use crate::port::client::{CallState, ClientView};
use crate::config::Config;
use crate::error::{CallError, ConfigError, PortError, ProtocolViolation};
use crate::packet::{MethodId, Packet, PacketHeader, ServiceObjectId, SlotId, HEADER_SIZE};
use crate::pool::PoolView;
use crate::port::{spec_call_request, spec_delete_request, BasicPort, PortView};
use crate::port::server::{spec_handled, spec_prepared, Handled, Prepared, Server};
use crate::service::export_import::Skeleton;
use crate::service::{
    Dispatch, HandleInstance, HandleToExchange, RemoteObjectId, INITIAL_SERVICE_ID,
};
use crate::table::{spec_has_room, spec_is_next_id};
use std::sync::Arc;
use vstd::prelude::*;

verus! {

/// How far the shutdown of a context has come.
#[derive(PartialEq, Eq, Structural, Debug, Clone, Copy)]
pub enum Stage {
    /// The context serves and calls.
    Running,
    /// The termination flag of the port is set: dropped proxies no longer
    /// ask the peer for anything.
    Terminating,
    /// The initial service and the handles that the user held are dropped.
    HandlesDropped,
    /// The multiplexer has terminated the transport and joined its reader.
    MultiplexerDown,
    /// The client has joined its response receiver.
    ClientDown,
    /// The server has drained the request stream and joined its workers.
    ServerDown,
    /// The port is dropped, and with it what was still exported.
    Closed,
}

/// What the owner of a context has to do next to shut it down.
#[derive(PartialEq, Eq, Structural, Debug, Clone, Copy)]
pub enum ShutdownAction {
    /// Drop the initial service and every handle held.
    DropHandles,
    /// Invoke the terminator of the transport and join the reader.
    ShutdownMultiplexer,
    /// Join the response receiver of the client.
    ShutdownClient,
    /// Drain the request stream and join the workers of the server.
    ShutdownServer,
    /// Drop the port.
    DropPort,
    /// Nothing is left to do.
    Done,
}

/// The stage that follows `stage`.
pub open spec fn spec_next_stage(stage: Stage) -> Stage {
    match stage {
        Stage::Running => Stage::Terminating,
        Stage::Terminating => Stage::HandlesDropped,
        Stage::HandlesDropped => Stage::MultiplexerDown,
        Stage::MultiplexerDown => Stage::ClientDown,
        Stage::ClientDown => Stage::ServerDown,
        Stage::ServerDown => Stage::Closed,
        Stage::Closed => Stage::Closed,
    }
}

/// What is to be done once `stage` is reached.
pub open spec fn spec_action_at(stage: Stage) -> ShutdownAction {
    match stage {
        Stage::Running => ShutdownAction::Done,
        Stage::Terminating => ShutdownAction::DropHandles,
        Stage::HandlesDropped => ShutdownAction::ShutdownMultiplexer,
        Stage::MultiplexerDown => ShutdownAction::ShutdownClient,
        Stage::ClientDown => ShutdownAction::ShutdownServer,
        Stage::ServerDown => ShutdownAction::DropPort,
        Stage::Closed => ShutdownAction::Done,
    }
}

/// The position of a stage in the order of shutdown.
pub open spec fn spec_stage_rank(stage: Stage) -> nat {
    match stage {
        Stage::Running => 0,
        Stage::Terminating => 1,
        Stage::HandlesDropped => 2,
        Stage::MultiplexerDown => 3,
        Stage::ClientDown => 4,
        Stage::ServerDown => 5,
        Stage::Closed => 6,
    }
}

/// The state of a context, as its callers may reason about it.
pub struct ContextView<D: ?Sized> {
    /// The configuration that the context was created with.
    pub config: Config,
    /// The port.
    pub port: PortView<D>,
    /// The workers of the server.
    pub workers: PoolView,
    /// How far shutdown has come.
    pub stage: Stage,
}

impl<D: ?Sized> ContextView<D> {
    /// The same context with its port in another state.
    pub open spec fn with_port(self, port: PortView<D>) -> ContextView<D> {
        ContextView { port, ..self }
    }

    /// The same context with its workers in another state.
    pub open spec fn with_workers(self, workers: PoolView) -> ContextView<D> {
        ContextView { workers, ..self }
    }
}

/// One end of a connection.
pub struct Context<D: Dispatch + ?Sized> {
    config: Config,
    port: BasicPort<D>,
    server: Server,
    stage: Stage,
}

impl<D: Dispatch + ?Sized> View for Context<D> {
    type V = ContextView<D>;

    closed spec fn view(&self) -> ContextView<D> {
        ContextView {
            config: self.config,
            port: self.port@,
            workers: self.server@,
            stage: self.stage,
        }
    }
}

impl<D: Dispatch + ?Sized> Context<D> {
    /// The invariant of a context: its parts are well formed, and the
    /// termination flag of its port is set exactly from the first step of
    /// shutdown on.
    pub closed spec fn wf(&self) -> bool {
        &&& self.port.wf()
        &&& self.server.wf()
        &&& self.port@.terminating == (self.stage != Stage::Running)
    }

    /// What the invariant says of the view.
    pub proof fn lemma_wf_view(&self)
        requires
            self.wf(),
        ensures
            self@.port.terminating == (self@.stage != Stage::Running),
            self@.port.client.valid(),
            self@.workers.valid(),
    {
        self.port.lemma_wf_valid();
        self.server.lemma_wf_valid();
    }

    /// Creates a running context with nothing exported and nothing imported.
    pub fn new(config: Config) -> (result: Result<Self, ConfigError>)
        ensures
            result matches Ok(context) ==> {
                &&& context.wf()
                &&& context@.config == config
                &&& context@.stage == Stage::Running
                &&& context@.workers == PoolView::fresh(config.server_threads as nat)
                &&& context@.port.registry == Map::<u32, Arc<D>>::empty()
                &&& context@.port.remotes == Map::<u32, HandleToExchange>::empty()
                &&& context@.port.client == ClientView::fresh(config.call_slots as nat)
                &&& context@.port.limit == config.maximum_services_num
                &&& !context@.port.terminating
            },
            result is Ok <==> spec_config_valid(config),
            result matches Err(e) ==> e == spec_config_fault(config),
    {
        let port = match BasicPort::new(&config) {
            Ok(port) => port,
            Err(e) => {
                return Err(e);
            },
        };
        let server = match Server::new(config.server_threads) {
            Ok(server) => server,
            Err(e) => {
                return Err(e);
            },
        };
        Ok(Context { config, port, server, stage: Stage::Running })
    }

    /// Creates a running context that exports `initial` as its first service
    /// and imports the first service of the peer. Both sides do so, and so
    /// each knows without asking that the service of the other has id zero.
    /// The handle returned is the one to build the remote object around.
    pub fn with_initial_service(config: Config, initial: Skeleton<D>) -> (result: Result<
        (Self, HandleInstance),
        ConfigError,
    >)
        ensures
            result is Ok <==> spec_config_valid(config),
            result matches Err(e) ==> e == spec_config_fault(config),
            result matches Ok((context, handle)) ==> {
                &&& context.wf()
                &&& context@.config == config
                &&& handle == HandleInstance::default_spec()
                &&& context@.stage == Stage::Running
                &&& context@.workers == PoolView::fresh(config.server_threads as nat)
                &&& context@.port.registry == Map::<u32, Arc<D>>::empty().insert(
                    INITIAL_SERVICE_ID,
                    initial@,
                )
                &&& context@.port.remotes == Map::<u32, HandleToExchange>::empty().insert(
                    0,
                    HandleToExchange(ServiceObjectId { index: INITIAL_SERVICE_ID }),
                )
                &&& context@.port.client == ClientView::fresh(config.call_slots as nat)
                &&& context@.port.limit == config.maximum_services_num
                &&& !context@.port.terminating
            },
    {
        let mut context = match Self::new(config) {
            Ok(context) => context,
            Err(e) => {
                return Err(e);
            },
        };
        proof {
            let empty_registry = Map::<u32, Arc<D>>::empty();
            let empty_remotes = Map::<u32, HandleToExchange>::empty();
            assert(!empty_registry.dom().contains(0u32));
            assert(!empty_remotes.dom().contains(0u32));
            assert(spec_has_room(empty_registry, config.maximum_services_num));
            assert(spec_has_room(empty_remotes, config.maximum_services_num));
        }
        let id = match context.register(initial.into_raw()) {
            Ok(id) => id,
            Err(_) => {
                return Err(ConfigError::MaximumServices);
            },
        };
        let remote_id = match context.register_remote(HandleToExchange::initial()) {
            Ok(remote_id) => remote_id,
            Err(_) => {
                return Err(ConfigError::MaximumServices);
            },
        };
        proof {
            if id.index != 0 {
                assert(Map::<u32, Arc<D>>::empty().dom().contains(0u32));
            }
            if remote_id.index != 0 {
                assert(Map::<u32, HandleToExchange>::empty().dom().contains(0u32));
            }
        }
        Ok((context, HandleInstance { id: HandleToExchange::initial().0, remote_id }))
    }

    /// How far shutdown has come.
    pub fn stage(&self) -> (stage: Stage)
        ensures
            stage == self@.stage,
    {
        self.stage
    }

    /// The configuration that the context was created with.
    pub fn config(&self) -> (config: &Config)
        ensures
            *config == self@.config,
    {
        &self.config
    }

    /// Puts a service object into the registry of the port.
    pub fn register(&mut self, service: Arc<D>) -> (result: Result<ServiceObjectId, PortError>)
        requires
            old(self).wf(),
        ensures
            final(self).wf(),
            result is Ok <==> spec_has_room(old(self)@.port.registry, old(self)@.port.limit),
            result matches Ok(id) ==> {
                &&& spec_is_next_id(old(self)@.port.registry, id.index)
                &&& final(self)@ == old(self)@.with_port(
                    old(self)@.port.with_registry(
                        old(self)@.port.registry.insert(id.index, service),
                    ),
                )
            },
            result matches Err(e) ==> e == PortError::TooManyServices && final(self)@ == old(
                self,
            )@,
    {
        self.port.register(service)
    }

    /// Takes note of a handle that the peer gave.
    pub fn register_remote(&mut self, handle: HandleToExchange) -> (result: Result<
        RemoteObjectId,
        PortError,
    >)
        requires
            old(self).wf(),
        ensures
            final(self).wf(),
            result is Ok <==> spec_has_room(old(self)@.port.remotes, old(self)@.port.limit),
            result matches Ok(id) ==> {
                &&& spec_is_next_id(old(self)@.port.remotes, id.index)
                &&& final(self)@ == old(self)@.with_port(
                    old(self)@.port.with_remotes(old(self)@.port.remotes.insert(id.index, handle)),
                )
            },
            result matches Err(e) ==> e == PortError::TooManyRemotes && final(self)@ == old(
                self,
            )@,
    {
        self.port.register_remote(handle)
    }

    /// Forgets a remote object.
    pub fn forget_remote(&mut self, id: RemoteObjectId) -> (handle: Option<HandleToExchange>)
        requires
            old(self).wf(),
        ensures
            final(self).wf(),
            handle is Some <==> old(self)@.port.remotes.dom().contains(id.index),
            handle matches Some(h) ==> h == old(self)@.port.remotes[id.index],
            final(self)@ == old(self)@.with_port(
                old(self)@.port.with_remotes(old(self)@.port.remotes.remove(id.index)),
            ),
    {
        let handle = self.port.forget_remote(id);
        proof {
            if handle is None {
                let before = old(self)@.port.remotes;
                assert(before.remove(id.index) =~= before);
            }
        }
        handle
    }

    /// Starts an outbound call and returns the request to send.
    pub fn call(&mut self, id: ServiceObjectId, method: MethodId, args: &[u8]) -> (result: Result<
        Packet,
        CallError,
    >)
        requires
            old(self).wf(),
        ensures
            final(self).wf(),
            result is Ok <==> old(self)@.port.client.in_flight() < old(
                self,
            )@.port.client.call_slots(),
            result is Ok <==> old(self)@.port.client.pool.free.len() > 0,
            result matches Ok(request) ==> {
                &&& old(self)@.port.client.pool.free.len() > 0
                &&& request@ == spec_call_request(
                    old(self)@.port.client.pool.free[0],
                    id,
                    method,
                    args@,
                )
                &&& final(self)@ == old(self)@.with_port(
                    old(self)@.port.with_client(old(self)@.port.client.begin()),
                )
            },
            result matches Err(e) ==> e == CallError::TooManyCalls && final(self)@ == old(self)@,
    {
        self.port.call(id, method, args)
    }

    /// Asks the peer to drop a service object, unless the context is
    /// shutting down.
    pub fn delete_request(&mut self, id: ServiceObjectId) -> (result: Result<
        Option<Packet>,
        CallError,
    >)
        requires
            old(self).wf(),
        ensures
            final(self).wf(),
            old(self)@.port.terminating ==> result == Ok::<Option<Packet>, CallError>(None)
                && final(self)@ == old(self)@,
            !old(self)@.port.terminating ==> {
                &&& result is Ok <==> old(self)@.port.client.in_flight() < old(
                    self,
                )@.port.client.call_slots()
                &&& result matches Ok(sent) ==> {
                    &&& sent matches Some(request)
                    &&& old(self)@.port.client.pool.free.len() > 0
                    &&& request@ == spec_delete_request(old(self)@.port.client.pool.free[0], id)
                    &&& final(self)@ == old(self)@.with_port(
                        old(self)@.port.with_client(old(self)@.port.client.begin()),
                    )
                }
                &&& result matches Err(e) ==> e == CallError::TooManyCalls && final(self)@
                    == old(self)@
            },
    {
        self.port.delete_request(id)
    }

    /// Takes in a message from the response stream and parks it on the slot
    /// it names.
    pub fn deliver(&mut self, response: Vec<u8>) -> (result: Result<SlotId, ProtocolViolation>)
        requires
            old(self).wf(),
        ensures
            final(self).wf(),
            result is Ok <==> response@.len() >= HEADER_SIZE && old(self)@.port.client.awaits(
                PacketHeader::spec_parse(response@).slot,
            ),
            result matches Ok(slot) ==> {
                &&& slot == PacketHeader::spec_parse(response@).slot
                &&& final(self)@ == old(self)@.with_port(
                    old(self)@.port.with_client(old(self)@.port.client.deliver(slot, response@)),
                )
            },
            result matches Err(e) ==> {
                &&& final(self)@ == old(self)@
                &&& e == (if response@.len() < HEADER_SIZE {
                    ProtocolViolation::MalformedPacket
                } else {
                    ProtocolViolation::UnknownSlot
                })
            },
    {
        self.port.deliver(response)
    }

    /// Collects the response parked on `slot` and frees the slot.
    pub fn finish_call(&mut self, slot: SlotId) -> (response: Option<Packet>)
        requires
            old(self).wf(),
        ensures
            final(self).wf(),
            response is Some <==> old(self)@.port.client.answered(slot),
            response matches Some(packet) ==> {
                &&& old(self)@.port.client.state(slot) == CallState::Answered(packet@)
                &&& packet@.len() >= HEADER_SIZE
                &&& final(self)@ == old(self)@.with_port(
                    old(self)@.port.with_client(old(self)@.port.client.finish(slot)),
                )
            },
            response is None ==> final(self)@ == old(self)@,
    {
        self.port.finish_call(slot)
    }

    /// Runs one message from the request stream against the registry and
    /// builds the response.
    pub fn handle_request(&mut self, message: &[u8]) -> (outcome: Result<
        Handled<D>,
        ProtocolViolation,
    >)
        requires
            old(self).wf(),
        ensures
            final(self).wf(),
            spec_handled(old(self)@.port.registry, message@, outcome, final(self)@.port.registry),
            final(self)@ == old(self)@.with_port(
                old(self)@.port.with_registry(final(self)@.port.registry),
            ),
    {
        self.port.handle_request(message)
    }

    /// Reads a message from the request stream and, for a call, looks up the
    /// service object it names.
    pub fn prepare(&self, message: &[u8]) -> (result: Result<Prepared<D>, ProtocolViolation>)
        requires
            self.wf(),
        ensures
            result == spec_prepared(self@.port.registry, message@),
    {
        self.port.prepare(message)
    }

    /// Hands a request on to the worker that has been idle the longest, or
    /// back where every worker is busy.
    pub fn hand_on(&mut self, message: Vec<u8>) -> (result: Result<(u32, Vec<u8>), Vec<u8>>)
        requires
            old(self).wf(),
        ensures
            final(self).wf(),
            result is Ok <==> old(self)@.workers.free.len() > 0,
            result matches Ok(handed) ==> handed.0 == old(self)@.workers.free[0] && handed.1
                == message && final(self)@ == old(self)@.with_workers(
                old(self)@.workers.acquire(),
            ),
            result matches Err(back) ==> back == message && final(self)@ == old(self)@,
    {
        self.server.hand_on(message)
    }

    /// Picks the idle worker that is to run the next request.
    pub fn assign_worker(&mut self) -> (worker: Option<u32>)
        requires
            old(self).wf(),
        ensures
            final(self).wf(),
            worker is Some <==> old(self)@.workers.taken_count() < old(self)@.workers.size(),
            worker is Some <==> old(self)@.workers.free.len() > 0,
            worker matches Some(w) ==> w == old(self)@.workers.free[0] && final(self)@ == old(
                self,
            )@.with_workers(old(self)@.workers.acquire()),
            worker is None ==> final(self)@ == old(self)@,
    {
        self.server.assign()
    }

    /// Takes note that `worker` is idle again.
    pub fn worker_finished(&mut self, worker: u32) -> (idle: bool)
        requires
            old(self).wf(),
        ensures
            final(self).wf(),
            idle == old(self)@.workers.is_taken(worker),
            idle ==> final(self)@ == old(self)@.with_workers(
                old(self)@.workers.release(worker),
            ),
            !idle ==> final(self)@ == old(self)@,
    {
        self.server.finished(worker)
    }

    /// The port, to look at.
    pub fn port(&self) -> (port: &BasicPort<D>)
        requires
            self.wf(),
        ensures
            port.wf(),
            port@ == self@.port,
    {
        &self.port
    }

    /// Takes the next step of shutdown and tells what the owner has to do
    /// for it. The first step sets the termination flag of the port; every
    /// later step only records that the action told before it was done.
    pub fn advance_shutdown(&mut self) -> (action: ShutdownAction)
        requires
            old(self).wf(),
        ensures
            final(self).wf(),
            final(self)@.config == old(self)@.config,
            final(self)@.stage == spec_next_stage(old(self)@.stage),
            action == spec_action_at(final(self)@.stage),
            final(self)@.workers == old(self)@.workers,
            final(self)@.port == (if old(self)@.stage == Stage::Running {
                old(self)@.port.terminated()
            } else {
                old(self)@.port
            }),
    {
        match self.stage {
            Stage::Running => {
                self.port.terminate();
                self.stage = Stage::Terminating;
                ShutdownAction::DropHandles
            },
            Stage::Terminating => {
                self.stage = Stage::HandlesDropped;
                ShutdownAction::ShutdownMultiplexer
            },
            Stage::HandlesDropped => {
                self.stage = Stage::MultiplexerDown;
                ShutdownAction::ShutdownClient
            },
            Stage::MultiplexerDown => {
                self.stage = Stage::ClientDown;
                ShutdownAction::ShutdownServer
            },
            Stage::ClientDown => {
                self.stage = Stage::ServerDown;
                ShutdownAction::DropPort
            },
            Stage::ServerDown => {
                self.stage = Stage::Closed;
                ShutdownAction::Done
            },
            Stage::Closed => ShutdownAction::Done,
        }
    }
}

/// Whether a context can be created with `config`.
pub open spec fn spec_config_valid(config: Config) -> bool {
    &&& config.call_slots <= crate::packet::SLOT_CALL_OR_RETURN_INDICATOR
    &&& config.maximum_services_num > 0
    &&& config.server_threads <= crate::queue::MAX_QUEUE_CAPACITY
}

/// What is wrong with `config`, where something is: the first fault found.
pub open spec fn spec_config_fault(config: Config) -> ConfigError {
    if !(config.call_slots <= crate::packet::SLOT_CALL_OR_RETURN_INDICATOR) {
        ConfigError::CallSlots
    } else if config.maximum_services_num == 0 {
        ConfigError::MaximumServices
    } else {
        ConfigError::ServerThreads
    }
}

} // verus!
