//! The serving side of a port: reading requests, running them against the
//! registry of exported services, and building the responses.

use crate::error::{ConfigError, DispatchError, ProtocolViolation};
use crate::packet::{
    slot_into_response, spec_body, spec_packet, MethodId, Packet, PacketHeader, PacketView,
    ServiceObjectId, SlotId, DELETE_INDICATOR, HEADER_SIZE, SLOT_CALL_OR_RETURN_INDICATOR,
};
use crate::pool::{Pool, PoolView};
use crate::queue::MAX_QUEUE_CAPACITY;
use crate::service::Dispatch;
use crate::table::Table;
use std::sync::Arc;
use vstd::prelude::*;

verus! {

/// What a request asks for.
#[derive(PartialEq, Eq, Structural, Debug, Clone, Copy)]
pub enum RequestKind {
    /// Run a method of the service object on the body of the request.
    Call,
    /// Drop the service object.
    Delete,
}

/// A request, as far as its header tells.
#[derive(PartialEq, Eq, Structural, Debug, Clone, Copy)]
pub struct Request {
    /// The correlation id to answer under.
    pub id: SlotId,
    /// The service object addressed.
    pub service: ServiceObjectId,
    /// The method word of the header.
    pub method: MethodId,
    /// What is asked of the service object.
    pub kind: RequestKind,
}

/// The request that `message` holds, or the reason why it holds none.
pub open spec fn spec_request(message: Seq<u8>) -> Result<Request, ProtocolViolation> {
    if message.len() < HEADER_SIZE {
        Err(ProtocolViolation::MalformedPacket)
    } else {
        let header = PacketHeader::spec_parse(message);
        if header.slot >= SLOT_CALL_OR_RETURN_INDICATOR {
            Ok(
                Request {
                    id: (header.slot - SLOT_CALL_OR_RETURN_INDICATOR) as SlotId,
                    service: header.handle,
                    method: header.method,
                    kind: if header.method == DELETE_INDICATOR {
                        RequestKind::Delete
                    } else {
                        RequestKind::Call
                    },
                },
            )
        } else {
            Err(ProtocolViolation::NotARequest)
        }
    }
}

/// The response to a request with correlation id `id` and method word
/// `method`: the service id is zero, the body is what the call returned.
pub open spec fn spec_response(id: SlotId, method: MethodId, body: Seq<u8>) -> Seq<u8> {
    spec_packet(PacketHeader { slot: id, handle: ServiceObjectId { index: 0 }, method }, body)
}

/// Reads the header of a message from the request stream. The slot of a
/// request carries the indicator and, beneath it, the correlation id to
/// answer under. A message too short for a header, or with a slot below the
/// indicator, is a violation, and fatal to the connection: the caller is to
/// stop serving it.
pub fn parse_request(message: &[u8]) -> (result: Result<Request, ProtocolViolation>)
    ensures
        result == spec_request(message@),
{
    let view = match PacketView::parse(message) {
        Ok(view) => view,
        Err(e) => {
            return Err(e);
        },
    };
    let header = view.header();
    match slot_into_response(header.slot) {
        None => Err(ProtocolViolation::NotARequest),
        Some(id) => Ok(
            Request {
                id,
                service: header.handle,
                method: header.method,
                kind: if header.method == DELETE_INDICATOR {
                    RequestKind::Delete
                } else {
                    RequestKind::Call
                },
            },
        ),
    }
}

/// Builds the response to `request` around the bytes that the call returned.
pub fn respond(request: &Request, body: &[u8]) -> (response: Packet)
    ensures
        response@ == spec_response(request.id, request.method, body@),
{
    Packet::new_with(
        PacketHeader {
            slot: request.id,
            handle: ServiceObjectId { index: 0 },
            method: request.method,
        },
        body,
    )
}

/// A request that has been read and, where it is a call, matched with the
/// service object to run it on.
pub enum Prepared<D: ?Sized> {
    /// A call, and the service object that it names.
    Call(Request, Arc<D>),
    /// A delete, still to be carried out on the registry.
    Delete(Request),
}

/// What preparing `message` against `registry` gives.
pub open spec fn spec_prepared<D: ?Sized>(registry: Map<u32, Arc<D>>, message: Seq<u8>) -> Result<
    Prepared<D>,
    ProtocolViolation,
> {
    match spec_request(message) {
        Err(violation) => Err(violation),
        Ok(request) => match request.kind {
            RequestKind::Delete => Ok(Prepared::Delete(request)),
            RequestKind::Call => if registry.dom().contains(request.service.index) {
                Ok(Prepared::Call(request, registry[request.service.index]))
            } else {
                Err(ProtocolViolation::UnknownService)
            },
        },
    }
}

/// Reads a message from the request stream and, for a call, looks up the
/// service object it names. The pointer returned is the caller's own, so a
/// caller that shares the registry can run the call with `run_call` after
/// it has let go of the registry. A violation is fatal to the connection.
pub fn prepare<D: Dispatch + ?Sized>(registry: &Table<Arc<D>>, message: &[u8]) -> (result: Result<
    Prepared<D>,
    ProtocolViolation,
>)
    requires
        registry.wf(),
    ensures
        result == spec_prepared(registry@, message@),
{
    let request = match parse_request(message) {
        Ok(request) => request,
        Err(e) => {
            return Err(e);
        },
    };
    match request.kind {
        RequestKind::Delete => Ok(Prepared::Delete(request)),
        RequestKind::Call => match registry.get(request.service.index) {
            None => Err(ProtocolViolation::UnknownService),
            Some(object) => Ok(Prepared::Call(request, object.clone())),
        },
    }
}

/// Whether `result` is what running the call `request` with the arguments
/// `args` on `object` may give: the violation that a rejection by the
/// skeleton amounts to, or the response around what the skeleton returned.
pub open spec fn spec_ran<D: Dispatch + ?Sized>(
    object: Arc<D>,
    request: Request,
    args: Seq<u8>,
    result: Result<Packet, ProtocolViolation>,
) -> bool {
    match result {
        Err(violation) => exists|e: DispatchError|
            violation == e.spec_violation() && #[trigger] object.answers(
                request.method,
                args,
                Err(e),
            ),
        Ok(response) => {
            &&& response@.len() >= HEADER_SIZE
            &&& PacketHeader::spec_parse(response@) == PacketHeader {
                slot: request.id,
                handle: ServiceObjectId { index: 0 },
                method: request.method,
            }
            &&& object.answers(request.method, args, Ok(spec_body(response@)))
        },
    }
}

/// Runs a call on its service object and builds the response around what
/// the skeleton returned. A call that the skeleton rejects is a violation,
/// fatal to the connection.
pub fn run_call<D: Dispatch + ?Sized>(request: &Request, object: &Arc<D>, args: &[u8]) -> (result:
    Result<Packet, ProtocolViolation>)
    ensures
        spec_ran(*object, *request, args@, result),
{
    let ret = match object.dispatch_and_call(request.method, args) {
        Ok(ret) => ret,
        Err(e) => {
            return Err(e.violation());
        },
    };
    let response = respond(request, ret.as_slice());
    proof {
        crate::packet::lemma_packet_parts(
            PacketHeader {
                slot: request.id,
                handle: ServiceObjectId { index: 0 },
                method: request.method,
            },
            ret@,
        );
    }
    Ok(response)
}

/// What became of a request that was run.
pub struct Handled<D: ?Sized> {
    /// The response to send back.
    pub response: Packet,
    /// The service object that a delete took out of the registry. Its owner
    /// decides where it is dropped.
    pub released: Option<Arc<D>>,
}

/// Whether `outcome` is what running `message` against `registry` may give,
/// with `after` the registry that is left.
pub open spec fn spec_handled<D: Dispatch + ?Sized>(
    registry: Map<u32, Arc<D>>,
    message: Seq<u8>,
    outcome: Result<Handled<D>, ProtocolViolation>,
    after: Map<u32, Arc<D>>,
) -> bool {
    match spec_request(message) {
        Err(violation) => outcome == Err::<Handled<D>, _>(violation) && after == registry,
        Ok(request) => if !registry.dom().contains(request.service.index) {
            outcome == Err::<Handled<D>, _>(ProtocolViolation::UnknownService) && after == registry
        } else {
            let object = registry[request.service.index];
            match request.kind {
                RequestKind::Delete => {
                    &&& outcome matches Ok(handled)
                    &&& handled.response@ == spec_response(
                        request.id,
                        request.method,
                        Seq::<u8>::empty(),
                    )
                    &&& handled.released == Some(object)
                    &&& after == registry.remove(request.service.index)
                },
                RequestKind::Call => {
                    &&& after == registry
                    &&& match outcome {
                        Err(violation) => exists|e: DispatchError|
                            violation == e.spec_violation() && #[trigger] object.answers(
                                request.method,
                                spec_body(message),
                                Err(e),
                            ),
                        Ok(handled) => {
                            &&& handled.response@.len() >= HEADER_SIZE
                            &&& PacketHeader::spec_parse(handled.response@) == PacketHeader {
                                slot: request.id,
                                handle: ServiceObjectId { index: 0 },
                                method: request.method,
                            }
                            &&& object.answers(
                                request.method,
                                spec_body(message),
                                Ok(spec_body(handled.response@)),
                            )
                            &&& handled.released is None
                        },
                    }
                },
            }
        },
    }
}

/// Runs one message from the request stream against the registry: a call is
/// dispatched to the service object it names, a delete takes that object out.
/// Either way a response is built. A message that is no request, one that
/// names no registered service object, and a call that the skeleton of the
/// object rejects, are violations. They change nothing and build no
/// response, and they are fatal to the connection: the caller is to stop
/// serving it.
pub fn handle_request<D: Dispatch + ?Sized>(registry: &mut Table<Arc<D>>, message: &[u8]) -> (outcome:
    Result<Handled<D>, ProtocolViolation>)
    requires
        old(registry).wf(),
    ensures
        final(registry).wf(),
        final(registry).spec_limit() == old(registry).spec_limit(),
        spec_handled(old(registry)@, message@, outcome, final(registry)@),
{
    let prepared = match prepare(registry, message) {
        Ok(prepared) => prepared,
        Err(e) => {
            return Err(e);
        },
    };
    match prepared {
        Prepared::Delete(request) => match registry.remove(request.service.index) {
            None => Err(ProtocolViolation::UnknownService),
            Some(object) => {
                let empty: Vec<u8> = Vec::new();
                Ok(Handled { response: respond(&request, empty.as_slice()), released: Some(object) })
            },
        },
        Prepared::Call(request, object) => {
            let view = PacketView::new(message);
            match run_call(&request, &object, view.data()) {
                Ok(response) => Ok(Handled { response, released: None }),
                Err(e) => Err(e),
            }
        },
    }
}

/// How long the dispatch loop waits for an idle worker, in milliseconds,
/// before it gives the pool up as too small.
pub const WORKER_TIMEOUT_MILLIS: u64 = 50;

/// The same wait in a build for debugging, where a handler may sit in a
/// debugger for a long time.
pub const WORKER_TIMEOUT_MILLIS_DEBUG: u64 = 1_000_000;

/// The serving side of a port: the workers that run inbound calls, each
/// known by a token, and the record of which of them are idle.
pub struct Server {
    workers: Pool,
}

impl View for Server {
    type V = PoolView;

    closed spec fn view(&self) -> PoolView {
        self.workers@
    }
}

impl Server {
    /// The invariant of a server. `new` establishes it and every method
    /// keeps it.
    pub closed spec fn wf(&self) -> bool {
        self.workers.wf()
    }

    /// A well-formed server has a valid pool of workers.
    pub proof fn lemma_wf_valid(&self)
        requires
            self.wf(),
        ensures
            self@.valid(),
            self@.taken_count() <= self@.size(),
    {
        self.workers.lemma_wf_valid();
    }

    /// Creates a server with `server_threads` workers, all idle.
    pub fn new(server_threads: usize) -> (result: Result<Server, ConfigError>)
        ensures
            result is Ok <==> server_threads <= MAX_QUEUE_CAPACITY,
            result matches Ok(server) ==> server.wf() && server@ == PoolView::fresh(
                server_threads as nat,
            ),
            result matches Err(e) ==> e == ConfigError::ServerThreads,
    {
        match Pool::new(server_threads) {
            Ok(workers) => Ok(Server { workers }),
            Err(_) => Err(ConfigError::ServerThreads),
        }
    }

    /// Picks the worker that is to run the next request: the one that has
    /// been idle the longest. With every worker busy there is none, and the
    /// dispatch loop has to wait.
    pub fn assign(&mut self) -> (worker: Option<u32>)
        requires
            old(self).wf(),
        ensures
            final(self).wf(),
            worker is Some <==> old(self)@.taken_count() < old(self)@.size(),
            worker is Some <==> old(self)@.free.len() > 0,
            worker matches Some(w) ==> w == old(self)@.free[0] && final(self)@ == old(
                self,
            )@.acquire(),
            worker is None ==> final(self)@ == old(self)@,
    {
        self.workers.acquire()
    }

    /// Hands a request on to the worker that has been idle the longest. The
    /// request goes to exactly one worker, unchanged; with every worker busy
    /// it comes back, unchanged, for the dispatch loop to wait and try
    /// again.
    pub fn hand_on(&mut self, message: Vec<u8>) -> (result: Result<(u32, Vec<u8>), Vec<u8>>)
        requires
            old(self).wf(),
        ensures
            final(self).wf(),
            result is Ok <==> old(self)@.free.len() > 0,
            result matches Ok(handed) ==> handed.0 == old(self)@.free[0] && handed.1 == message
                && final(self)@ == old(self)@.acquire(),
            result matches Err(back) ==> back == message && final(self)@ == old(self)@,
    {
        match self.workers.acquire() {
            Some(worker) => Ok((worker, message)),
            None => Err(message),
        }
    }

    /// Takes note that `worker` has sent its response and is idle again.
    /// Refuses, and changes nothing, where `worker` is no busy worker.
    pub fn finished(&mut self, worker: u32) -> (idle: bool)
        requires
            old(self).wf(),
        ensures
            final(self).wf(),
            idle == old(self)@.is_taken(worker),
            idle ==> final(self)@ == old(self)@.release(worker),
            !idle ==> final(self)@ == old(self)@,
    {
        self.workers.release(worker)
    }

    /// The number of workers.
    pub fn server_threads(&self) -> (n: usize)
        requires
            self.wf(),
        ensures
            n == self@.size(),
    {
        self.workers.size()
    }

    /// The number of workers that are running a request.
    pub fn busy(&self) -> (n: usize)
        requires
            self.wf(),
        ensures
            n == self@.taken_count(),
            n <= self@.size(),
    {
        self.workers.taken_count()
    }
}

} // verus!
