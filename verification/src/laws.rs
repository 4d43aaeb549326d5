//! What holds of two ports that face each other.
//!
//! Each port is verified on its own. The statements here put an exporter and
//! an importer side by side and follow a handle, a call or a delete from one
//! to the other, over the same models that the contracts of the ports use.

use crate::port::client::{CallState, ClientView};
use crate::error::ProtocolViolation;
use crate::packet::{
    lemma_packet_parts, spec_body, MethodId, PacketHeader, ServiceObjectId, SlotId,
    DELETE_INDICATOR, HEADER_SIZE, SLOT_CALL_OR_RETURN_INDICATOR,
};
use crate::pool::{lemma_acquire_valid, PoolView};
use crate::port::{spec_call_request, spec_delete_request};
use crate::port::server::{spec_handled, spec_request, Handled, Request, RequestKind};
use crate::service::{Dispatch, HandleToExchange};
use crate::table::spec_is_next_id;
use std::sync::Arc;
use vstd::prelude::*;

verus! {

/// The handle under which the service object with this index travels.
pub open spec fn spec_handle_of(index: u32) -> HandleToExchange {
    HandleToExchange(ServiceObjectId { index })
}

/// The remote objects through which an importer holds `handle`.
pub open spec fn spec_proxies(remotes: Map<u32, HandleToExchange>, handle: HandleToExchange) -> Set<
    u32,
> {
    Set::new(|remote: u32| remotes.dom().contains(remote) && remotes[remote] == handle)
}

/// Whether the record of an importer fits the registry of the exporter it
/// faces: every handle imported names a service object that is registered,
/// and no handle is imported twice.
pub open spec fn spec_linked<D: ?Sized>(
    registry: Map<u32, Arc<D>>,
    remotes: Map<u32, HandleToExchange>,
) -> bool {
    &&& forall|remote: u32| #[trigger]
        remotes.dom().contains(remote) ==> registry.dom().contains(remotes[remote].0.index)
    &&& forall|a: u32, b: u32|
        remotes.dom().contains(a) && remotes.dom().contains(b) && #[trigger] remotes[a]
            == #[trigger] remotes[b] ==> a == b
}

/// Exporting a service object and importing its handle leaves the importer
/// with exactly one remote object for it, where there was none, and the two
/// sides still fit.
pub proof fn law_export_gives_one_proxy<D: ?Sized>(
    registry: Map<u32, Arc<D>>,
    remotes: Map<u32, HandleToExchange>,
    service: Arc<D>,
    id: u32,
    remote: u32,
)
    requires
        spec_linked(registry, remotes),
        spec_is_next_id(registry, id),
        spec_is_next_id(remotes, remote),
    ensures
        spec_proxies(remotes, spec_handle_of(id)) == Set::<u32>::empty(),
        spec_proxies(remotes.insert(remote, spec_handle_of(id)), spec_handle_of(id)) == set![remote],
        spec_linked(registry.insert(id, service), remotes.insert(remote, spec_handle_of(id))),
{
    let handle = spec_handle_of(id);
    let after = remotes.insert(remote, handle);
    assert forall|r: u32| !spec_proxies(remotes, handle).contains(r) by {
        if remotes.dom().contains(r) && remotes[r] == handle {
            assert(registry.dom().contains(remotes[r].0.index));
        }
    }
    assert(spec_proxies(remotes, handle) =~= Set::<u32>::empty());
    assert forall|r: u32| spec_proxies(after, handle).contains(r) <==> r == remote by {
        if r != remote && after.dom().contains(r) && after[r] == handle {
            assert(spec_proxies(remotes, handle).contains(r));
        }
    }
    assert(spec_proxies(after, handle) =~= set![remote]);
    assert forall|a: u32, b: u32|
        after.dom().contains(a) && after.dom().contains(b) && #[trigger] after[a]
            == #[trigger] after[b] implies a == b by {
        if a == remote && b != remote {
            assert(spec_proxies(remotes, handle).contains(b));
        }
        if b == remote && a != remote {
            assert(spec_proxies(remotes, handle).contains(a));
        }
    }
}

/// The one remote object of a handle stays the only one while other handles
/// are imported and other remote objects are dropped, and is gone once it is
/// dropped itself.
pub proof fn law_proxy_stays_until_dropped(
    remotes: Map<u32, HandleToExchange>,
    handle: HandleToExchange,
    remote: u32,
    other: u32,
    other_handle: HandleToExchange,
)
    requires
        spec_proxies(remotes, handle) == set![remote],
        other != remote,
        other_handle != handle,
    ensures
        spec_proxies(remotes.insert(other, other_handle), handle) == set![remote],
        spec_proxies(remotes.remove(other), handle) == set![remote],
        spec_proxies(remotes.remove(remote), handle) == Set::<u32>::empty(),
{
    assert(spec_proxies(remotes, handle).contains(remote));
    assert forall|r: u32| spec_proxies(remotes.insert(other, other_handle), handle).contains(r)
        <==> r == remote by {
        if r != remote && r != other {
            assert(spec_proxies(remotes, handle).contains(r) == set![remote].contains(r));
        }
    }
    assert(spec_proxies(remotes.insert(other, other_handle), handle) =~= set![remote]);
    assert forall|r: u32| spec_proxies(remotes.remove(other), handle).contains(r) <==> r
        == remote by {
        if r != remote && r != other {
            assert(spec_proxies(remotes, handle).contains(r) == set![remote].contains(r));
        }
    }
    assert(spec_proxies(remotes.remove(other), handle) =~= set![remote]);
    assert forall|r: u32| !spec_proxies(remotes.remove(remote), handle).contains(r) by {
        if r != remote {
            assert(spec_proxies(remotes, handle).contains(r) == set![remote].contains(r));
        }
    }
    assert(spec_proxies(remotes.remove(remote), handle) =~= Set::<u32>::empty());
}

/// A request built for the slot with correlation id `id` is read by the
/// server as a request with that id, for that service and method.
pub proof fn lemma_request_is_read(
    id: SlotId,
    service: ServiceObjectId,
    method: MethodId,
    args: Seq<u8>,
)
    requires
        id + SLOT_CALL_OR_RETURN_INDICATOR <= u32::MAX,
    ensures
        spec_request(spec_call_request(id, service, method, args)) == Ok::<
            Request,
            ProtocolViolation,
        >(
            Request {
                id,
                service,
                method,
                kind: if method == DELETE_INDICATOR {
                    RequestKind::Delete
                } else {
                    RequestKind::Call
                },
            },
        ),
        spec_body(spec_call_request(id, service, method, args)) == args,
{
    lemma_packet_parts(
        PacketHeader {
            slot: (id + SLOT_CALL_OR_RETURN_INDICATOR) as SlotId,
            handle: service,
            method,
        },
        args,
    );
}

/// The delete that a dropped proxy sends takes the service object out of the
/// registry of the exporter, and only that one; the same request a second
/// time finds nothing to take and is a violation.
pub proof fn law_drop_releases_once<D: Dispatch + ?Sized>(
    registry: Map<u32, Arc<D>>,
    service: ServiceObjectId,
    slot: SlotId,
    first: Result<Handled<D>, ProtocolViolation>,
    after_first: Map<u32, Arc<D>>,
    second: Result<Handled<D>, ProtocolViolation>,
    after_second: Map<u32, Arc<D>>,
)
    requires
        registry.dom().contains(service.index),
        slot + SLOT_CALL_OR_RETURN_INDICATOR <= u32::MAX,
        spec_handled(registry, spec_delete_request(slot, service), first, after_first),
        spec_handled(after_first, spec_delete_request(slot, service), second, after_second),
    ensures
        first matches Ok(handled) && handled.released == Some(registry[service.index]),
        after_first == registry.remove(service.index),
        second == Err::<Handled<D>, _>(ProtocolViolation::UnknownService),
        after_second == after_first,
{
    lemma_request_is_read(slot, service, DELETE_INDICATOR, Seq::<u8>::empty());
}

/// A client never has more calls in flight than it has call slots, and no
/// step of a call changes that: a call starts only on a free slot, a
/// response is parked only where a call waits, and collecting it frees the
/// slot.
pub proof fn law_calls_in_flight_bounded(client: ClientView, slot: SlotId, response: Seq<u8>)
    requires
        client.valid(),
    ensures
        client.in_flight() <= client.call_slots(),
        client.pool.free.len() > 0 <==> client.in_flight() < client.call_slots(),
        client.pool.free.len() > 0 ==> client.begin().valid() && client.begin().in_flight()
            == client.in_flight() + 1,
        client.awaits(slot) && response.len() >= HEADER_SIZE ==> client.deliver(
            slot,
            response,
        ).valid() && client.deliver(slot, response).in_flight() == client.in_flight(),
        client.answered(slot) ==> client.finish(slot).valid() && client.finish(slot).in_flight()
            + 1 == client.in_flight(),
{
    crate::count::lemma_count_true_bound(client.pool.taken);
    lemma_acquire_valid(client.pool);
    crate::port::client::lemma_steps_valid(client, slot, response);
    if client.answered(slot) {
        crate::pool::lemma_release_valid(client.pool, slot);
    }
}

/// A call makes the round trip: the request that the client sends is read by
/// the server as a call of that method on those arguments; whatever the
/// skeleton returns comes back under the slot on which the call waits, and
/// the body that the caller collects is what the skeleton returned.
pub proof fn law_call_round_trip<D: Dispatch + ?Sized>(
    client: ClientView,
    registry: Map<u32, Arc<D>>,
    service: ServiceObjectId,
    method: MethodId,
    args: Seq<u8>,
    outcome: Result<Handled<D>, ProtocolViolation>,
    after: Map<u32, Arc<D>>,
)
    requires
        client.valid(),
        client.pool.free.len() > 0,
        registry.dom().contains(service.index),
        method != DELETE_INDICATOR,
        spec_handled(
            registry,
            spec_call_request(client.pool.free[0], service, method, args),
            outcome,
            after,
        ),
    ensures
        after == registry,
        outcome matches Ok(handled) ==> {
            let slot = client.pool.free[0];
            let response = handled.response@;
            &&& response.len() >= HEADER_SIZE
            &&& PacketHeader::spec_parse(response).slot == slot
            &&& registry[service.index].answers(method, args, Ok(spec_body(response)))
            &&& client.begin().awaits(slot)
            &&& client.begin().deliver(slot, response).state(slot) == CallState::Answered(
                response,
            )
            &&& client.begin().deliver(slot, response).finish(slot).state(slot)
                == CallState::Free
            &&& client.begin().deliver(slot, response).finish(slot).in_flight()
                == client.in_flight()
        },
{
    let slot = client.pool.free[0];
    lemma_request_is_read(slot, service, method, args);
    lemma_acquire_valid(client.pool);
    crate::port::client::lemma_steps_valid(client, slot, Seq::empty());
    if outcome is Ok {
        let response = outcome->Ok_0.response@;
        let begun = client.begin();
        crate::port::client::lemma_steps_valid(begun, slot, response);
        let delivered = begun.deliver(slot, response);
        crate::port::client::lemma_steps_valid(delivered, slot, response);
        law_calls_in_flight_bounded(client, slot, response);
        law_calls_in_flight_bounded(begun, slot, response);
        law_calls_in_flight_bounded(delivered, slot, response);
    }
}

/// With at least two tokens in a pool, one token taken leaves another to
/// take: a server of two threads can run a second request while a handler
/// is busy, and a client of two slots can place a call from within a call.
pub proof fn law_second_token_is_free(pool: PoolView)
    requires
        pool.valid(),
        pool.size() >= 2,
        pool.taken_count() <= 1,
    ensures
        pool.free.len() > 0,
        pool.acquire().valid(),
        pool.acquire().taken_count() == pool.taken_count() + 1,
{
    lemma_acquire_valid(pool);
}

/// The dispatch loop hands requests on in the order in which it took them:
/// of two requests in a row, the first goes to the worker that has been
/// idle the longest and the second to the next one, so each goes to one
/// worker of its own.
pub proof fn law_requests_are_handed_on_in_order(workers: PoolView)
    requires
        workers.valid(),
        workers.free.len() >= 2,
    ensures
        workers.acquire().valid(),
        workers.acquire().free.len() > 0,
        workers.acquire().free[0] == workers.free[1],
        workers.free[0] != workers.free[1],
        workers.acquire().acquire().valid(),
        workers.acquire().acquire().is_taken(workers.free[0]),
        workers.acquire().acquire().is_taken(workers.free[1]),
        workers.acquire().acquire().taken_count() == workers.taken_count() + 2,
{
    lemma_acquire_valid(workers);
    lemma_acquire_valid(workers.acquire());
}

/// A request without a body makes the round trip like any other: a message
/// that is a header and nothing else is read as a call with no arguments,
/// whatever request slot it carries, and where the skeleton returns no
/// bytes the response is a header and nothing else.
pub proof fn law_empty_body_round_trip<D: Dispatch + ?Sized>(
    registry: Map<u32, Arc<D>>,
    header: PacketHeader,
    outcome: Result<Handled<D>, ProtocolViolation>,
    after: Map<u32, Arc<D>>,
)
    requires
        header.slot >= SLOT_CALL_OR_RETURN_INDICATOR,
        header.method != DELETE_INDICATOR,
        registry.dom().contains(header.handle.index),
        spec_handled(registry, header.spec_bytes(), outcome, after),
    ensures
        header.spec_bytes().len() == HEADER_SIZE,
        spec_request(header.spec_bytes()) matches Ok(request) && request.kind == RequestKind::Call
            && request.id == header.slot - SLOT_CALL_OR_RETURN_INDICATOR,
        after == registry,
        outcome matches Ok(handled) ==> {
            &&& registry[header.handle.index].answers(
                header.method,
                Seq::<u8>::empty(),
                Ok(spec_body(handled.response@)),
            )
            &&& spec_body(handled.response@).len() == 0 <==> handled.response@.len()
                == HEADER_SIZE
        },
{
    lemma_packet_parts(header, Seq::<u8>::empty());
    assert(header.spec_bytes() + Seq::<u8>::empty() =~= header.spec_bytes());
    assert(spec_body(header.spec_bytes()) =~= Seq::<u8>::empty());
}

/// A call made from within the handler of a call returns, and so does the
/// call around it. Side A calls side B, and the handler in B calls back
/// into A before it answers. Where each side has a call slot free and a
/// worker idle, both requests find their worker, the inner response comes
/// back to B under the slot on which B waits, with the bytes that the
/// skeleton in A returned, then the outer response comes back to A in the
/// same way, and afterwards both sides have as many slots free and as many
/// workers idle as before.
pub proof fn law_nested_call_returns<A: Dispatch + ?Sized, B: Dispatch + ?Sized>(
    client_a: ClientView,
    workers_a: PoolView,
    registry_a: Map<u32, Arc<A>>,
    client_b: ClientView,
    workers_b: PoolView,
    registry_b: Map<u32, Arc<B>>,
    outer: (ServiceObjectId, MethodId, Seq<u8>),
    inner: (ServiceObjectId, MethodId, Seq<u8>),
    outcome_b: Result<Handled<B>, ProtocolViolation>,
    outcome_a: Result<Handled<A>, ProtocolViolation>,
)
    requires
        client_a.valid(),
        client_b.valid(),
        workers_a.valid(),
        workers_b.valid(),
        client_a.pool.free.len() > 0,
        client_b.pool.free.len() > 0,
        workers_a.free.len() > 0,
        workers_b.free.len() > 0,
        registry_b.dom().contains(outer.0.index),
        registry_a.dom().contains(inner.0.index),
        outer.1 != DELETE_INDICATOR,
        inner.1 != DELETE_INDICATOR,
        spec_handled(
            registry_b,
            spec_call_request(client_a.pool.free[0], outer.0, outer.1, outer.2),
            outcome_b,
            registry_b,
        ),
        spec_handled(
            registry_a,
            spec_call_request(client_b.pool.free[0], inner.0, inner.1, inner.2),
            outcome_a,
            registry_a,
        ),
        outcome_a is Ok,
        outcome_b is Ok,
    ensures
        ({
            let slot_a = client_a.pool.free[0];
            let slot_b = client_b.pool.free[0];
            let worker_a = workers_a.free[0];
            let worker_b = workers_b.free[0];
            let inner_response = outcome_a->Ok_0.response@;
            let outer_response = outcome_b->Ok_0.response@;
            &&& workers_b.acquire().is_taken(worker_b)
            &&& workers_a.acquire().is_taken(worker_a)
            &&& client_b.begin().awaits(PacketHeader::spec_parse(inner_response).slot)
            &&& PacketHeader::spec_parse(inner_response).slot == slot_b
            &&& registry_a[inner.0.index].answers(inner.1, inner.2, Ok(spec_body(inner_response)))
            &&& client_b.begin().deliver(slot_b, inner_response).state(slot_b)
                == CallState::Answered(inner_response)
            &&& client_a.begin().awaits(PacketHeader::spec_parse(outer_response).slot)
            &&& PacketHeader::spec_parse(outer_response).slot == slot_a
            &&& registry_b[outer.0.index].answers(outer.1, outer.2, Ok(spec_body(outer_response)))
            &&& client_a.begin().deliver(slot_a, outer_response).state(slot_a)
                == CallState::Answered(outer_response)
            &&& client_a.begin().deliver(slot_a, outer_response).finish(slot_a).in_flight()
                == client_a.in_flight()
            &&& client_b.begin().deliver(slot_b, inner_response).finish(slot_b).in_flight()
                == client_b.in_flight()
            &&& workers_a.acquire().release(worker_a).taken_count() == workers_a.taken_count()
            &&& workers_b.acquire().release(worker_b).taken_count() == workers_b.taken_count()
            &&& workers_a.acquire().release(worker_a).valid()
            &&& workers_b.acquire().release(worker_b).valid()
        }),
{
    law_call_round_trip(client_a, registry_b, outer.0, outer.1, outer.2, outcome_b, registry_b);
    law_call_round_trip(client_b, registry_a, inner.0, inner.1, inner.2, outcome_a, registry_a);
    lemma_acquire_valid(workers_a);
    lemma_acquire_valid(workers_b);
    crate::pool::lemma_release_valid(workers_a.acquire(), workers_a.free[0]);
    crate::pool::lemma_release_valid(workers_b.acquire(), workers_b.free[0]);
}

} // verus!
