//! What a remote object does with its handle: import it, call through it,
//! and give it up.

use crate::context::Context;
use crate::error::{CallError, PortError};
use crate::packet::{MethodId, Packet};
use crate::port::{spec_call_request, spec_delete_request};
use crate::service::{Dispatch, HandleInstance, HandleToExchange};
use crate::table::{spec_has_room, spec_is_next_id};
use vstd::prelude::*;

verus! {

impl HandleInstance {
    /// Imports `handle` into `context` and returns what the remote object is
    /// to carry.
    pub fn new<D: Dispatch + ?Sized>(handle: HandleToExchange, context: &mut Context<D>) -> (result:
        Result<Self, PortError>)
        requires
            old(context).wf(),
        ensures
            final(context).wf(),
            result is Ok <==> spec_has_room(old(context)@.port.remotes, old(context)@.port.limit),
            result matches Ok(instance) ==> {
                &&& instance.id == handle.0
                &&& spec_is_next_id(old(context)@.port.remotes, instance.remote_id.index)
                &&& final(context)@ == old(context)@.with_port(
                    old(context)@.port.with_remotes(
                        old(context)@.port.remotes.insert(instance.remote_id.index, handle),
                    ),
                )
            },
            result matches Err(e) ==> e == PortError::TooManyRemotes && final(context)@ == old(
                context,
            )@,
    {
        match context.register_remote(handle) {
            Ok(remote_id) => Ok(HandleInstance { id: handle.0, remote_id }),
            Err(e) => Err(e),
        }
    }

    /// Starts a call of `method` on the remote service with the serialized
    /// arguments `args`, and returns the request to send.
    pub fn call<D: Dispatch + ?Sized>(
        &self,
        context: &mut Context<D>,
        method: MethodId,
        args: &[u8],
    ) -> (result: Result<Packet, CallError>)
        requires
            old(context).wf(),
        ensures
            final(context).wf(),
            result is Ok <==> old(context)@.port.client.in_flight() < old(
                context,
            )@.port.client.call_slots(),
            result is Ok <==> old(context)@.port.client.pool.free.len() > 0,
            result matches Ok(request) ==> {
                &&& old(context)@.port.client.pool.free.len() > 0
                &&& request@ == spec_call_request(
                    old(context)@.port.client.pool.free[0],
                    self.id,
                    method,
                    args@,
                )
                &&& final(context)@ == old(context)@.with_port(
                    old(context)@.port.with_client(old(context)@.port.client.begin()),
                )
            },
            result matches Err(e) ==> e == CallError::TooManyCalls && final(context)@ == old(
                context,
            )@,
    {
        context.call(self.id, method, args)
    }

    /// Gives the handle up, as the remote object does when it is dropped.
    /// Unless the context is shutting down, the peer is asked to drop the
    /// service object, and the request to send is returned. Where no call
    /// slot is free for that request, nothing changes and the caller may try
    /// again; otherwise the context forgets the remote object.
    pub fn delete<D: Dispatch + ?Sized>(&self, context: &mut Context<D>) -> (result: Result<
        Option<Packet>,
        CallError,
    >)
        requires
            old(context).wf(),
        ensures
            final(context).wf(),
            result is Err <==> !old(context)@.port.terminating && old(
                context,
            )@.port.client.in_flight() >= old(context)@.port.client.call_slots(),
            result matches Err(e) ==> e == CallError::TooManyCalls && final(context)@ == old(
                context,
            )@,
            result matches Ok(sent) ==> {
                &&& sent is None <==> old(context)@.port.terminating
                &&& sent matches Some(request) ==> old(context)@.port.client.pool.free.len() > 0
                    && request@ == spec_delete_request(
                    old(context)@.port.client.pool.free[0],
                    self.id,
                )
                &&& final(context)@ == old(context)@.with_port(
                    old(context)@.port.with_remotes(
                        old(context)@.port.remotes.remove(self.remote_id.index),
                    ).with_client(
                        if old(context)@.port.terminating {
                            old(context)@.port.client
                        } else {
                            old(context)@.port.client.begin()
                        },
                    ),
                )
            },
    {
        let sent = match context.delete_request(self.id) {
            Ok(sent) => sent,
            Err(e) => {
                return Err(e);
            },
        };
        let forgotten = context.forget_remote(self.remote_id);
        proof {
            if forgotten is None {
                let before = old(context)@.port.remotes;
                assert(before.remove(self.remote_id.index) =~= before);
            }
        }
        Ok(sent)
    }
}

} // verus!
