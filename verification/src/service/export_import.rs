//! Turning a service object into something a port can register, and a handle
//! into something a caller can hold.

use crate::context::{Context, ContextView};
use crate::error::PortError;
use crate::service::{Dispatch, Handle, HandleToExchange, RemoteObjectId, Service};
use crate::table::{spec_has_room, spec_is_next_id};
use std::sync::Arc;
use vstd::prelude::*;

verus! {

/// A service ready to be registered, its trait erased: all that is left of
/// it is the capability to dispatch calls. Making one involves no context,
/// so a service can be prepared first and exported later.
pub struct Skeleton<D: Dispatch + ?Sized> {
    pub(crate) raw: Arc<D>,
}

impl<D: Dispatch + ?Sized> View for Skeleton<D> {
    type V = Arc<D>;

    closed spec fn view(&self) -> Arc<D> {
        self.raw
    }
}

impl<D: Dispatch + ?Sized> Skeleton<D> {
    /// Makes a skeleton from a service object in a smart pointer.
    pub fn new<T: ?Sized + Service, S: IntoSkeleton<T, Dispatcher = D>>(service: S) -> (skeleton: Self)
        ensures
            call_ensures(S::into_skeleton, (service,), skeleton),
    {
        service.into_skeleton()
    }

    /// Gives up the skeleton for its dispatcher.
    pub fn into_raw(self) -> (raw: Arc<D>)
        ensures
            raw == self@,
    {
        self.raw
    }
}

/// Makes a skeleton from a dispatcher. The skeleton of a service trait does
/// so with its own dispatcher.
pub fn create_skeleton<D: Dispatch + ?Sized>(raw: Arc<D>) -> (skeleton: Skeleton<D>)
    ensures
        skeleton@ == raw,
{
    Skeleton { raw }
}

/// Conversion of a smart pointer to a service object into a skeleton. The
/// parameter `T` names the service trait, so that one pointer type can be
/// converted for several traits.
pub trait IntoSkeleton<T: ?Sized + Service> {
    /// The dispatcher of the service trait for this kind of pointer.
    type Dispatcher: Dispatch + ?Sized;

    fn into_skeleton(self) -> Skeleton<Self::Dispatcher>;
}

/// Construction of a remote object from the handle it is to carry. The
/// parameter `T` names the service trait, as in `IntoSkeleton`.
pub trait ImportRemote<T: ?Sized + Service>: Sized {
    /// Whether the remote object may carry `handle`. A kind of remote
    /// object that says nothing allows every handle.
    open spec fn carries(&self, handle: Handle) -> bool {
        true
    }

    /// Builds the remote object around `handle`.
    fn import_remote(handle: Handle) -> (remote: Self)
        ensures
            remote.carries(handle),
    ;
}

/// Exports a skeleton through a context and returns the handle to give to
/// the other side, which imports it with `import_service_from_handle`.
pub fn export_service_into_handle<D: Dispatch + ?Sized>(
    context: &mut Context<D>,
    service: Skeleton<D>,
) -> (result: Result<HandleToExchange, PortError>)
    requires
        old(context).wf(),
    ensures
        final(context).wf(),
        result is Ok <==> spec_has_room(
            old(context)@.port.registry,
            old(context)@.port.limit,
        ),
        result matches Ok(handle) ==> {
            &&& spec_is_next_id(old(context)@.port.registry, handle.0.index)
            &&& final(context)@ == old(context)@.with_port(
                old(context)@.port.with_registry(
                    old(context)@.port.registry.insert(handle.0.index, service@),
                ),
            )
        },
        result matches Err(e) ==> e == PortError::TooManyServices && final(context)@ == old(
            context,
        )@,
{
    match context.register(service.raw) {
        Ok(id) => Ok(HandleToExchange(id)),
        Err(e) => Err(e),
    }
}

/// The handle that a remote object carries when `handle` was imported under
/// the remote object id `id`.
pub open spec fn spec_handle(handle: HandleToExchange, id: u32) -> Handle {
    Handle { id: handle.0, remote_id: RemoteObjectId { index: id } }
}

/// Whether importing `handle` into a context in state `before` may give
/// `remote` and leave the context in state `after`, with `id` the remote
/// object id that the import received.
pub open spec fn spec_imported_as<P: ImportRemote<T>, T: ?Sized + Service, D: ?Sized>(
    before: ContextView<D>,
    handle: HandleToExchange,
    remote: P,
    after: ContextView<D>,
    id: u32,
) -> bool {
    &&& spec_is_next_id(before.port.remotes, id)
    &&& remote.carries(spec_handle(handle, id))
    &&& after == before.with_port(
        before.port.with_remotes(before.port.remotes.insert(id, handle)),
    )
}

/// Whether importing `handle` into a context in state `before` may give
/// `remote` and leave the context in state `after`: the import receives the
/// next remote object id, and the remote object carries the handle.
pub open spec fn spec_imported<P: ImportRemote<T>, T: ?Sized + Service, D: ?Sized>(
    before: ContextView<D>,
    handle: HandleToExchange,
    remote: P,
    after: ContextView<D>,
) -> bool {
    exists|id: u32| spec_imported_as::<P, T, D>(before, handle, remote, after, id)
}

/// Imports a handle that the other side exported: the context takes note of
/// it, and the remote object is built around the handle.
pub fn import_service_from_handle<T: ?Sized + Service, P: ImportRemote<T>, D: Dispatch + ?Sized>(
    context: &mut Context<D>,
    handle: HandleToExchange,
) -> (result: Result<P, PortError>)
    requires
        old(context).wf(),
    ensures
        final(context).wf(),
        result is Ok <==> spec_has_room(
            old(context)@.port.remotes,
            old(context)@.port.limit,
        ),
        result matches Ok(remote) ==> spec_imported(old(context)@, handle, remote, final(context)@),
        result matches Err(e) ==> e == PortError::TooManyRemotes && final(context)@ == old(
            context,
        )@,
{
    match Handle::new(handle, context) {
        Ok(h) => {
            let remote = P::import_remote(h);
            assert(spec_imported_as(old(context)@, handle, remote, context@, h.remote_id.index));
            Ok(remote)
        },
        Err(e) => Err(e),
    }
}

} // verus!
