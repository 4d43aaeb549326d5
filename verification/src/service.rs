//! Services: what is exported, how it is called, and how it is named on the
//! wire.

pub mod call;
pub mod export_import;
pub mod null;

use crate::error::DispatchError;
use crate::packet::{MethodId, ServiceObjectId};
use vstd::prelude::*;

pub use null::{create_null_service, NullService};

verus! {

/// Identifier under which an importing port keeps track of a remote object.
#[derive(PartialEq, Eq, Structural, Debug, Clone, Copy)]
pub struct RemoteObjectId {
    pub index: u32,
}

/// What a remote object carries: the id of the service object on the
/// exporting side, and the id under which the importing port keeps track of
/// the remote object.
#[derive(PartialEq, Eq, Structural, Debug, Clone, Copy)]
pub struct HandleInstance {
    pub id: ServiceObjectId,
    pub remote_id: RemoteObjectId,
}

/// The name under which a remote object knows its handle.
pub type Handle = HandleInstance;

impl HandleInstance {
    /// The handle of the first service exported, kept track of as the first
    /// remote object.
    pub open spec fn default_spec() -> HandleInstance {
        HandleInstance { id: ServiceObjectId { index: 0 }, remote_id: RemoteObjectId { index: 0 } }
    }
}

impl Default for HandleInstance {
    /// The handle of the first service exported, kept track of as the first
    /// remote object.
    fn default() -> (handle: Self)
        ensures
            handle == HandleInstance::default_spec(),
    {
        HandleInstance { id: ServiceObjectId { index: 0 }, remote_id: RemoteObjectId { index: 0 } }
    }
}

/// The transportable form of a service reference: the id that the exporting
/// port gave the service object. Which port that is follows from who sent it.
#[derive(PartialEq, Eq, Structural, Debug, Clone, Copy)]
pub struct HandleToExchange(pub ServiceObjectId);

/// The id of the service object that each side exports first. Both sides
/// know it, so the first import needs no exchange.
pub const INITIAL_SERVICE_ID: u32 = 0;

impl HandleToExchange {
    /// The handle of the service that the peer exported first.
    pub fn initial() -> (handle: HandleToExchange)
        ensures
            handle == HandleToExchange(ServiceObjectId { index: INITIAL_SERVICE_ID }),
    {
        HandleToExchange(ServiceObjectId { index: INITIAL_SERVICE_ID })
    }

    /// The id that the exporting port gave the service object.
    pub fn service_id(&self) -> (id: ServiceObjectId)
        ensures
            id == self.0,
    {
        self.0
    }
}

/// Every service trait has this marker as a supertrait.
pub trait Service: Send + Sync {
}

/// What a skeleton made of a call, as plain values.
pub open spec fn spec_outcome(ret: Result<Vec<u8>, DispatchError>) -> Result<Seq<u8>, DispatchError> {
    match ret {
        Ok(bytes) => Ok(bytes@),
        Err(e) => Err(e),
    }
}

/// The exporter's interface to a service object: given a method id and the
/// serialized arguments, run the method and return the serialized result.
/// It is what a skeleton of a service trait implements.
pub trait Dispatch: Send + Sync {
    /// Whether `ret` is an outcome that a call of `method` on `args` may
    /// have: the serialized result, or the reason why the call is rejected.
    /// A skeleton that says nothing allows every outcome.
    open spec fn answers(
        &self,
        method: MethodId,
        args: Seq<u8>,
        ret: Result<Seq<u8>, DispatchError>,
    ) -> bool {
        true
    }

    /// Runs the method on the arguments, or rejects the call.
    fn dispatch_and_call(&self, method: MethodId, args: &[u8]) -> (ret: Result<
        Vec<u8>,
        DispatchError,
    >)
        ensures
            self.answers(method, args@, spec_outcome(ret)),
    ;
}

} // verus!
