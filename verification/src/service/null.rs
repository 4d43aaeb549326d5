//! The service without methods.
//!
//! A connection begins with each side exporting one service. A side that has
//! nothing to offer exports the null service: it can be imported, held and
//! dropped like any other, and calling it is always a violation.

use crate::error::DispatchError;
use crate::packet::MethodId;
use crate::service::export_import::{create_skeleton, ImportRemote, IntoSkeleton, Skeleton};
use crate::service::{Dispatch, Handle, Service};
use parking_lot::lock_api::RwLock;
use parking_lot::RawRwLock;
use std::sync::Arc;
use vstd::prelude::*;

verus! {

/// The reader-writer lock of parking_lot, taken as it is.
#[verifier::external_type_specification]
#[verifier::external_body]
#[verifier::reject_recursive_types(R)]
#[verifier::reject_recursive_types(T)]
pub struct ExRwLock<R, T: ?Sized>(RwLock<R, T>);

/// The raw lock beneath it, taken as it is.
#[verifier::external_type_specification]
#[verifier::external_body]
pub struct ExRawRwLock(RawRwLock);

/// The handle of the remote object that a reader-writer lock guards: the
/// index of its service object id, then that of its remote object id.
pub uninterp spec fn locked_handle(lock: RwLock<RawRwLock, NullServiceRemote>) -> (u32, u32);

/// Calls `RwLock::new`, which parking_lot takes from lock_api. The new lock
/// guards the value it was given, and so a remote object with the handle of
/// that value.
#[verifier::external_body]
fn lock_remote(remote: NullServiceRemote) -> (locked: RwLock<RawRwLock, NullServiceRemote>)
    ensures
        locked_handle(locked) == (remote.handle.id.index, remote.handle.remote_id.index),
{
    RwLock::new(remote)
}

/// The service trait without methods.
pub trait NullService: Service {
}

/// The one local object of the null service.
pub struct NullServiceImpl;

impl Service for NullServiceImpl {
}

impl NullService for NullServiceImpl {
}

/// Makes a null service to export.
pub fn create_null_service() -> (service: Box<NullServiceImpl>)
    ensures
        *service == NullServiceImpl,
{
    Box::new(NullServiceImpl)
}

/// Dispatcher of a null service held in a `Box`.
pub struct NullServiceBoxDispatcher {}

impl NullServiceBoxDispatcher {
    pub fn new<T: NullService + ?Sized>(_object: Box<T>) -> (dispatcher: Self) {
        Self {  }
    }
}

impl Dispatch for NullServiceBoxDispatcher {
    /// A null service has no method: every call is rejected.
    open spec fn answers(
        &self,
        method: MethodId,
        args: Seq<u8>,
        ret: Result<Seq<u8>, DispatchError>,
    ) -> bool {
        ret == Err::<Seq<u8>, _>(DispatchError::UnknownMethod)
    }

    fn dispatch_and_call(&self, _method: MethodId, _args: &[u8]) -> (ret: Result<
        Vec<u8>,
        DispatchError,
    >) {
        Err(DispatchError::UnknownMethod)
    }
}

impl<T: NullService + ?Sized> IntoSkeleton<T> for Box<T> {
    type Dispatcher = NullServiceBoxDispatcher;

    fn into_skeleton(self) -> (skeleton: Skeleton<NullServiceBoxDispatcher>) {
        create_skeleton(Arc::new(NullServiceBoxDispatcher::new(self)))
    }
}

/// Dispatcher of a null service held in an `Arc`.
pub struct NullServiceArcDispatcher {}

impl NullServiceArcDispatcher {
    pub fn new<T: NullService + ?Sized>(_object: Arc<T>) -> (dispatcher: Self) {
        Self {  }
    }
}

impl Dispatch for NullServiceArcDispatcher {
    /// A null service has no method: every call is rejected.
    open spec fn answers(
        &self,
        method: MethodId,
        args: Seq<u8>,
        ret: Result<Seq<u8>, DispatchError>,
    ) -> bool {
        ret == Err::<Seq<u8>, _>(DispatchError::UnknownMethod)
    }

    fn dispatch_and_call(&self, _method: MethodId, _args: &[u8]) -> (ret: Result<
        Vec<u8>,
        DispatchError,
    >) {
        Err(DispatchError::UnknownMethod)
    }
}

impl<T: NullService + ?Sized> IntoSkeleton<T> for Arc<T> {
    type Dispatcher = NullServiceArcDispatcher;

    fn into_skeleton(self) -> (skeleton: Skeleton<NullServiceArcDispatcher>) {
        create_skeleton(Arc::new(NullServiceArcDispatcher::new(self)))
    }
}

/// Dispatcher of a null service held in an `Arc` behind a reader-writer lock.
pub struct NullServiceRwLockDispatcher {}

impl NullServiceRwLockDispatcher {
    pub fn new<T: NullService + ?Sized>(_object: Arc<RwLock<RawRwLock, T>>) -> (dispatcher: Self) {
        Self {  }
    }
}

impl Dispatch for NullServiceRwLockDispatcher {
    /// A null service has no method: every call is rejected.
    open spec fn answers(
        &self,
        method: MethodId,
        args: Seq<u8>,
        ret: Result<Seq<u8>, DispatchError>,
    ) -> bool {
        ret == Err::<Seq<u8>, _>(DispatchError::UnknownMethod)
    }

    fn dispatch_and_call(&self, _method: MethodId, _args: &[u8]) -> (ret: Result<
        Vec<u8>,
        DispatchError,
    >) {
        Err(DispatchError::UnknownMethod)
    }
}

impl<T: NullService + ?Sized> IntoSkeleton<T> for Arc<RwLock<RawRwLock, T>> {
    type Dispatcher = NullServiceRwLockDispatcher;

    fn into_skeleton(self) -> (skeleton: Skeleton<NullServiceRwLockDispatcher>) {
        create_skeleton(Arc::new(NullServiceRwLockDispatcher::new(self)))
    }
}

/// The remote object of a null service: a handle and nothing to call.
#[derive(Debug)]
pub struct NullServiceRemote {
    handle: Handle,
}

impl NullServiceRemote {
    /// The handle that the remote object carries.
    pub fn handle(&self) -> (handle: Handle)
        ensures
            handle == self.spec_handle(),
    {
        self.handle
    }

    /// The handle that the remote object carries.
    pub closed spec fn spec_handle(&self) -> Handle {
        self.handle
    }
}

impl Service for NullServiceRemote {
}

impl NullService for NullServiceRemote {
}

impl ImportRemote<NullServiceRemote> for Box<NullServiceRemote> {
    open spec fn carries(&self, handle: Handle) -> bool {
        self.spec_handle() == handle
    }

    fn import_remote(handle: Handle) -> (remote: Self) {
        Box::new(NullServiceRemote { handle })
    }
}

impl ImportRemote<NullServiceRemote> for Arc<NullServiceRemote> {
    open spec fn carries(&self, handle: Handle) -> bool {
        self.spec_handle() == handle
    }

    fn import_remote(handle: Handle) -> (remote: Self) {
        Arc::new(NullServiceRemote { handle })
    }
}

impl ImportRemote<NullServiceRemote> for Arc<RwLock<RawRwLock, NullServiceRemote>> {
    open spec fn carries(&self, handle: Handle) -> bool {
        locked_handle(**self) == (handle.id.index, handle.remote_id.index)
    }

    fn import_remote(handle: Handle) -> (remote: Self) {
        Arc::new(lock_remote(NullServiceRemote { handle }))
    }
}

} // verus!
