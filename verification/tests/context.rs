use remote_trait_object::config::{Config, SlotWait};
use remote_trait_object::context::{Context, ShutdownAction, Stage};
use remote_trait_object::error::{CallError, ConfigError, PortError};
use remote_trait_object::packet::{PacketHeader, ServiceObjectId, DELETE_INDICATOR};
use remote_trait_object::port::server::{
    Server, WORKER_TIMEOUT_MILLIS, WORKER_TIMEOUT_MILLIS_DEBUG,
};
use remote_trait_object::service::export_import::{
    create_skeleton, export_service_into_handle, import_service_from_handle, Skeleton,
};
use remote_trait_object::service::null::{
    NullServiceArcDispatcher, NullServiceBoxDispatcher, NullServiceImpl, NullServiceRemote,
    NullServiceRwLockDispatcher,
};
use remote_trait_object::service::{
    create_null_service, Dispatch, Handle, HandleInstance, HandleToExchange, NullService,
    RemoteObjectId,
};
use std::sync::Arc;

fn config() -> Config {
    Config {
        call_slots: 2,
        server_threads: 2,
        maximum_services_num: 3,
        ..Config::default_setup()
    }
}

fn null_context() -> (Context<NullServiceBoxDispatcher>, HandleInstance) {
    Context::with_initial_service(config(), Skeleton::new(create_null_service())).unwrap()
}

#[test]
fn default_setup_values() {
    let config = Config::default_setup();
    assert_eq!(config.name, "rto");
    assert_eq!(config.call_slots, 512);
    assert_eq!(config.call_timeout, Some(1000));
    assert_eq!(config.server_threads, 8);
    assert_eq!(config.maximum_services_num, 65536);
}

#[test]
fn faulty_configurations() {
    let bad = |change: fn(&mut Config)| {
        let mut c = config();
        change(&mut c);
        Context::<NullServiceBoxDispatcher>::new(c).err()
    };
    assert_eq!(bad(|c| c.call_slots = 0), None);
    assert_eq!(bad(|c| c.server_threads = 0), None);
    assert_eq!(bad(|c| c.call_slots = 1001), Some(ConfigError::CallSlots));
    assert_eq!(bad(|c| c.maximum_services_num = 0), Some(ConfigError::MaximumServices));
    assert_eq!(bad(|c| c.server_threads = usize::MAX), Some(ConfigError::ServerThreads));
    assert_eq!(
        bad(|c| {
            c.call_slots = 1001;
            c.server_threads = usize::MAX
        }),
        Some(ConfigError::CallSlots)
    );
    assert_eq!(bad(|_| {}), None);
}

#[test]
fn initial_services_have_id_zero() {
    let (context, handle) = null_context();
    assert_eq!(
        handle,
        HandleInstance {
            id: ServiceObjectId {
                index: 0
            },
            remote_id: RemoteObjectId {
                index: 0
            }
        }
    );
    assert_eq!(handle, HandleInstance::default());
    assert_eq!(
        HandleToExchange::initial(),
        HandleToExchange(ServiceObjectId {
            index: 0
        })
    );
    assert_eq!(context.port().exported(), 1);
    assert_eq!(context.port().imported(), 1);
    assert_eq!(context.stage(), Stage::Running);
    assert_eq!(context.config().call_slots, 2);
    assert_eq!(context.config().server_threads, 2);
    assert_eq!(context.config().maximum_services_num, 3);
    assert_eq!(context.config().call_timeout, Some(1000));
    assert_eq!(context.config().name, "rto");
}

#[test]
fn shutdown_follows_its_order() {
    let (mut context, _handle) = null_context();
    assert!(!context.port().is_terminating());
    let mut actions = Vec::new();
    let mut stages = Vec::new();
    for _ in 0..8 {
        actions.push(context.advance_shutdown());
        stages.push(context.stage());
        assert!(context.port().is_terminating());
    }
    assert_eq!(
        actions,
        vec![
            ShutdownAction::DropHandles,
            ShutdownAction::ShutdownMultiplexer,
            ShutdownAction::ShutdownClient,
            ShutdownAction::ShutdownServer,
            ShutdownAction::DropPort,
            ShutdownAction::Done,
            ShutdownAction::Done,
            ShutdownAction::Done,
        ]
    );
    assert_eq!(
        stages,
        vec![
            Stage::Terminating,
            Stage::HandlesDropped,
            Stage::MultiplexerDown,
            Stage::ClientDown,
            Stage::ServerDown,
            Stage::Closed,
            Stage::Closed,
            Stage::Closed,
        ]
    );
}

#[test]
fn dropped_proxies_ask_for_a_delete() {
    let (mut context, handle) = null_context();
    let request = handle.delete(&mut context).unwrap().unwrap();
    assert_eq!(
        request.header(),
        PacketHeader {
            slot: 1000,
            handle: ServiceObjectId {
                index: 0
            },
            method: DELETE_INDICATOR
        }
    );
    assert_eq!(request.buffer().len(), 12);
    assert_eq!(context.port().imported(), 0);
    assert_eq!(context.port().calls_in_flight(), 1);
}

#[test]
fn delete_race() {
    let (mut context, handle) = null_context();
    assert_eq!(context.advance_shutdown(), ShutdownAction::DropHandles);
    assert!(matches!(handle.delete(&mut context), Ok(None)));
    assert_eq!(context.port().calls_in_flight(), 0);
    assert_eq!(context.port().imported(), 0);
    assert!(matches!(
        context.delete_request(ServiceObjectId {
            index: 0
        }),
        Ok(None)
    ));
}

#[test]
fn deletes_wait_for_a_slot() {
    let (mut context, handle) = null_context();
    handle.call(&mut context, 0, &[]).unwrap();
    handle.call(&mut context, 0, &[]).unwrap();
    assert!(matches!(handle.call(&mut context, 0, &[]), Err(CallError::TooManyCalls)));
    assert!(matches!(handle.delete(&mut context), Err(CallError::TooManyCalls)));
    assert_eq!(context.port().imported(), 1);
}

#[test]
fn raw_exchange() {
    let (mut a, _) = null_context();
    let (mut b, _) = null_context();
    let skeleton = create_skeleton(Arc::new(NullServiceBoxDispatcher::new(create_null_service())));
    let handle = export_service_into_handle(&mut a, skeleton).unwrap();
    assert_eq!(handle.service_id().index, 1);
    let remote: Box<NullServiceRemote> = import_service_from_handle(&mut b, handle).unwrap();
    assert_eq!(
        remote.handle(),
        Handle {
            id: ServiceObjectId {
                index: 1
            },
            remote_id: RemoteObjectId {
                index: 1
            }
        }
    );
    let shared: Arc<NullServiceRemote> = import_service_from_handle(&mut b, handle).unwrap();
    assert_eq!(shared.handle().remote_id.index, 2);
    let full: Result<Box<NullServiceRemote>, PortError> = import_service_from_handle(&mut b, handle);
    assert_eq!(full.err(), Some(PortError::TooManyRemotes));
    let one_more = create_skeleton(Arc::new(NullServiceBoxDispatcher::new(create_null_service())));
    assert!(export_service_into_handle(&mut a, one_more).is_ok());
    let too_many = create_skeleton(Arc::new(NullServiceBoxDispatcher::new(create_null_service())));
    assert_eq!(export_service_into_handle(&mut a, too_many).err(), Some(PortError::TooManyServices));
}

#[test]
fn locked_remote_objects_keep_their_handle() {
    let mut context: Context<NullServiceArcDispatcher> = Context::new(config()).unwrap();
    let handle = HandleToExchange(ServiceObjectId {
        index: 42,
    });
    let locked: Arc<parking_lot::RwLock<NullServiceRemote>> =
        import_service_from_handle(&mut context, handle).unwrap();
    assert_eq!(
        locked.read().handle(),
        Handle {
            id: ServiceObjectId {
                index: 42
            },
            remote_id: RemoteObjectId {
                index: 0
            }
        }
    );
}

#[test]
fn null_services_reject_every_call() {
    let object: Box<dyn NullService> = create_null_service();
    let from_box = Skeleton::new(object).into_raw();
    let from_arc = Skeleton::new(Arc::new(NullServiceImpl) as Arc<dyn NullService>).into_raw();
    let from_lock: Arc<NullServiceRwLockDispatcher> =
        Skeleton::new(Arc::new(parking_lot::RwLock::new(NullServiceImpl))).into_raw();
    for method in [0u32, 1, DELETE_INDICATOR, u32::MAX] {
        assert!(from_box.dispatch_and_call(method, &[]).is_err());
        assert!(from_arc.dispatch_and_call(method, &[1, 2]).is_err());
        assert!(from_lock.dispatch_and_call(method, &[]).is_err());
    }
}

#[test]
fn workers_are_assigned_in_turn() {
    assert_eq!(WORKER_TIMEOUT_MILLIS, 50);
    assert_eq!(WORKER_TIMEOUT_MILLIS_DEBUG, 1_000_000);
    assert!(matches!(Server::new(usize::MAX), Err(ConfigError::ServerThreads)));
    let mut idle = Server::new(0).unwrap();
    assert_eq!(idle.server_threads(), 0);
    assert_eq!(idle.assign(), None);
    assert_eq!(idle.hand_on(vec![1]), Err(vec![1]));
    let mut server = Server::new(2).unwrap();
    assert_eq!(server.server_threads(), 2);
    assert_eq!(server.assign(), Some(0));
    assert_eq!(server.busy(), 1);
    assert_eq!(server.assign(), Some(1));
    assert_eq!(server.assign(), None);
    assert!(server.finished(1));
    assert!(!server.finished(1));
    assert!(!server.finished(5));
    assert_eq!(server.assign(), Some(1));
    assert!(server.finished(0));
    assert!(server.finished(1));
    assert_eq!(server.busy(), 0);
    assert_eq!(server.assign(), Some(0));
}

#[test]
fn context_workers() {
    let (mut context, _) = null_context();
    assert_eq!(context.assign_worker(), Some(0));
    assert_eq!(context.assign_worker(), Some(1));
    assert_eq!(context.assign_worker(), None);
    assert!(context.worker_finished(0));
    assert!(!context.worker_finished(0));
    assert_eq!(context.assign_worker(), Some(0));
}

#[test]
fn call_timeout_bounds_the_wait_for_a_slot() {
    let config = Config::default_setup();
    assert_eq!(config.slot_wait(0), SlotWait::Wait(Some(1000)));
    assert_eq!(config.slot_wait(999), SlotWait::Wait(Some(1)));
    assert_eq!(config.slot_wait(1000), SlotWait::GiveUp);
    assert_eq!(config.slot_wait(u64::MAX), SlotWait::GiveUp);
    let patient = Config {
        call_timeout: None,
        ..Config::default_setup()
    };
    assert_eq!(patient.slot_wait(0), SlotWait::Wait(None));
    assert_eq!(patient.slot_wait(u64::MAX), SlotWait::Wait(None));
    let hasty = Config {
        call_timeout: Some(0),
        ..Config::default_setup()
    };
    assert_eq!(hasty.slot_wait(0), SlotWait::GiveUp);
}

#[test]
fn requests_are_handed_on_in_order() {
    let (mut context, _) = null_context();
    assert_eq!(context.hand_on(vec![1]), Ok((0, vec![1])));
    assert_eq!(context.hand_on(vec![2, 2]), Ok((1, vec![2, 2])));
    assert_eq!(context.hand_on(vec![3]), Err(vec![3]));
    assert!(context.worker_finished(1));
    assert_eq!(context.hand_on(vec![3]), Ok((1, vec![3])));
    assert!(context.worker_finished(0));
    assert!(context.worker_finished(1));
    assert_eq!(context.hand_on(vec![]), Ok((0, vec![])));
    assert_eq!(context.config().call_slots, 2);
}

#[test]
fn the_configuration_stays_as_it_was_given() {
    let given = Config {
        name: "left".to_owned(),
        call_slots: 3,
        call_timeout: None,
        server_threads: 1,
        maximum_services_num: 9,
    };
    let mut context: Context<NullServiceBoxDispatcher> = Context::new(given).unwrap();
    context.assign_worker();
    context.advance_shutdown();
    context.advance_shutdown();
    let kept = context.config();
    assert_eq!(kept.name, "left");
    assert_eq!(kept.call_slots, 3);
    assert_eq!(kept.call_timeout, None);
    assert_eq!(kept.server_threads, 1);
    assert_eq!(kept.maximum_services_num, 9);
    assert_eq!(kept.slot_wait(5), SlotWait::Wait(None));
}
