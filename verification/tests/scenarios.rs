use remote_trait_object::config::Config;
use remote_trait_object::context::{Context, ShutdownAction};
use remote_trait_object::error::{DispatchError, ProtocolViolation};
use remote_trait_object::packet::{MethodId, ServiceObjectId, DELETE_INDICATOR};
use remote_trait_object::port::server::{parse_request, respond, RequestKind};
use remote_trait_object::service::export_import::create_skeleton;
use remote_trait_object::service::{Dispatch, HandleInstance, HandleToExchange};
use remote_trait_object::transport::multiplex::{route, MultiplexAction, ServerOrClientForwarder};
use std::sync::atomic::{AtomicUsize, Ordering};
use std::sync::{Arc, Mutex};

type Made = Arc<Mutex<Vec<Arc<dyn Dispatch>>>>;

/// Skeleton of `Ping { ping, ping_mut, ping_barrier }`.
struct PingSkeleton {
    pings: Arc<AtomicUsize>,
}

impl Dispatch for PingSkeleton {
    fn dispatch_and_call(&self, method: MethodId, args: &[u8]) -> Result<Vec<u8>, DispatchError> {
        if !args.is_empty() {
            return Err(DispatchError::Codec);
        }
        match method {
            0 | 1 | 2 => {
                self.pings.fetch_add(1, Ordering::SeqCst);
                Ok(Vec::new())
            }
            _ => Err(DispatchError::UnknownMethod),
        }
    }
}

/// Skeleton of `Hello { hey }`: `hey` makes a `Ping` and leaves it to be
/// exported with the response.
struct HelloSkeleton {
    made: Made,
    pings: Arc<AtomicUsize>,
}

impl Dispatch for HelloSkeleton {
    fn dispatch_and_call(&self, method: MethodId, _args: &[u8]) -> Result<Vec<u8>, DispatchError> {
        match method {
            0 => {
                self.made.lock().unwrap().push(Arc::new(PingSkeleton {
                    pings: Arc::clone(&self.pings),
                }));
                Ok(Vec::new())
            }
            _ => Err(DispatchError::UnknownMethod),
        }
    }
}

struct Side {
    context: Context<dyn Dispatch>,
    made: Made,
    pings: Arc<AtomicUsize>,
    deletes_seen: usize,
    served: Vec<Vec<u8>>,
}

fn side(call_slots: usize, server_threads: usize) -> (Side, HandleInstance) {
    side_with(Config {
        call_slots,
        server_threads,
        ..Config::default_setup()
    })
}

fn side_with(config: Config) -> (Side, HandleInstance) {
    let made: Made = Arc::new(Mutex::new(Vec::new()));
    let pings = Arc::new(AtomicUsize::new(0));
    let hello: Arc<dyn Dispatch> = Arc::new(HelloSkeleton {
        made: Arc::clone(&made),
        pings: Arc::clone(&pings),
    });
    let (context, handle) = Context::with_initial_service(config, create_skeleton(hello)).unwrap();
    (
        Side {
            context,
            made,
            pings,
            deletes_seen: 0,
            served: Vec::new(),
        },
        handle,
    )
}

#[allow(clippy::type_complexity)]
fn run() -> ((Side, HandleInstance), (Side, HandleInstance)) {
    (side_with(Config::default_setup()), side_with(Config::default_setup()))
}

/// What a worker of `side` does with one request: a service that the call
/// made is exported, and its handle is the body of the response.
fn serve(side: &mut Side, message: &[u8]) -> Vec<u8> {
    side.served.push(message.to_vec());
    let request = parse_request(message).unwrap();
    if request.kind == RequestKind::Delete {
        side.deletes_seen += 1;
        let handled = side.context.handle_request(message).unwrap();
        assert!(handled.released.is_some());
        return handled.response.into_vec();
    }
    let mut ret = side.context.port().dispatch(request.service, request.method, &message[12..]).unwrap();
    let made: Vec<Arc<dyn Dispatch>> = side.made.lock().unwrap().drain(..).collect();
    for service in made {
        let id = side.context.register(service).unwrap();
        ret.extend_from_slice(&id.index.to_le_bytes());
    }
    respond(&request, &ret).into_vec()
}

/// A whole call from `me` to `peer`.
fn call(me: &mut Side, peer: &mut Side, handle: &HandleInstance, method: MethodId) -> Vec<u8> {
    let request = handle.call(&mut me.context, method, &[]).unwrap();
    let response = serve(peer, request.buffer());
    let slot = me.context.deliver(response).unwrap();
    me.context.finish_call(slot).unwrap().data().to_vec()
}

fn hey(me: &mut Side, peer: &mut Side, hello: &HandleInstance) -> HandleInstance {
    let body = call(me, peer, hello, 0);
    let index = u32::from_le_bytes(body[..].try_into().unwrap());
    let handle = HandleToExchange(ServiceObjectId {
        index,
    });
    HandleInstance::new(handle, &mut me.context).unwrap()
}

fn drop_proxy(me: &mut Side, peer: &mut Side, proxy: HandleInstance) {
    if let Some(request) = proxy.delete(&mut me.context).unwrap() {
        let response = serve(peer, request.buffer());
        let slot = me.context.deliver(response).unwrap();
        assert!(me.context.finish_call(slot).unwrap().data().is_empty());
    }
}

#[test]
fn ping1() {
    let ((mut side1, hello1), (mut side2, hello2)) = run();

    let ping1 = hey(&mut side1, &mut side2, &hello1);
    let ping2 = hey(&mut side2, &mut side1, &hello2);

    assert!(call(&mut side1, &mut side2, &ping1, 0).is_empty());
    assert!(call(&mut side2, &mut side1, &ping2, 0).is_empty());
    assert_eq!(side2.pings.load(Ordering::SeqCst), 1);
    assert_eq!(side1.pings.load(Ordering::SeqCst), 1);

    drop_proxy(&mut side1, &mut side2, hello1);
    drop_proxy(&mut side2, &mut side1, hello2);
    assert_eq!(side1.context.port().calls_in_flight(), 0);
    assert_eq!(side2.context.port().calls_in_flight(), 0);
}

#[test]
fn six_proxies_come_and_go() {
    let n = 6;
    let ((mut a, _hello_a), (mut b, hello_b)) = run();
    let pings: Vec<HandleInstance> = (0..n).map(|_| hey(&mut b, &mut a, &hello_b)).collect();
    assert_eq!(pings.iter().map(|p| p.id.index).collect::<Vec<_>>(), vec![1, 2, 3, 4, 5, 6]);
    assert_eq!(a.context.port().exported(), 1 + n);
    assert_eq!(b.context.port().imported(), 1 + n);
    for ping in &pings {
        assert!(call(&mut b, &mut a, ping, 2).is_empty());
    }
    assert_eq!(a.pings.load(Ordering::SeqCst), n);
    for ping in pings {
        drop_proxy(&mut b, &mut a, ping);
    }
    assert_eq!(a.deletes_seen, n);
    assert_eq!(a.context.port().exported(), 1);
    assert_eq!(b.context.port().imported(), 1);
    drop_proxy(&mut b, &mut a, hello_b);
    assert_eq!(a.context.port().exported(), 0);
    assert_eq!(b.context.port().calls_in_flight(), 0);
}

#[test]
fn delete_on_drop() {
    let ((mut a, _), (mut b, hello_b)) = run();
    let ping = hey(&mut b, &mut a, &hello_b);
    assert!(call(&mut b, &mut a, &ping, 0).is_empty());
    assert_eq!(a.deletes_seen, 0);
    drop_proxy(&mut b, &mut a, ping);
    assert_eq!(a.deletes_seen, 1);
    let deletes: Vec<&Vec<u8>> =
        a.served.iter().filter(|m| parse_request(m).unwrap().method == DELETE_INDICATOR).collect();
    assert_eq!(deletes.len(), 1);
    assert_eq!(parse_request(deletes[0]).unwrap().service, ping.id);
    assert_eq!(deletes[0].len(), 12);
}

#[test]
fn a_second_delete_is_a_violation() {
    let ((mut a, _), (mut b, hello_b)) = run();
    let ping = hey(&mut b, &mut a, &hello_b);
    let request = ping.delete(&mut b.context).unwrap().unwrap();
    assert!(a.context.handle_request(request.buffer()).is_ok());
    assert!(matches!(
        a.context.handle_request(request.buffer()),
        Err(ProtocolViolation::UnknownService)
    ));
    assert!(matches!(
        a.context.port().dispatch(ping.id, 0, &[]),
        Err(ProtocolViolation::UnknownService)
    ));
    assert_eq!(a.context.port().exported(), 1);
}

#[test]
fn freed_ids_are_given_out_again() {
    let ((mut a, _), (mut b, hello_b)) = run();
    let first = hey(&mut b, &mut a, &hello_b);
    let second = hey(&mut b, &mut a, &hello_b);
    assert_eq!((first.id.index, second.id.index), (1, 2));
    assert_eq!((first.remote_id.index, second.remote_id.index), (1, 2));
    drop_proxy(&mut b, &mut a, first);
    let third = hey(&mut b, &mut a, &hello_b);
    assert_eq!(third.id.index, 1);
    assert_eq!(third.remote_id.index, 1);
    assert!(call(&mut b, &mut a, &second, 1).is_empty());
    assert!(call(&mut b, &mut a, &third, 1).is_empty());
}

#[test]
fn shutdown_cleanliness() {
    let ((mut a, hello_a), (mut b, hello_b)) = run();
    let ping = hey(&mut a, &mut b, &hello_a);
    assert!(call(&mut a, &mut b, &ping, 0).is_empty());
    assert_eq!(a.context.advance_shutdown(), ShutdownAction::DropHandles);
    assert_eq!(b.context.advance_shutdown(), ShutdownAction::DropHandles);
    for proxy in [ping, hello_a] {
        assert!(matches!(proxy.delete(&mut a.context), Ok(None)));
    }
    assert!(matches!(hello_b.delete(&mut b.context), Ok(None)));
    assert_eq!(a.context.port().imported(), 0);
    assert_eq!(a.context.port().calls_in_flight(), 0);
    assert_eq!(b.deletes_seen, 0);
    for context in [&mut a.context, &mut b.context] {
        assert_eq!(context.advance_shutdown(), ShutdownAction::ShutdownMultiplexer);
        assert_eq!(context.advance_shutdown(), ShutdownAction::ShutdownClient);
        assert_eq!(context.advance_shutdown(), ShutdownAction::ShutdownServer);
        assert_eq!(context.advance_shutdown(), ShutdownAction::DropPort);
        assert_eq!(context.advance_shutdown(), ShutdownAction::Done);
    }
}

/// Echoes its arguments.
struct Echo;

impl Dispatch for Echo {
    fn dispatch_and_call(&self, method: MethodId, args: &[u8]) -> Result<Vec<u8>, DispatchError> {
        match method {
            0 => Ok(args.to_vec()),
            _ => Err(DispatchError::UnknownMethod),
        }
    }
}

fn echo_pair(call_slots: usize) -> (Context<dyn Dispatch>, Context<dyn Dispatch>, HandleInstance) {
    let config = |call_slots| Config {
        call_slots,
        ..Config::default_setup()
    };
    let (a, handle) =
        Context::with_initial_service(config(call_slots), create_skeleton(Arc::new(Echo) as Arc<dyn Dispatch>))
            .unwrap();
    let (b, _) =
        Context::with_initial_service(config(call_slots), create_skeleton(Arc::new(Echo) as Arc<dyn Dispatch>))
            .unwrap();
    (a, b, handle)
}

#[test]
fn multiplex_correctness() {
    let n = 100usize;
    let (mut a, mut b, echo) = echo_pair(n);
    let arguments: Vec<Vec<u8>> =
        (0..n).map(|i| (0..(i * 37) % 211).map(|j| (i + j) as u8).collect()).collect();
    let requests: Vec<Vec<u8>> =
        arguments.iter().map(|args| echo.call(&mut a, 0, args).unwrap().into_vec()).collect();
    assert_eq!(a.port().calls_in_flight(), n);
    let mut responses: Vec<Vec<u8>> =
        requests.iter().map(|r| b.handle_request(r).unwrap().response.into_vec()).collect();
    // The responses come back in another order than the requests went out.
    let mut order: Vec<usize> = (0..n).map(|i| (i * 61 + 17) % n).collect();
    order.dedup();
    assert_eq!(order.len(), n);
    for &i in &order {
        let response = std::mem::take(&mut responses[i]);
        let slot = match route::<ServerOrClientForwarder>(Ok(response)) {
            MultiplexAction::ToClient(message) => a.deliver(message).unwrap(),
            _ => panic!("a response must go to the client"),
        };
        assert_eq!(slot as usize, i);
        assert_eq!(a.finish_call(slot).unwrap().data(), &arguments[i][..]);
    }
    assert_eq!(a.port().calls_in_flight(), 0);
}

#[test]
fn requests_arrive_in_issue_order() {
    let (mut a, mut b, echo) = echo_pair(4);
    let first = echo.call(&mut a, 0, &[1]).unwrap().into_vec();
    let second = echo.call(&mut a, 0, &[2]).unwrap().into_vec();
    let held_back = b.handle_request(&first).unwrap().response.into_vec();
    // On the wire of `a` a response of its own server goes between the two.
    let mut to_server = Vec::new();
    for message in [first.clone(), held_back, second.clone()] {
        if let MultiplexAction::ToServer(request) = route::<ServerOrClientForwarder>(Ok(message)) {
            to_server.push(request);
        }
    }
    assert_eq!(to_server, vec![first, second]);
}

#[test]
fn reentrant_calls_need_a_second_worker() {
    for (server_threads, expected) in [(2usize, true), (1, false)] {
        let (mut a, hello_a) = side(2, server_threads);
        let (mut b, hello_b) = side(2, server_threads);
        // a calls b; the handler in b takes a worker and calls back into a.
        let outer = hello_a.call(&mut a.context, 0, &[]).unwrap();
        let outer_worker = b.context.assign_worker().unwrap();
        let inner = hello_b.call(&mut b.context, 0, &[]).unwrap();
        let inner_worker = a.context.assign_worker().unwrap();
        // The handler in a calls b once more, while the first handler in b
        // still waits: b needs a worker besides the one that is busy.
        let innermost = hello_a.call(&mut a.context, 0, &[]).unwrap();
        let second_worker = b.context.assign_worker();
        assert_eq!(second_worker.is_some(), expected);
        if let Some(worker) = second_worker {
            let response = serve(&mut b, innermost.buffer());
            assert!(b.context.worker_finished(worker));
            let slot = a.context.deliver(response).unwrap();
            assert_eq!(a.context.finish_call(slot).unwrap().data(), &1u32.to_le_bytes());

            let response = serve(&mut a, inner.buffer());
            assert!(a.context.worker_finished(inner_worker));
            let slot = b.context.deliver(response).unwrap();
            assert_eq!(b.context.finish_call(slot).unwrap().data(), &1u32.to_le_bytes());

            let response = serve(&mut b, outer.buffer());
            assert!(b.context.worker_finished(outer_worker));
            let slot = a.context.deliver(response).unwrap();
            assert_eq!(a.context.finish_call(slot).unwrap().data(), &2u32.to_le_bytes());
            assert_eq!(a.context.port().calls_in_flight(), 0);
            assert_eq!(b.context.port().calls_in_flight(), 0);
        }
    }
}

#[test]
fn unreadable_arguments_are_a_violation() {
    let ((mut a, _), (mut b, hello_b)) = run();
    let ping = hey(&mut b, &mut a, &hello_b);
    let request = ping.call(&mut b.context, 0, &[1, 2, 3]).unwrap();
    assert!(matches!(a.context.handle_request(request.buffer()), Err(ProtocolViolation::Codec)));
    assert!(matches!(
        a.context.port().dispatch(ping.id, 0, &[1]),
        Err(ProtocolViolation::Codec)
    ));
    assert_eq!(a.context.port().exported(), 2);
    assert_eq!(a.pings.load(Ordering::SeqCst), 0);
}
