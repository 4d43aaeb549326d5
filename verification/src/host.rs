//! The messages by which a host steers a module, and what a module makes of
//! them.
//!
//! A host sends each request as a text that names an operation, followed,
//! for some operations, by one message of arguments. The module answers
//! every request it has carried out. Receiving and sending are left to the
//! caller; this module reads what was received and keeps the books.

use crate::cbor::{cbor_bytes_pair, cbor_bytes_single, cbor_text, Cbor};
use crate::service::HandleInstance;
use vstd::prelude::*;

verus! {

/// Whether `text` reads as `literal`.
pub(crate) fn reads_as(text: &str, literal: &str) -> (same: bool)
    ensures
        same == (text@ == literal@),
{
    text.to_owned() == literal.to_owned()
}

/// What the host asks of a module.
pub enum CoreMessage {
    /// Create a port; the two arguments describe the transport to build.
    CreatePort(Vec<u8>, Vec<u8>),
    /// Shut down.
    Terminate,
    /// Run the debug hook of the module on the argument.
    Debug(Vec<u8>),
}

/// Why a message of the host could not be read.
#[derive(PartialEq, Eq, Structural, Debug, Clone, Copy)]
pub enum HostError {
    /// The message is not the CBOR value that was expected at this point.
    Undecodable,
    /// The text names no operation.
    UnexpectedMessage,
    /// A port is to be linked to a module that already has one.
    AlreadyLinked,
    /// A port is named that was never linked.
    NotLinked,
    /// The transport asked for is of no known kind.
    InvalidPortCreation,
    /// The host asked for what this module cannot do.
    Unsupported,
    /// Every port id has been given out.
    TooManyPorts,
}

/// What the reader of core messages waits for.
#[derive(PartialEq, Eq, Structural, Debug, Clone, Copy)]
pub enum CoreExpect {
    /// The text that names the operation.
    Operation,
    /// The two arguments of `create_port`.
    CreatePortArguments,
    /// The argument of `debug`.
    DebugArgument,
}

/// What the text of an operation asks of the reader: the next thing to
/// await and, where the operation takes no argument, the request.
pub open spec fn spec_core_operation(text: Seq<char>) -> Result<
    (CoreExpect, Option<CoreMessageView>),
    HostError,
> {
    if text == "create_port"@ {
        Ok((CoreExpect::CreatePortArguments, None))
    } else if text == "terminate"@ {
        Ok((CoreExpect::Operation, Some(CoreMessageView::Terminate)))
    } else if text == "debug"@ {
        Ok((CoreExpect::DebugArgument, None))
    } else {
        Err(HostError::UnexpectedMessage)
    }
}

/// What reading `message` gives while `expect` is awaited: the next thing to
/// await and, where a request is complete, the request.
pub open spec fn spec_core_read(expect: CoreExpect, message: Seq<u8>) -> Result<
    (CoreExpect, Option<CoreMessageView>),
    HostError,
> {
    match expect {
        CoreExpect::Operation => match cbor_text(message) {
            None => Err(HostError::Undecodable),
            Some(text) => spec_core_operation(text),
        },
        CoreExpect::CreatePortArguments => match cbor_bytes_pair(message) {
            None => Err(HostError::Undecodable),
            Some(pair) => Ok(
                (CoreExpect::Operation, Some(CoreMessageView::CreatePort(pair.0, pair.1))),
            ),
        },
        CoreExpect::DebugArgument => match cbor_bytes_single(message) {
            None => Err(HostError::Undecodable),
            Some(argument) => Ok((CoreExpect::Operation, Some(CoreMessageView::Debug(argument)))),
        },
    }
}

/// A core message, as plain values.
pub enum CoreMessageView {
    CreatePort(Seq<u8>, Seq<u8>),
    Terminate,
    Debug(Seq<u8>),
}

impl View for CoreMessage {
    type V = CoreMessageView;

    open spec fn view(&self) -> CoreMessageView {
        match self {
            CoreMessage::CreatePort(a, b) => CoreMessageView::CreatePort(a@, b@),
            CoreMessage::Terminate => CoreMessageView::Terminate,
            CoreMessage::Debug(a) => CoreMessageView::Debug(a@),
        }
    }
}

/// What a reader returned, as plain values.
pub open spec fn spec_read_view(read: Option<CoreMessage>) -> Option<CoreMessageView> {
    match read {
        None => None,
        Some(message) => Some(message@),
    }
}

/// Each of the three names asks for what it stands for.
pub proof fn law_core_operation_names()
    ensures
        spec_core_operation("create_port"@) == Ok::<(CoreExpect, Option<CoreMessageView>), HostError>(
            (CoreExpect::CreatePortArguments, None),
        ),
        spec_core_operation("terminate"@) == Ok::<(CoreExpect, Option<CoreMessageView>), HostError>(
            (CoreExpect::Operation, Some(CoreMessageView::Terminate)),
        ),
        spec_core_operation("debug"@) == Ok::<(CoreExpect, Option<CoreMessageView>), HostError>(
            (CoreExpect::DebugArgument, None),
        ),
{
    reveal_strlit("create_port");
    reveal_strlit("terminate");
    reveal_strlit("debug");
    assert("create_port"@.len() == 11);
    assert("terminate"@.len() == 9);
    assert("debug"@.len() == 5);
}

/// Decides what the operation called `text` asks of the reader of core
/// messages: `create_port` and `debug` are followed by their arguments,
/// `terminate` is a request by itself, and any other text names none.
pub fn core_operation_named(text: &str) -> (result: Result<
    (CoreExpect, Option<CoreMessage>),
    HostError,
>)
    ensures
        match spec_core_operation(text@) {
            Err(e) => result == Err::<(CoreExpect, Option<CoreMessage>), _>(e),
            Ok((expect, read)) => {
                &&& result matches Ok(step)
                &&& step.0 == expect
                &&& spec_read_view(step.1) == read
            },
        },
{
    if reads_as(text, "create_port") {
        Ok((CoreExpect::CreatePortArguments, None))
    } else if reads_as(text, "terminate") {
        Ok((CoreExpect::Operation, Some(CoreMessage::Terminate)))
    } else if reads_as(text, "debug") {
        Ok((CoreExpect::DebugArgument, None))
    } else {
        Err(HostError::UnexpectedMessage)
    }
}

/// The reader of core messages: it takes the messages of the host one by
/// one and puts the requests together.
pub struct Core {
    expect: CoreExpect,
}

impl Core {
    /// What the reader waits for.
    pub closed spec fn spec_expect(&self) -> CoreExpect {
        self.expect
    }

    /// A reader that waits for an operation.
    pub fn new() -> (core: Self)
        ensures
            core.spec_expect() == CoreExpect::Operation,
    {
        Core { expect: CoreExpect::Operation }
    }

    /// What the reader waits for.
    pub fn expect(&self) -> (expect: CoreExpect)
        ensures
            expect == self.spec_expect(),
    {
        self.expect
    }

    /// Reads the next message of the host. A request that is complete is
    /// returned; one that needs arguments is returned once they have come.
    /// A message that cannot be read, or that names no operation, leaves the
    /// reader as it was; the error is fatal, and the module is to give up.
    pub fn get_message(&mut self, message: &[u8]) -> (result: Result<Option<CoreMessage>, HostError>)
        ensures
            match spec_core_read(old(self).spec_expect(), message@) {
                Err(e) => result == Err::<Option<CoreMessage>, _>(e) && final(self).spec_expect()
                    == old(self).spec_expect(),
                Ok((expect, read)) => {
                    &&& result matches Ok(r)
                    &&& spec_read_view(r) == read
                    &&& final(self).spec_expect() == expect
                },
            },
    {
        match self.expect {
            CoreExpect::Operation => {
                let text = match Cbor::text_from_slice(message) {
                    Ok(text) => text,
                    Err(_) => {
                        return Err(HostError::Undecodable);
                    },
                };
                match core_operation_named(text.as_str()) {
                    Err(e) => Err(e),
                    Ok(step) => {
                        self.expect = step.0;
                        Ok(step.1)
                    },
                }
            },
            CoreExpect::CreatePortArguments => match Cbor::bytes_pair_from_slice(message) {
                Err(_) => Err(HostError::Undecodable),
                Ok(pair) => {
                    self.expect = CoreExpect::Operation;
                    Ok(Some(CoreMessage::CreatePort(pair.0, pair.1)))
                },
            },
            CoreExpect::DebugArgument => match Cbor::bytes_single_from_slice(message) {
                Err(_) => Err(HostError::Undecodable),
                Ok(argument) => {
                    self.expect = CoreExpect::Operation;
                    Ok(Some(CoreMessage::Debug(argument)))
                },
            },
        }
    }
}

/// Identifier of a port within a module.
pub type PortId = u16;

/// What a module does for a request of the host.
pub enum ControlAction {
    /// Create a port with this id over the transport that the two arguments
    /// describe.
    CreatePort(PortId, Vec<u8>, Vec<u8>),
}

/// The control loop of a module: it hands each port it is asked for the
/// next port id, counted from one, and can do nothing else.
pub struct ControlLoop {
    port_id_count: PortId,
}

impl ControlLoop {
    /// The id that the next port receives.
    pub closed spec fn spec_next_port(&self) -> PortId {
        self.port_id_count
    }

    /// A control loop that has created no port. The first port receives
    /// id one.
    pub fn new() -> (control: Self)
        ensures
            control.spec_next_port() == 1,
    {
        ControlLoop { port_id_count: 1 }
    }

    /// Decides what to do for a request of the host. A port is created under
    /// the next port id, as long as there is one; a module run by this loop
    /// neither debugs nor terminates on request.
    pub fn control_loop(&mut self, message: CoreMessage) -> (result: Result<
        ControlAction,
        HostError,
    >)
        ensures
            match message {
                CoreMessage::CreatePort(a, b) => if old(self).spec_next_port() < PortId::MAX {
                    &&& result matches Ok(ControlAction::CreatePort(id, x, y))
                    &&& id == old(self).spec_next_port()
                    &&& x == a
                    &&& y == b
                    &&& final(self).spec_next_port() == old(self).spec_next_port() + 1
                } else {
                    result matches Err(e) && e == HostError::TooManyPorts && final(self).spec_next_port() == old(self).spec_next_port()
                },
                _ => result matches Err(e) && e == HostError::Unsupported && final(self).spec_next_port() == old(self).spec_next_port(),
            },
    {
        match message {
            CoreMessage::CreatePort(a, b) => {
                if self.port_id_count == PortId::MAX {
                    return Err(HostError::TooManyPorts);
                }
                let id = self.port_id_count;
                self.port_id_count = id + 1;
                Ok(ControlAction::CreatePort(id, a, b))
            },
            CoreMessage::Debug(_) => Err(HostError::Unsupported),
            CoreMessage::Terminate => Err(HostError::Unsupported),
        }
    }
}

/// Whether `entry` holds a service that `make` may have made for the
/// constructor call of `method` with `arg`.
pub open spec fn spec_made<S, F: Fn(&str, &[u8]) -> S>(
    make: F,
    method: &str,
    arg: &[u8],
    entry: Option<S>,
) -> bool {
    match entry {
        Some(service) => call_ensures(make, (method, arg), service),
        None => false,
    }
}

/// The services that a module has made for export, each to be exported once.
pub struct ExportingServicePool<S> {
    pool: Vec<Option<S>>,
}

impl<S> View for ExportingServicePool<S> {
    type V = Seq<Option<S>>;

    closed spec fn view(&self) -> Seq<Option<S>> {
        self.pool@
    }
}

impl<S> ExportingServicePool<S> {
    /// Makes one service for each constructor call in `ctors`, in order,
    /// with the constructor `make` of the module, which is given the name of
    /// the method and its argument.
    pub fn new<F: Fn(&str, &[u8]) -> S>(ctors: &[(&str, &[u8])], make: F) -> (pool: Self)
        requires
            forall|i: int|
                0 <= i < ctors@.len() ==> call_requires(make, (#[trigger] ctors@[i].0, ctors@[i].1)),
        ensures
            pool@.len() == ctors@.len(),
            forall|i: int|
                0 <= i < ctors@.len() ==> spec_made(
                    make,
                    ctors@[i].0,
                    ctors@[i].1,
                    #[trigger] pool@[i],
                ),
    {
        let mut pool: Vec<Option<S>> = Vec::new();
        let mut i: usize = 0;
        while i < ctors.len()
            invariant
                i <= ctors@.len(),
                pool@.len() == i,
                forall|k: int|
                    0 <= k < ctors@.len() ==> call_requires(
                        make,
                        (#[trigger] ctors@[k].0, ctors@[k].1),
                    ),
                forall|k: int|
                    0 <= k < i ==> spec_made(make, ctors@[k].0, ctors@[k].1, #[trigger] pool@[k]),
            decreases ctors@.len() - i,
        {
            let ctor = &ctors[i];
            let service = make(ctor.0, ctor.1);
            pool.push(Some(service));
            i = i + 1;
        }
        ExportingServicePool { pool }
    }

    /// Whether the service at `index` is still in the pool.
    pub fn holds(&self, index: usize) -> (held: bool)
        ensures
            held == (index < self@.len() && self@[index as int] is Some),
    {
        index < self.pool.len() && self.pool[index].is_some()
    }

    /// Takes the service at `index` out of the pool.
    pub fn export(&mut self, index: usize) -> (service: S)
        requires
            index < old(self)@.len(),
            old(self)@[index as int] is Some,
        ensures
            Some(service) == old(self)@[index as int],
            final(self)@ == old(self)@.update(index as int, None),
    {
        let mut taken: Option<S> = None;
        std::mem::swap(&mut self.pool[index], &mut taken);
        taken.unwrap()
    }
}

/// Whether the step announced as `text` is the step `name` that is due.
pub open spec fn spec_operation_is(text: Seq<char>, name: Seq<char>) -> Result<(), HostError> {
    if text == name {
        Ok(())
    } else {
        Err(HostError::UnexpectedMessage)
    }
}

/// Checks that the step announced as `text` is the step `name` that is due.
pub fn operation_is(text: &str, name: &str) -> (result: Result<(), HostError>)
    ensures
        result == spec_operation_is(text@, name@),
{
    if reads_as(text, name) {
        Ok(())
    } else {
        Err(HostError::UnexpectedMessage)
    }
}

/// Checks that `message` is the text `name`, as the steps of setting up a
/// port are announced.
pub fn expect_operation(message: &[u8], name: &str) -> (result: Result<(), HostError>)
    ensures
        result == (match cbor_text(message@) {
            None => Err::<(), HostError>(HostError::Undecodable),
            Some(text) => spec_operation_is(text, name@),
        }),
{
    match Cbor::text_from_slice(message) {
        Err(_) => Err(HostError::Undecodable),
        Ok(text) => operation_is(text.as_str(), name),
    }
}

/// Pairs each name to import with the handle sent for it. There must be as
/// many handles as names.
pub fn pair_imports(import: Vec<String>, handles: Vec<HandleInstance>) -> (result: Result<
    Vec<(String, HandleInstance)>,
    HostError,
>)
    ensures
        result is Ok <==> import@.len() == handles@.len(),
        result matches Ok(pairs) ==> {
            &&& pairs@.len() == import@.len()
            &&& forall|i: int|
                0 <= i < pairs@.len() ==> (#[trigger] pairs@[i]) == (import@[i], handles@[i])
        },
        result matches Err(e) ==> e == HostError::UnexpectedMessage,
{
    if import.len() != handles.len() {
        return Err(HostError::UnexpectedMessage);
    }
    let mut pairs: Vec<(String, HandleInstance)> = Vec::new();
    let mut i: usize = 0;
    while i < import.len()
        invariant
            i <= import@.len(),
            import@.len() == handles@.len(),
            pairs@.len() == i,
            forall|k: int| 0 <= k < i ==> (#[trigger] pairs@[k]) == (import@[k], handles@[k]),
        decreases import@.len() - i,
    {
        pairs.push((import[i].clone(), handles[i]));
        i = i + 1;
    }
    Ok(pairs)
}

/// Whether every place that `export` lists holds a service in `pool`, and
/// none is listed twice.
pub open spec fn spec_exportable<S>(pool: Seq<Option<S>>, export: Seq<usize>) -> bool {
    &&& forall|i: int|
        0 <= i < export.len() ==> (#[trigger] export[i]) < pool.len() && pool[export[i] as int]
            is Some
    &&& forall|i: int, j: int|
        0 <= i < j < export.len() ==> (#[trigger] export[i]) != (#[trigger] export[j])
}

/// Takes the services at the places `export` out of the pool, in that
/// order. It succeeds where every place listed holds a service and none is
/// listed twice. Otherwise it fails at the first place that holds none, be
/// it out of range, made empty before or listed before; what was taken
/// until then stays taken.
pub fn export_all<S>(pool: &mut ExportingServicePool<S>, export: &Vec<usize>) -> (result: Result<
    Vec<S>,
    HostError,
>)
    ensures
        final(pool)@.len() == old(pool)@.len(),
        result is Ok <==> spec_exportable(old(pool)@, export@),
        result matches Ok(services) ==> {
            &&& services@.len() == export@.len()
            &&& forall|i: int|
                0 <= i < export@.len() ==> old(pool)@[(#[trigger] export@[i]) as int] == Some(
                    services@[i],
                ) && final(pool)@[export@[i] as int] is None
            &&& forall|p: int|
                0 <= p < old(pool)@.len() && (forall|k: int|
                    0 <= k < export@.len() ==> export@[k] != p) ==> (#[trigger] final(pool)@[p])
                    == old(pool)@[p]
        },
        result matches Err(e) ==> e == HostError::Unsupported,
{
    let mut services: Vec<S> = Vec::new();
    let mut i: usize = 0;
    while i < export.len()
        invariant
            i <= export@.len(),
            pool@.len() == old(pool)@.len(),
            services@.len() == i,
            forall|k: int|
                0 <= k < i ==> (#[trigger] export@[k]) < old(pool)@.len() && old(
                    pool,
                )@[export@[k] as int] == Some(services@[k]) && pool@[export@[k] as int] is None,
            forall|a: int, b: int|
                0 <= a < b < i ==> (#[trigger] export@[a]) != (#[trigger] export@[b]),
            forall|p: int|
                0 <= p < pool@.len() && (forall|k: int| 0 <= k < i ==> export@[k] != p) ==> (
                #[trigger] pool@[p]) == old(pool)@[p],
        decreases export@.len() - i,
    {
        let index = export[i];
        if !pool.holds(index) {
            proof {
                if spec_exportable(old(pool)@, export@) {
                    assert(export@[i as int] < old(pool)@.len());
                    assert(old(pool)@[index as int] is Some);
                    assert forall|k: int| 0 <= k < i implies export@[k] != index as int by {
                        assert(export@[k] != export@[i as int]);
                    }
                    assert(pool@[index as int] == old(pool)@[index as int]);
                }
            }
            return Err(HostError::Unsupported);
        }
        let ghost before = pool@;
        proof {
            assert forall|k: int| 0 <= k < i implies export@[k] != index by {
                assert(pool@[export@[k] as int] is None);
            }
            assert(pool@[index as int] == old(pool)@[index as int]);
        }
        let service = pool.export(index);
        services.push(service);
        proof {
            assert forall|p: int|
                0 <= p < pool@.len() && (forall|k: int| 0 <= k < i + 1 ==> export@[k] != p) implies (
            #[trigger] pool@[p]) == old(pool)@[p] by {
                assert(export@[i as int] != p);
                assert(pool@[p] == before[p]);
                assert(forall|k: int| 0 <= k < i ==> export@[k] != p);
            }
        }
        i = i + 1;
    }
    Ok(services)
}

} // verus!
