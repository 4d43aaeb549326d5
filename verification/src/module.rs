//! The control loop of a module that is linked to other modules by ports.
//!
//! The host names an operation, sends its arguments, and waits for the
//! module to report that it is done. This module reads the operation, keeps
//! track of which modules a port is linked to, and decides what is to be
//! done; building transports and ports is left to the caller.

use crate::cbor::{cbor_text, Cbor};
use crate::decimal::{decimal, spec_decimal};
use crate::host::{reads_as, HostError};
use crate::service::HandleInstance;
use vstd::prelude::*;
use vstd::string::StringExecFns;

verus! {

/// An operation that the host may name.
#[derive(PartialEq, Eq, Structural, Debug, Clone, Copy)]
pub enum Operation {
    /// Link a port to another module. Arguments: the id of that module, the
    /// kind of the transport and its configuration.
    Link,
    /// Drop the port to another module. Argument: the id of that module.
    Unlink,
    /// Leave the loop and shut down. No argument, and no report.
    Terminate,
    /// Export the preset handles of the module and report them.
    HandleExport,
    /// Import preset handles. Argument: the exchange to import.
    HandleImport,
    /// Run the debug hook. Argument: its input.
    Debug,
}

/// The operation that a text names.
pub open spec fn spec_operation(text: Seq<char>) -> Option<Operation> {
    if text == "link"@ {
        Some(Operation::Link)
    } else if text == "unlink"@ {
        Some(Operation::Unlink)
    } else if text == "terminate"@ {
        Some(Operation::Terminate)
    } else if text == "handle_export"@ {
        Some(Operation::HandleExport)
    } else if text == "handle_import"@ {
        Some(Operation::HandleImport)
    } else if text == "debug"@ {
        Some(Operation::Debug)
    } else {
        None
    }
}

/// Each of the six names names its own operation.
pub proof fn law_operation_names()
    ensures
        spec_operation("link"@) == Some(Operation::Link),
        spec_operation("unlink"@) == Some(Operation::Unlink),
        spec_operation("terminate"@) == Some(Operation::Terminate),
        spec_operation("handle_export"@) == Some(Operation::HandleExport),
        spec_operation("handle_import"@) == Some(Operation::HandleImport),
        spec_operation("debug"@) == Some(Operation::Debug),
{
    reveal_strlit("link");
    reveal_strlit("unlink");
    reveal_strlit("terminate");
    reveal_strlit("handle_export");
    reveal_strlit("handle_import");
    reveal_strlit("debug");
    assert("link"@.len() == 4);
    assert("unlink"@.len() == 6);
    assert("terminate"@.len() == 9);
    assert("handle_export"@.len() == 13);
    assert("handle_import"@.len() == 13);
    assert("debug"@.len() == 5);
    assert("handle_export"@[7] == 'e');
    assert("handle_import"@[7] == 'i');
}

/// Tells which operation a text names, if it names one.
pub fn operation_named(text: &str) -> (operation: Option<Operation>)
    ensures
        operation == spec_operation(text@),
{
    if reads_as(text, "link") {
        Some(Operation::Link)
    } else if reads_as(text, "unlink") {
        Some(Operation::Unlink)
    } else if reads_as(text, "terminate") {
        Some(Operation::Terminate)
    } else if reads_as(text, "handle_export") {
        Some(Operation::HandleExport)
    } else if reads_as(text, "handle_import") {
        Some(Operation::HandleImport)
    } else if reads_as(text, "debug") {
        Some(Operation::Debug)
    } else {
        None
    }
}

/// What reading `message` as an operation gives.
pub open spec fn spec_read_operation(message: Seq<u8>) -> Result<Operation, HostError> {
    match cbor_text(message) {
        None => Err(HostError::Undecodable),
        Some(text) => match spec_operation(text) {
            None => Err(HostError::UnexpectedMessage),
            Some(operation) => Ok(operation),
        },
    }
}

/// Reads the message with which the host names an operation.
pub fn read_operation(message: &[u8]) -> (result: Result<Operation, HostError>)
    ensures
        result == spec_read_operation(message@),
{
    let text = match Cbor::text_from_slice(message) {
        Ok(text) => text,
        Err(_) => {
            return Err(HostError::Undecodable);
        },
    };
    match operation_named(text.as_str()) {
        Some(operation) => Ok(operation),
        None => Err(HostError::UnexpectedMessage),
    }
}

/// The report that a module sends once it has carried out an operation.
pub fn done_report() -> (result: Result<Vec<u8>, ()>)
    ensures
        result matches Ok(report) && report@ == crate::cbor::cbor_of_text("done"@),
{
    Cbor::text_to_vec("done")
}

/// A kind of transport that a port can be built on.
#[derive(PartialEq, Eq, Structural, Debug, Clone, Copy)]
pub enum IpcKind {
    /// A Unix domain socket between two processes.
    DomainSocket,
    /// A queue within one process.
    Intra,
}

/// The kind of transport that a text names.
pub open spec fn spec_kind(text: Seq<char>) -> Result<IpcKind, HostError> {
    if text == "DomainSocket"@ {
        Ok(IpcKind::DomainSocket)
    } else if text == "Intra"@ {
        Ok(IpcKind::Intra)
    } else {
        Err(HostError::InvalidPortCreation)
    }
}

/// Each of the two names names its own kind of transport.
pub proof fn law_kind_names()
    ensures
        spec_kind("DomainSocket"@) == Ok::<IpcKind, HostError>(IpcKind::DomainSocket),
        spec_kind("Intra"@) == Ok::<IpcKind, HostError>(IpcKind::Intra),
{
    reveal_strlit("DomainSocket");
    reveal_strlit("Intra");
    assert("DomainSocket"@.len() == 12);
    assert("Intra"@.len() == 5);
}

/// Tells which kind of transport a text names.
pub fn kind_named(text: &str) -> (result: Result<IpcKind, HostError>)
    ensures
        result == spec_kind(text@),
{
    if reads_as(text, "DomainSocket") {
        Ok(IpcKind::DomainSocket)
    } else if reads_as(text, "Intra") {
        Ok(IpcKind::Intra)
    } else {
        Err(HostError::InvalidPortCreation)
    }
}

/// The kind of transport that `ipc_type` asks for.
pub open spec fn spec_ipc_kind(ipc_type: Seq<u8>) -> Result<IpcKind, HostError> {
    match cbor_text(ipc_type) {
        None => Err(HostError::Undecodable),
        Some(text) => spec_kind(text),
    }
}

/// Decides on what kind of transport the port of a link is to be built.
pub fn create_port(ipc_type: &[u8]) -> (result: Result<IpcKind, HostError>)
    ensures
        result == spec_ipc_kind(ipc_type@),
{
    let text = match Cbor::text_from_slice(ipc_type) {
        Ok(text) => text,
        Err(_) => {
            return Err(HostError::Undecodable);
        },
    };
    kind_named(text.as_str())
}

/// Handles that one module exports for another to import.
#[derive(PartialEq, Debug)]
pub struct HandleExchange {
    /// Id of the exporter.
    pub exporter: String,
    /// Id of the importer.
    pub importer: String,
    /// The handles, which the importer turns into remote objects.
    pub handles: Vec<HandleInstance>,
    /// Opaque argument.
    pub argument: Vec<u8>,
}

/// A request of the host, with its arguments.
pub enum ControlRequest {
    Link { module: String, ipc_type: Vec<u8>, ipc_config: Vec<u8> },
    Unlink { module: String },
    Terminate,
    HandleExport,
    HandleImport(HandleExchange),
    Debug(Vec<u8>),
}

/// What the module is to do for a request.
pub enum ControlStep {
    /// Build a transport of this kind from the configuration, and a port on
    /// it, for the link to `module`.
    Link { module: String, kind: IpcKind, ipc_config: Vec<u8> },
    /// Drop the port to `module`.
    Unlink { module: String },
    /// Export the preset handles and report them.
    Export,
    /// Import the exchange through the port to its exporter.
    Import(HandleExchange),
    /// Run the debug hook and report its output.
    Debug(Vec<u8>),
    /// Mark every port as terminating, drop the module and its ports, and
    /// end the connection to the host.
    Terminate,
}

/// The ids of the modules that a port is linked to.
pub struct PortTable {
    linked: Vec<String>,
}

/// The texts of a list of strings.
pub open spec fn spec_texts(names: Seq<String>) -> Seq<Seq<char>> {
    names.map_values(|name: String| name@)
}

impl View for PortTable {
    type V = Seq<Seq<char>>;

    closed spec fn view(&self) -> Seq<Seq<char>> {
        spec_texts(self.linked@)
    }
}

impl PortTable {
    /// The invariant of a port table: no module is linked twice.
    pub closed spec fn wf(&self) -> bool {
        self@.no_duplicates()
    }

    /// A table without links.
    pub fn new() -> (table: Self)
        ensures
            table.wf(),
            table@ == Seq::<Seq<char>>::empty(),
    {
        let table = PortTable { linked: Vec::new() };
        assert(table@ =~= Seq::<Seq<char>>::empty());
        table
    }

    /// The number of links.
    pub fn len(&self) -> (n: usize)
        ensures
            n == self@.len(),
    {
        self.linked.len()
    }

    fn position(&self, module: &String) -> (found: Option<usize>)
        ensures
            found matches Some(i) ==> i < self@.len() && self@[i as int] == module@,
            found is None ==> !self@.contains(module@),
    {
        let mut i: usize = 0;
        while i < self.linked.len()
            invariant
                i <= self.linked@.len(),
                forall|k: int| 0 <= k < i ==> self@[k] != module@,
            decreases self.linked@.len() - i,
        {
            if self.linked[i] == *module {
                return Some(i);
            }
            i = i + 1;
        }
        None
    }

    /// Whether a port is linked to `module`.
    pub fn contains(&self, module: &String) -> (linked: bool)
        ensures
            linked == self@.contains(module@),
    {
        self.position(module).is_some()
    }

    /// Decides what is to be done for a request. A link to a module that is
    /// linked already, an unlink of or an import from a module that is not
    /// linked, and a link over an unknown kind of transport, are refused and
    /// change nothing.
    pub fn run_control_loop(&mut self, request: ControlRequest) -> (result: Result<
        ControlStep,
        HostError,
    >)
        requires
            old(self).wf(),
        ensures
            final(self).wf(),
            spec_stepped(old(self)@, request, result, final(self)@),
    {
        match request {
            ControlRequest::Link { module, ipc_type, ipc_config } => {
                if self.contains(&module) {
                    return Err(HostError::AlreadyLinked);
                }
                let kind = match create_port(ipc_type.as_slice()) {
                    Ok(kind) => kind,
                    Err(e) => {
                        return Err(e);
                    },
                };
                self.linked.push(module.clone());
                proof {
                    assert(self@ =~= old(self)@.push(module@));
                }
                Ok(ControlStep::Link { module, kind, ipc_config })
            },
            ControlRequest::Unlink { module } => match self.position(&module) {
                None => Err(HostError::NotLinked),
                Some(i) => {
                    self.linked.remove(i);
                    proof {
                        assert(self@ =~= old(self)@.remove(i as int));
                        old(self)@.remove_ensures(i as int);
                        assert forall|a: int, b: int|
                            0 <= a < self@.len() && 0 <= b < self@.len() && a != b implies self@[a]
                            != self@[b] by {
                            let x = if a < i {
                                a
                            } else {
                                a + 1
                            };
                            let y = if b < i {
                                b
                            } else {
                                b + 1
                            };
                            assert(self@[a] == old(self)@[x]);
                            assert(self@[b] == old(self)@[y]);
                        }
                    }
                    Ok(ControlStep::Unlink { module })
                },
            },
            ControlRequest::Terminate => Ok(ControlStep::Terminate),
            ControlRequest::HandleExport => Ok(ControlStep::Export),
            ControlRequest::HandleImport(exchange) => {
                if self.contains(&exchange.exporter) {
                    Ok(ControlStep::Import(exchange))
                } else {
                    Err(HostError::NotLinked)
                }
            },
            ControlRequest::Debug(args) => Ok(ControlStep::Debug(args)),
        }
    }
}

/// Whether `result` is what is decided for `request` while the modules in
/// `linked` are linked, with `after` the modules linked afterwards.
pub open spec fn spec_stepped(
    linked: Seq<Seq<char>>,
    request: ControlRequest,
    result: Result<ControlStep, HostError>,
    after: Seq<Seq<char>>,
) -> bool {
    match request {
        ControlRequest::Link { module, ipc_type, ipc_config } => if linked.contains(module@) {
            result matches Err(e) && e == HostError::AlreadyLinked && after == linked
        } else {
            match spec_ipc_kind(ipc_type@) {
                Err(fault) => result matches Err(e) && e == fault && after == linked,
                Ok(k) => {
                    &&& result matches Ok(ControlStep::Link { module: m, kind, ipc_config: c })
                    &&& m == module
                    &&& kind == k
                    &&& c == ipc_config
                    &&& after == linked.push(module@)
                },
            }
        },
        ControlRequest::Unlink { module } => if linked.contains(module@) {
            &&& result matches Ok(ControlStep::Unlink { module: m })
            &&& m == module
            &&& after == linked.remove(linked.index_of(module@))
            &&& !after.contains(module@)
        } else {
            result matches Err(e) && e == HostError::NotLinked && after == linked
        },
        ControlRequest::Terminate => result matches Ok(ControlStep::Terminate) && after == linked,
        ControlRequest::HandleExport => result matches Ok(ControlStep::Export) && after == linked,
        ControlRequest::HandleImport(exchange) => if linked.contains(exchange.exporter@) {
            result matches Ok(ControlStep::Import(x)) && x == exchange && after == linked
        } else {
            result matches Err(e) && e == HostError::NotLinked && after == linked
        },
        ControlRequest::Debug(args) => result matches Ok(ControlStep::Debug(a)) && a == args
            && after == linked,
    }
}

/// The id of the module with number `i`.
pub open spec fn spec_module_name(i: nat) -> Seq<char> {
    "Module"@ + spec_decimal(i)
}

/// The id of the module with number `i`: `Module0`, `Module1`, and so on.
pub fn module_name(i: usize) -> (name: String)
    ensures
        name@ == spec_module_name(i as nat),
{
    "Module".to_owned().concat(decimal(i as u64).as_str())
}

/// The modules, among those numbered below `number`, to which the module
/// `exporter` exports: all but itself, in ascending order.
pub fn export_targets(exporter: &String, number: usize) -> (targets: Vec<String>)
    ensures
        spec_texts(targets@) == Seq::new(number as nat, |i: int| spec_module_name(i as nat)).filter(
            |name: Seq<char>| name != exporter@,
        ),
{
    let mut targets: Vec<String> = Vec::new();
    let ghost all = Seq::new(number as nat, |i: int| spec_module_name(i as nat));
    let ghost keep = |name: Seq<char>| name != exporter@;
    let mut i: usize = 0;
    proof {
        assert(all.take(0) =~= Seq::<Seq<char>>::empty());
        assert(spec_texts(targets@) =~= Seq::<Seq<char>>::empty());
        reveal(Seq::filter);
    }
    while i < number
        invariant
            i <= number,
            all == Seq::new(number as nat, |i: int| spec_module_name(i as nat)),
            keep == |name: Seq<char>| name != exporter@,
            spec_texts(targets@) == all.take(i as int).filter(keep),
        decreases number - i,
    {
        let name = module_name(i);
        proof {
            assert(all.take(i + 1) =~= all.take(i as int).push(all[i as int]));
            assert(all.take(i + 1).drop_last() =~= all.take(i as int));
            reveal(Seq::filter);
        }
        if name != *exporter {
            proof {
                assert(spec_texts(targets@.push(name)) =~= spec_texts(targets@).push(name@));
            }
            targets.push(name);
        }
        i = i + 1;
    }
    proof {
        assert(all.take(number as int) =~= all);
    }
    targets
}

} // verus!
