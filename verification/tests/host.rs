use remote_trait_object::cbor::Cbor;
use remote_trait_object::codegen::{
    default_serde_path, service, service_adv, MacroArgs, MacroError, MacroInput, MethodDescription,
    Receiver, TraitDescription,
};
use remote_trait_object::host::{
    core_operation_named, expect_operation, export_all, operation_is, pair_imports, ControlAction,
    ControlLoop, Core, CoreExpect, CoreMessage, ExportingServicePool, HostError,
};
use remote_trait_object::module::{
    create_port, done_report, export_targets, kind_named, module_name, operation_named,
    read_operation, ControlRequest, ControlStep, HandleExchange, IpcKind, Operation, PortTable,
};
use remote_trait_object::service::HandleInstance;

fn cbor<T: serde::Serialize>(value: &T) -> Vec<u8> {
    serde_cbor::to_vec(value).unwrap()
}

#[test]
fn cbor_texts() {
    assert_eq!(Cbor::text_from_slice(&[0x66, 0x66, 0x6f, 0x6f, 0x62, 0x61, 0x72]), Ok("foobar".to_owned()));
    assert_eq!(Cbor::text_to_vec("foobar"), Ok(vec![0x66, 0x66, 0x6f, 0x6f, 0x62, 0x61, 0x72]));
    assert_eq!(Cbor::text_to_vec(""), Ok(vec![0x60]));
    assert_eq!(Cbor::text_from_slice(&[0x60]), Ok(String::new()));
    assert_eq!(Cbor::text_from_slice(&[]), Err(()));
    assert_eq!(Cbor::text_from_slice(&[0x01]), Err(()));
    assert_eq!(Cbor::text_from_slice(&[0x61, 0x61, 0x00]), Err(()));
    let long = "x".repeat(300);
    assert_eq!(Cbor::text_from_slice(&Cbor::text_to_vec(&long).unwrap()), Ok(long));
}

#[test]
fn cbor_numbers_and_bytes() {
    assert_eq!(Cbor::i32_from_slice(&[0x0a]), Ok(10));
    assert_eq!(Cbor::i32_from_slice(&[0x20]), Ok(-1));
    assert_eq!(Cbor::i32_from_slice(&cbor(&i32::MIN)), Ok(i32::MIN));
    assert_eq!(Cbor::i32_from_slice(&cbor(&(i32::MAX as i64 + 1))), Err(()));
    assert_eq!(Cbor::i32_from_slice(&cbor(&"10")), Err(()));
    assert_eq!(
        Cbor::bytes_pair_from_slice(&cbor(&(vec![1u8, 2], vec![3u8]))),
        Ok((vec![1, 2], vec![3]))
    );
    assert_eq!(Cbor::bytes_pair_from_slice(&cbor(&(vec![1u8, 2],))), Err(()));
    assert_eq!(Cbor::bytes_single_from_slice(&cbor(&(vec![7u8, 8],))), Ok(vec![7, 8]));
    assert_eq!(Cbor::bytes_single_from_slice(&cbor(&vec![7u8, 8])), Err(()));
}

#[test]
fn core_messages_are_put_together() {
    let mut core = Core::new();
    assert_eq!(core.expect(), CoreExpect::Operation);
    assert!(matches!(core.get_message(&cbor(&"create_port")), Ok(None)));
    assert_eq!(core.expect(), CoreExpect::CreatePortArguments);
    assert!(matches!(core.get_message(&cbor(&"terminate")), Err(HostError::Undecodable)));
    assert_eq!(core.expect(), CoreExpect::CreatePortArguments);
    assert!(matches!(
        core.get_message(&cbor(&(vec![1u8], vec![2u8, 3]))),
        Ok(Some(CoreMessage::CreatePort(a, b))) if a == vec![1] && b == vec![2, 3]
    ));
    assert_eq!(core.expect(), CoreExpect::Operation);
    assert!(matches!(core.get_message(&cbor(&"terminate")), Ok(Some(CoreMessage::Terminate))));
    assert!(matches!(core.get_message(&cbor(&"debug")), Ok(None)));
    assert_eq!(core.expect(), CoreExpect::DebugArgument);
    assert!(matches!(
        core.get_message(&cbor(&(vec![9u8],))),
        Ok(Some(CoreMessage::Debug(a))) if a == vec![9]
    ));
    assert!(matches!(core.get_message(&cbor(&"dance")), Err(HostError::UnexpectedMessage)));
    assert!(matches!(core.get_message(&cbor(&7)), Err(HostError::Undecodable)));
    assert_eq!(core.expect(), CoreExpect::Operation);
}

#[test]
fn ports_are_numbered_as_they_are_created() {
    let mut control = ControlLoop::new();
    for expected in 1..4u16 {
        match control.control_loop(CoreMessage::CreatePort(vec![1], vec![2])) {
            Ok(ControlAction::CreatePort(id, a, b)) => {
                assert_eq!(id, expected);
                assert_eq!((a, b), (vec![1], vec![2]));
            }
            Err(e) => panic!("{:?}", e),
        }
    }
    assert!(matches!(control.control_loop(CoreMessage::Terminate), Err(HostError::Unsupported)));
    assert!(matches!(control.control_loop(CoreMessage::Debug(vec![])), Err(HostError::Unsupported)));
    assert!(matches!(
        control.control_loop(CoreMessage::CreatePort(vec![], vec![])),
        Ok(ControlAction::CreatePort(4, _, _))
    ));
}

#[test]
fn port_ids_run_out() {
    let mut control = ControlLoop::new();
    for _ in 1..u16::MAX {
        assert!(control.control_loop(CoreMessage::CreatePort(vec![], vec![])).is_ok());
    }
    assert!(matches!(
        control.control_loop(CoreMessage::CreatePort(vec![], vec![])),
        Err(HostError::TooManyPorts)
    ));
}

/// What a module of these tests can make: a text under the name `text`.
fn make(method: &str, arg: &[u8]) -> Option<String> {
    match method {
        "text" => serde_cbor::from_slice(arg).ok(),
        _ => None,
    }
}

#[test]
fn pool_holds_what_the_module_made() {
    let hello = cbor(&"hello");
    let ctors: Vec<(&str, &[u8])> = vec![("text", &hello), ("text", &[]), ("number", &hello)];
    let mut pool = ExportingServicePool::new(&ctors, make);
    assert!(pool.holds(0) && pool.holds(1) && pool.holds(2));
    assert!(!pool.holds(3));
    assert_eq!(pool.export(0), Some("hello".to_owned()));
    assert_eq!(pool.export(2), None);
    assert!(!pool.holds(0));
    assert!(pool.holds(1));
    let empty: ExportingServicePool<u8> = ExportingServicePool::new(&[], |_, _| 0);
    assert!(!empty.holds(0));
}

#[test]
fn pool_exports_each_service_once() {
    let ctors: Vec<(&str, &[u8])> = vec![("a", &[]), ("b", &[]), ("c", &[])];
    let mut pool = ExportingServicePool::new(&ctors, |method: &str, _: &[u8]| method.to_owned());
    assert!(pool.holds(0));
    assert!(pool.holds(1));
    assert!(!pool.holds(3));
    assert_eq!(pool.export(1), "b");
    assert!(!pool.holds(1));
    assert!(pool.holds(0));
    assert_eq!(pool.export(0), "a");
    assert!(!pool.holds(0));
    assert!(pool.holds(2));
}

#[test]
fn port_setup() {
    assert_eq!(expect_operation(&cbor(&"export"), "export"), Ok(()));
    assert_eq!(expect_operation(&cbor(&"import"), "export"), Err(HostError::UnexpectedMessage));
    assert_eq!(expect_operation(&[0xff], "export"), Err(HostError::Undecodable));
    let handles = vec![HandleInstance::default(), HandleInstance::default()];
    assert_eq!(
        pair_imports(vec!["a".to_owned(), "b".to_owned()], handles.clone()),
        Ok(vec![("a".to_owned(), handles[0]), ("b".to_owned(), handles[1])])
    );
    assert_eq!(pair_imports(vec!["a".to_owned()], handles), Err(HostError::UnexpectedMessage));
    assert_eq!(pair_imports(vec![], vec![]), Ok(vec![]));

    let ctors: Vec<(&str, &[u8])> = vec![("a", &[]), ("b", &[]), ("c", &[])];
    let mut pool = ExportingServicePool::new(&ctors, |method: &str, _: &[u8]| method.to_owned());
    assert_eq!(export_all(&mut pool, &vec![2, 0]), Ok(vec!["c".to_owned(), "a".to_owned()]));
    assert!(pool.holds(1));
    assert!(!pool.holds(0));
    assert!(!pool.holds(2));
    // Listed twice: the first is taken, the second finds nothing.
    assert_eq!(export_all(&mut pool, &vec![1, 1]), Err(HostError::Unsupported));
    assert!(!pool.holds(1));
    assert_eq!(export_all(&mut pool, &vec![5]), Err(HostError::Unsupported));
    assert_eq!(export_all(&mut pool, &vec![0]), Err(HostError::Unsupported));
    assert_eq!(export_all(&mut pool, &vec![]), Ok(vec![]));
}

#[test]
fn operations_are_read_by_name() {
    for (name, operation) in [
        ("link", Operation::Link),
        ("unlink", Operation::Unlink),
        ("terminate", Operation::Terminate),
        ("handle_export", Operation::HandleExport),
        ("handle_import", Operation::HandleImport),
        ("debug", Operation::Debug),
    ] {
        assert_eq!(read_operation(&cbor(&name)), Ok(operation));
    }
    assert_eq!(read_operation(&cbor(&"Link")), Err(HostError::UnexpectedMessage));
    assert_eq!(read_operation(&cbor(&1)), Err(HostError::Undecodable));
    assert_eq!(done_report(), Ok(cbor(&"done".to_owned())));
    assert_eq!(create_port(&cbor(&"DomainSocket")), Ok(IpcKind::DomainSocket));
    assert_eq!(create_port(&cbor(&"Intra")), Ok(IpcKind::Intra));
    assert_eq!(create_port(&cbor(&"Pigeon")), Err(HostError::InvalidPortCreation));
    assert_eq!(create_port(&[]), Err(HostError::Undecodable));
}

fn link(module: &str, kind: &str) -> ControlRequest {
    ControlRequest::Link {
        module: module.to_owned(),
        ipc_type: cbor(&kind),
        ipc_config: vec![1, 2],
    }
}

fn exchange(exporter: &str) -> HandleExchange {
    HandleExchange {
        exporter: exporter.to_owned(),
        importer: "me".to_owned(),
        handles: vec![HandleInstance::default()],
        argument: vec![],
    }
}

#[test]
fn links_are_kept_in_the_port_table() {
    let mut ports = PortTable::new();
    assert!(matches!(
        ports.run_control_loop(link("Module1", "Intra")),
        Ok(ControlStep::Link { module, kind: IpcKind::Intra, ipc_config })
            if module == "Module1" && ipc_config == vec![1, 2]
    ));
    assert!(matches!(
        ports.run_control_loop(link("Module1", "Intra")),
        Err(HostError::AlreadyLinked)
    ));
    assert!(matches!(
        ports.run_control_loop(link("Module2", "Pigeon")),
        Err(HostError::InvalidPortCreation)
    ));
    assert!(!ports.contains(&"Module2".to_owned()));
    assert!(matches!(
        ports.run_control_loop(link("Module2", "DomainSocket")),
        Ok(ControlStep::Link { kind: IpcKind::DomainSocket, .. })
    ));
    assert_eq!(ports.len(), 2);
    assert!(matches!(
        ports.run_control_loop(ControlRequest::HandleImport(exchange("Module2"))),
        Ok(ControlStep::Import(x)) if x == exchange("Module2")
    ));
    assert!(matches!(
        ports.run_control_loop(ControlRequest::HandleImport(exchange("Module3"))),
        Err(HostError::NotLinked)
    ));
    assert!(matches!(
        ports.run_control_loop(ControlRequest::Unlink { module: "Module1".to_owned() }),
        Ok(ControlStep::Unlink { module }) if module == "Module1"
    ));
    assert!(matches!(
        ports.run_control_loop(ControlRequest::Unlink { module: "Module1".to_owned() }),
        Err(HostError::NotLinked)
    ));
    assert!(ports.contains(&"Module2".to_owned()));
    assert!(matches!(ports.run_control_loop(ControlRequest::HandleExport), Ok(ControlStep::Export)));
    assert!(matches!(
        ports.run_control_loop(ControlRequest::Debug(vec![3])),
        Ok(ControlStep::Debug(a)) if a == vec![3]
    ));
    assert!(matches!(ports.run_control_loop(ControlRequest::Terminate), Ok(ControlStep::Terminate)));
    assert!(matches!(ports.run_control_loop(link("Module1", "Intra")), Ok(_)));
    assert_eq!(ports.len(), 2);
}

#[test]
fn modules_export_to_all_others() {
    assert_eq!(module_name(0), "Module0");
    assert_eq!(module_name(12), "Module12");
    assert_eq!(
        export_targets(&"Module1".to_owned(), 4),
        vec!["Module0".to_owned(), "Module2".to_owned(), "Module3".to_owned()]
    );
    assert_eq!(export_targets(&"Schedule".to_owned(), 2), vec!["Module0".to_owned(), "Module1".to_owned()]);
    assert!(export_targets(&"Module0".to_owned(), 1).is_empty());
    assert!(export_targets(&"Module0".to_owned(), 0).is_empty());
}

fn sample_trait() -> TraitDescription {
    let method = |name: &str, receiver| MethodDescription {
        name: name.to_owned(),
        receiver,
    };
    TraitDescription {
        name: "Ping".to_owned(),
        methods: vec![
            method("ping", Receiver::Shared),
            method("ping_mut", Receiver::Exclusive),
            method("ping_barrier", Receiver::Shared),
        ],
    }
}

#[test]
fn method_ids_follow_the_source() {
    let ping = sample_trait();
    assert_eq!(ping.method_id(&"ping".to_owned()), Some(0));
    assert_eq!(ping.method_id(&"ping_mut".to_owned()), Some(1));
    assert_eq!(ping.method_id(&"ping_barrier".to_owned()), Some(2));
    assert_eq!(ping.method_id(&"pong".to_owned()), None);
    assert!(!ping.supports_arc());
    let mut shared_only = sample_trait();
    shared_only.methods.remove(1);
    assert!(shared_only.supports_arc());
    assert_eq!(shared_only.method_id(&"ping_barrier".to_owned()), Some(1));
}

#[test]
fn generator_arguments() {
    assert_eq!(default_serde_path(), "serde_cbor");
    assert!(matches!(MacroArgs::parse(vec![]), Err(MacroError::NeedsOneArgument)));
    assert!(matches!(
        MacroArgs::parse(vec!["a".to_owned(), "b".to_owned()]),
        Err(MacroError::NeedsOneArgument)
    ));
    assert_eq!(MacroArgs::parse(vec!["serde_json".to_owned()]).ok().unwrap().serde_path, "serde_json");
    assert!(matches!(
        service(vec!["serde_cbor".to_owned()], MacroInput::Trait(sample_trait())),
        Err(MacroError::TakesNoArgument)
    ));
    assert!(matches!(service(vec![], MacroInput::Other), Err(MacroError::NotATrait)));
    let plan = service(vec![], MacroInput::Trait(sample_trait())).ok().unwrap();
    assert_eq!(plan.serde_path, "serde_cbor");
    assert_eq!(plan.source_trait.name, "Ping");
    assert!(matches!(service_adv(vec![], MacroInput::Trait(sample_trait())), Err(MacroError::NeedsOneArgument)));
    assert!(matches!(
        service_adv(vec!["x".to_owned()], MacroInput::Other),
        Err(MacroError::NotATrait)
    ));
    assert_eq!(
        service_adv(vec!["x::y".to_owned()], MacroInput::Trait(sample_trait())).ok().unwrap().serde_path,
        "x::y"
    );
}

#[test]
fn cbor_writers_always_succeed() {
    for text in ["", "done", "Grüße, 世界", &"y".repeat(70_000)] {
        let written = Cbor::text_to_vec(text).unwrap();
        assert_eq!(written, cbor(&text));
        assert_eq!(Cbor::text_from_slice(&written), Ok(text.to_owned()));
        for flag in [true, false] {
            let tuple = Cbor::flag_and_texts_to_vec(flag, text, "b").unwrap();
            assert_eq!(tuple, cbor(&(flag, text, "b")));
            assert_eq!(
                Cbor::flag_and_texts_from_slice(&tuple),
                Ok((flag, text.to_owned(), "b".to_owned()))
            );
        }
    }
    assert_eq!(done_report(), Ok(vec![0x64, b'd', b'o', b'n', b'e']));
}

#[test]
fn texts_name_operations() {
    assert_eq!(operation_named("link"), Some(Operation::Link));
    assert_eq!(operation_named("unlink"), Some(Operation::Unlink));
    assert_eq!(operation_named("terminate"), Some(Operation::Terminate));
    assert_eq!(operation_named("handle_export"), Some(Operation::HandleExport));
    assert_eq!(operation_named("handle_import"), Some(Operation::HandleImport));
    assert_eq!(operation_named("debug"), Some(Operation::Debug));
    for other in ["", "Link", "link ", "linked", "create_port", "done"] {
        assert_eq!(operation_named(other), None);
    }
    assert_eq!(kind_named("DomainSocket"), Ok(IpcKind::DomainSocket));
    assert_eq!(kind_named("Intra"), Ok(IpcKind::Intra));
    for other in ["", "intra", "Domain Socket", "Pigeon"] {
        assert_eq!(kind_named(other), Err(HostError::InvalidPortCreation));
    }
    assert_eq!(operation_is("export", "export"), Ok(()));
    assert_eq!(operation_is("import", "export"), Err(HostError::UnexpectedMessage));
    assert_eq!(operation_is("", "export"), Err(HostError::UnexpectedMessage));
    assert_eq!(operation_is("", ""), Ok(()));
}

#[test]
fn texts_name_core_operations() {
    assert!(matches!(core_operation_named("create_port"), Ok((CoreExpect::CreatePortArguments, None))));
    assert!(matches!(
        core_operation_named("terminate"),
        Ok((CoreExpect::Operation, Some(CoreMessage::Terminate)))
    ));
    assert!(matches!(core_operation_named("debug"), Ok((CoreExpect::DebugArgument, None))));
    for other in ["", "link", "Terminate", "create port"] {
        assert!(matches!(core_operation_named(other), Err(HostError::UnexpectedMessage)));
    }
}
