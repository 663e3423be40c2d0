use dynamic_link::call::call_callable_point;
use dynamic_link::call::decode_call_request;
use dynamic_link::call::marshal_results;
use dynamic_link::call::CallFlow;
use dynamic_link::call::EngineCommand;
use dynamic_link::call::EngineEvent;
use dynamic_link::call::MAX_REGIONS_LENGTH_OUTPUT;
use dynamic_link::envelope::decode_binary_list;
use dynamic_link::errors::LinkError;
use dynamic_link::events::encode_attributes;
use dynamic_link::events::AttributeRecord;
use dynamic_link::events::EventRecord;
use dynamic_link::memory::write_params;
use dynamic_link::memory::CalleeMemory;

fn enc_bin(payload: &[u8]) -> Vec<u8> {
    let mut v = (payload.len() as u32).to_le_bytes().to_vec();
    v.extend_from_slice(payload);
    v
}

fn enc_list(items: &[Vec<u8>]) -> Vec<u8> {
    let mut v = (items.len() as u32).to_le_bytes().to_vec();
    for item in items {
        v.extend_from_slice(&enc_bin(item));
    }
    v
}

fn enc_str(s: &str) -> Vec<u8> {
    enc_bin(s.as_bytes())
}

struct Buffers {
    name: Vec<u8>,
    checksum: Vec<u8>,
    callstack: Vec<u8>,
    env: Vec<u8>,
    args: Vec<u8>,
}

fn request_buffers(args: &[Vec<u8>]) -> Buffers {
    Buffers {
        name: enc_str("point"),
        checksum: (0..32).collect(),
        callstack: enc_list(&[b"caller".to_vec()]),
        env: b"env-payload".to_vec(),
        args: enc_list(args),
    }
}

fn open_flow(args: &[Vec<u8>], is_readonly: bool, has_events: bool, has_attributes: bool) -> (
    CallFlow,
    EngineCommand,
) {
    let b = request_buffers(args);
    call_callable_point(
        Some(&b.name),
        Some(&b.checksum),
        is_readonly,
        Some(&b.callstack),
        Some(&b.env),
        Some(&b.args),
        5_000_000,
        false,
        true,
        has_events,
        has_attributes,
    )
    .unwrap()
}

#[test]
fn missing_gas_used_slot_fails_before_any_instance() {
    let b = request_buffers(&[]);
    let r = call_callable_point(
        Some(&b.name),
        Some(&b.checksum),
        true,
        Some(&b.callstack),
        Some(&b.env),
        Some(&b.args),
        5_000_000,
        false,
        false,
        false,
        false,
    );
    match r {
        Err(LinkError::EmptyArgument { field }) => assert_eq!(field, "gas_used"),
        other => panic!("expected EmptyArgument, got {:?}", other.is_ok()),
    }
}

#[test]
fn unset_and_malformed_fields_are_reported() {
    let b = request_buffers(&[]);
    let r = decode_call_request(
        None,
        Some(&b.checksum),
        Some(&b.callstack),
        Some(&b.env),
        Some(&b.args),
        true,
        0,
        false,
        true,
    );
    assert!(matches!(r, Err(LinkError::UnsetArgument { .. })));
    let garbage: Vec<u8> = vec![1, 2];
    let r = decode_call_request(
        Some(&garbage),
        Some(&b.checksum),
        Some(&b.callstack),
        Some(&b.env),
        Some(&b.args),
        true,
        0,
        false,
        true,
    );
    match r {
        Err(LinkError::SerializationError { field, cause }) => {
            assert_eq!(field, "name");
            assert_eq!(cause, "malformed envelope");
        },
        _ => panic!("expected SerializationError"),
    }
    let bad_utf8_name = enc_bin(&[0xff, 0xfe]);
    let r = decode_call_request(
        Some(&bad_utf8_name),
        Some(&b.checksum),
        Some(&b.callstack),
        Some(&b.env),
        Some(&b.args),
        true,
        0,
        false,
        true,
    );
    match r {
        Err(LinkError::SerializationError { field, cause }) => {
            assert_eq!(field, "name");
            assert_eq!(cause, "the bytes are not valid UTF-8");
        },
        _ => panic!("expected SerializationError"),
    }
    let short_checksum: Vec<u8> = vec![1, 2, 3];
    let r = decode_call_request(
        Some(&b.name),
        Some(&short_checksum),
        Some(&b.callstack),
        Some(&b.env),
        Some(&b.args),
        true,
        0,
        false,
        true,
    );
    assert!(matches!(r, Err(LinkError::InvalidChecksum)));
    let r = decode_call_request(
        Some(&b.name),
        Some(&b.checksum),
        Some(&b.callstack),
        None,
        Some(&b.args),
        true,
        0,
        false,
        true,
    );
    match r {
        Err(LinkError::UnsetArgument { field }) => assert_eq!(field, "env"),
        _ => panic!("expected UnsetArgument"),
    }
}

#[test]
fn decoded_request_carries_every_field() {
    let args = [b"alpha".to_vec(), b"beta".to_vec()];
    let b = request_buffers(&args);
    let req = decode_call_request(
        Some(&b.name),
        Some(&b.checksum),
        Some(&b.callstack),
        Some(&b.env),
        Some(&b.args),
        false,
        777,
        true,
        true,
    )
    .unwrap();
    assert_eq!(req.name, "point");
    assert_eq!(req.checksum.as_bytes(), &b.checksum);
    assert_eq!(req.args, vec![b"alpha".to_vec(), b"beta".to_vec()]);
    assert_eq!(req.callstack, vec!["caller".to_string()]);
    assert_eq!(req.env, b"env-payload".to_vec());
    assert!(!req.is_readonly);
    assert_eq!(req.gas_limit, 777);
    assert!(req.print_debug);
}

#[test]
fn readonly_call_runs_to_completion() {
    let args = [b"a1".to_vec(), b"a2".to_vec()];
    let (mut flow, cmd) = open_flow(&args, true, false, false);
    assert!(matches!(cmd, EngineCommand::Resolve));

    let cmd = flow.step(EngineEvent::Resolved { error: None });
    match cmd {
        EngineCommand::InstallContext { env, callstack } => {
            assert_eq!(env, b"env-payload".to_vec());
            assert_eq!(callstack, vec!["caller".to_string()]);
        },
        _ => panic!("expected InstallContext"),
    }

    let cmd = flow.step(EngineEvent::ContextInstalled { error: None });
    match cmd {
        EngineCommand::SetPermission { name, is_readonly } => {
            assert_eq!(name, "point");
            assert!(is_readonly);
        },
        _ => panic!("expected SetPermission"),
    }

    let cmd = flow.step(EngineEvent::PermissionSet { error: None });
    match cmd {
        EngineCommand::WriteParams { values } => {
            assert_eq!(values.len(), 3);
            assert_eq!(values[0], b"env-payload".to_vec());
            assert_eq!(values[1], b"a1".to_vec());
            assert_eq!(values[2], b"a2".to_vec());
        },
        _ => panic!("expected WriteParams"),
    }

    let cmd = flow.step(EngineEvent::ParamsWritten { error: None });
    match cmd {
        EngineCommand::Invoke { name } => assert_eq!(name, "point"),
        _ => panic!("expected Invoke"),
    }

    let cmd = flow.step(EngineEvent::Invoked { outcome: Ok(vec![b"result".to_vec()]) });
    assert!(matches!(cmd, EngineCommand::ReadGas));

    let cmd = flow.step(EngineEvent::GasObserved { gas: 42 });
    match cmd {
        EngineCommand::Finish { output } => {
            assert_eq!(output.result.unwrap(), Some(b"result".to_vec()));
            assert_eq!(output.gas_used, Some(42));
            assert!(output.events.is_none());
            assert!(output.attributes.is_none());
        },
        _ => panic!("expected Finish"),
    }
}

#[test]
fn mutating_call_collects_events_and_attributes() {
    let (mut flow, _) = open_flow(&[], false, true, true);
    flow.step(EngineEvent::Resolved { error: None });
    flow.step(EngineEvent::ContextInstalled { error: None });
    flow.step(EngineEvent::PermissionSet { error: None });
    flow.step(EngineEvent::ParamsWritten { error: None });
    let cmd = flow.step(EngineEvent::Invoked { outcome: Ok(vec![]) });
    assert!(matches!(cmd, EngineCommand::CollectEvents));
    let events = vec![EventRecord {
        ty: "wasm".to_string(),
        attributes: vec![AttributeRecord { key: "k".to_string(), value: "v".to_string() }],
    }];
    let attributes = vec![AttributeRecord {
        key: "sender".to_string(),
        value: "addr1".to_string(),
    }];
    let cmd = flow.step(EngineEvent::EventsCollected { events, attributes });
    assert!(matches!(cmd, EngineCommand::ReadGas));
    let cmd = flow.step(EngineEvent::GasObserved { gas: 9 });
    match cmd {
        EngineCommand::Finish { output } => {
            assert_eq!(output.result.unwrap(), None);
            assert_eq!(output.gas_used, Some(9));
            let events_payload = output.events.unwrap();
            let items = decode_binary_list(&events_payload).unwrap();
            assert_eq!(items.len(), 2);
            assert_eq!(items[0], b"wasm".to_vec());
            let attr_items = decode_binary_list(&items[1]).unwrap();
            assert_eq!(attr_items, vec![b"k".to_vec(), b"v".to_vec()]);
            let attrs_payload = output.attributes.unwrap();
            let top = decode_binary_list(&attrs_payload).unwrap();
            assert_eq!(top, vec![b"sender".to_vec(), b"addr1".to_vec()]);
        },
        _ => panic!("expected Finish"),
    }
}

#[test]
fn mutating_call_without_events_slot_fails_but_reports_gas() {
    let (mut flow, _) = open_flow(&[], false, false, false);
    flow.step(EngineEvent::Resolved { error: None });
    flow.step(EngineEvent::ContextInstalled { error: None });
    flow.step(EngineEvent::PermissionSet { error: None });
    flow.step(EngineEvent::ParamsWritten { error: None });
    let cmd = flow.step(EngineEvent::Invoked { outcome: Ok(vec![]) });
    assert!(matches!(cmd, EngineCommand::ReadGas));
    let cmd = flow.step(EngineEvent::GasObserved { gas: 13 });
    match cmd {
        EngineCommand::Finish { output } => {
            match output.result {
                Err(LinkError::EmptyArgument { field }) => assert_eq!(field, "events"),
                _ => panic!("expected EmptyArgument"),
            }
            assert_eq!(output.gas_used, Some(13));
        },
        _ => panic!("expected Finish"),
    }
}

#[test]
fn permission_failure_still_reports_gas() {
    let (mut flow, _) = open_flow(&[], true, false, false);
    flow.step(EngineEvent::Resolved { error: None });
    flow.step(EngineEvent::ContextInstalled { error: None });
    let cmd = flow.step(EngineEvent::PermissionSet { error: Some("write denied".to_string()) });
    assert!(matches!(cmd, EngineCommand::ReadGas));
    let cmd = flow.step(EngineEvent::GasObserved { gas: 21 });
    match cmd {
        EngineCommand::Finish { output } => {
            match output.result {
                Err(LinkError::PermissionError { cause }) => assert_eq!(cause, "write denied"),
                _ => panic!("expected PermissionError"),
            }
            assert_eq!(output.gas_used, Some(21));
        },
        _ => panic!("expected Finish"),
    }
}

#[test]
fn callstack_rejection_still_reports_gas() {
    let (mut flow, _) = open_flow(&[], true, false, false);
    flow.step(EngineEvent::Resolved { error: None });
    let cmd = flow.step(EngineEvent::ContextInstalled {
        error: Some("call stack too deep".to_string()),
    });
    assert!(matches!(cmd, EngineCommand::ReadGas));
    let cmd = flow.step(EngineEvent::GasObserved { gas: 5 });
    match cmd {
        EngineCommand::Finish { output } => {
            match output.result {
                Err(LinkError::DynamicLinkError { cause }) => {
                    assert_eq!(cause, "call stack too deep");
                },
                _ => panic!("expected DynamicLinkError"),
            }
            assert_eq!(output.gas_used, Some(5));
        },
        _ => panic!("expected Finish"),
    }
}

#[test]
fn malformed_callstack_is_a_serialization_error() {
    let b = request_buffers(&[]);
    let bad_callstack = enc_list(&[vec![0xff, 0xfe]]);
    let r = decode_call_request(
        Some(&b.name),
        Some(&b.checksum),
        Some(&bad_callstack),
        Some(&b.env),
        Some(&b.args),
        true,
        0,
        false,
        true,
    );
    match r {
        Err(LinkError::SerializationError { field, cause }) => {
            assert_eq!(field, "callstack");
            assert_eq!(cause, "an address is not valid UTF-8");
        },
        _ => panic!("expected SerializationError"),
    }
}

#[test]
fn invocation_failure_carries_name_and_cause() {
    let (mut flow, _) = open_flow(&[], true, false, false);
    flow.step(EngineEvent::Resolved { error: None });
    flow.step(EngineEvent::ContextInstalled { error: None });
    flow.step(EngineEvent::PermissionSet { error: None });
    flow.step(EngineEvent::ParamsWritten { error: None });
    let cmd = flow.step(EngineEvent::Invoked { outcome: Err("unreachable".to_string()) });
    assert!(matches!(cmd, EngineCommand::ReadGas));
    let cmd = flow.step(EngineEvent::GasObserved { gas: 3 });
    match cmd {
        EngineCommand::Finish { output } => match output.result {
            Err(LinkError::DynamicLinkError { cause }) => assert_eq!(
                cause,
                "Error during calling callable point \"point\": unreachable"
            ),
            _ => panic!("expected DynamicLinkError"),
        },
        _ => panic!("expected Finish"),
    }
}

#[test]
fn resolve_failure_finishes_without_gas() {
    let (mut flow, _) = open_flow(&[], true, false, false);
    let cmd = flow.step(EngineEvent::Resolved { error: Some("no such module".to_string()) });
    match cmd {
        EngineCommand::Finish { output } => {
            assert!(matches!(output.result, Err(LinkError::DynamicLinkError { .. })));
            assert!(output.gas_used.is_none());
        },
        _ => panic!("expected Finish"),
    }
}

#[test]
fn zero_one_and_many_result_regions() {
    assert_eq!(marshal_results(&vec![]).unwrap(), None);
    assert_eq!(
        marshal_results(&vec![b"value".to_vec()]).unwrap(),
        Some(b"value".to_vec())
    );
    match marshal_results(&vec![vec![1], vec![2]]) {
        Err(LinkError::DynamicLinkError { cause }) => {
            assert_eq!(cause, "unexpected more than 1 returning values");
        },
        _ => panic!("expected DynamicLinkError"),
    }
}

#[test]
fn region_budget_boundary() {
    let exactly = vec![vec![0u8; MAX_REGIONS_LENGTH_OUTPUT]];
    let r = marshal_results(&exactly).unwrap();
    assert_eq!(r.unwrap().len(), MAX_REGIONS_LENGTH_OUTPUT);
    let over = vec![vec![0u8; MAX_REGIONS_LENGTH_OUTPUT], vec![0u8]];
    match marshal_results(&over) {
        Err(LinkError::DynamicLinkError { cause }) => {
            assert_eq!(cause, "exceeded the maximum total length of returned regions");
        },
        _ => panic!("expected DynamicLinkError"),
    }
}

#[test]
fn region_write_read_round_trip() {
    let mut mem = CalleeMemory::new();
    let original = b"opaque argument bytes".to_vec();
    let idx = mem.write_value(&original);
    assert_eq!(mem.read_region(idx), original);
}

#[test]
fn params_are_env_first_then_args_in_order() {
    let mut mem = CalleeMemory::new();
    let env = b"env".to_vec();
    let args = vec![b"one".to_vec(), b"two".to_vec(), b"three".to_vec()];
    let ptrs = write_params(&mut mem, &env, &args);
    assert_eq!(ptrs.len(), args.len() + 1);
    assert_eq!(mem.read_region(ptrs[0]), env);
    for (i, arg) in args.iter().enumerate() {
        assert_eq!(&mem.read_region(ptrs[i + 1]), arg);
    }
}

#[test]
fn attribute_encoding_flattens_pairs() {
    let attrs = vec![
        AttributeRecord { key: "a".to_string(), value: "1".to_string() },
        AttributeRecord { key: "b".to_string(), value: "2".to_string() },
    ];
    let payload = encode_attributes(&attrs).unwrap();
    let items = decode_binary_list(&payload).unwrap();
    assert_eq!(
        items,
        vec![b"a".to_vec(), b"1".to_vec(), b"b".to_vec(), b"2".to_vec()]
    );
}
