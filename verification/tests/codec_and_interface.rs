use dynamic_link::checksum::Checksum;
use dynamic_link::dispatch::dispatch_call_result;
use dynamic_link::dispatch::dispatch_validate_result;
use dynamic_link::envelope::decode_binary;
use dynamic_link::envelope::decode_binary_list;
use dynamic_link::envelope::decode_string;
use dynamic_link::envelope::decode_string_list;
use dynamic_link::envelope::encode_binary;
use dynamic_link::envelope::encode_binary_list;
use dynamic_link::envelope::encode_string;
use dynamic_link::errors::LinkError;
use dynamic_link::interface::decode_interface;
use dynamic_link::interface::do_validate_interface;
use dynamic_link::interface::encode_interface;
use dynamic_link::interface::sig_string;
use dynamic_link::interface::validate_interface;
use dynamic_link::interface::ExportEntry;
use dynamic_link::interface::FuncSig;
use dynamic_link::interface::ValKind;

fn enc_bin(payload: &[u8]) -> Vec<u8> {
    let mut v = (payload.len() as u32).to_le_bytes().to_vec();
    v.extend_from_slice(payload);
    v
}

fn enc_list(items: &[Vec<u8>]) -> Vec<u8> {
    let mut v = (items.len() as u32).to_le_bytes().to_vec();
    for item in items {
        v.extend_from_slice(&enc_bin(item));
    }
    v
}

fn entry(name: &str, params: &[ValKind], results: &[ValKind]) -> ExportEntry {
    ExportEntry {
        name: name.to_string(),
        sig: FuncSig { params: params.to_vec(), results: results.to_vec() },
    }
}

#[test]
fn binary_round_trip() {
    let payload: Vec<u8> = vec![7, 0, 255, 3];
    let encoded = encode_binary(&payload).unwrap();
    assert_eq!(encoded, enc_bin(&[7, 0, 255, 3]));
    assert_eq!(decode_binary(&encoded).unwrap(), payload);
}

#[test]
fn binary_rejects_trailing_bytes() {
    let mut encoded = encode_binary(&vec![1, 2]).unwrap();
    encoded.push(9);
    assert!(decode_binary(&encoded).is_none());
}

#[test]
fn binary_rejects_truncated_buffer() {
    assert!(decode_binary(&vec![5, 0, 0, 0, 1]).is_none());
    assert!(decode_binary(&vec![1, 0]).is_none());
}

#[test]
fn binary_list_round_trip() {
    let items: Vec<Vec<u8>> = vec![vec![], vec![1], vec![2, 3]];
    let encoded = encode_binary_list(&items).unwrap();
    assert_eq!(encoded, enc_list(&items));
    assert_eq!(decode_binary_list(&encoded).unwrap(), items);
}

#[test]
fn string_round_trip() {
    let s = "transfer".to_string();
    let encoded = encode_string(&s).unwrap();
    assert_eq!(encoded, enc_bin(b"transfer"));
    assert_eq!(decode_string(&encoded).unwrap(), s);
}

#[test]
fn string_rejects_invalid_utf8() {
    let encoded = enc_bin(&[0xff, 0xfe]);
    assert!(decode_string(&encoded).is_none());
}

#[test]
fn string_list_round_trip() {
    let encoded = enc_list(&[b"link".to_vec(), b"caller".to_vec()]);
    let decoded = decode_string_list(&encoded).unwrap();
    assert_eq!(decoded, vec!["link".to_string(), "caller".to_string()]);
}

#[test]
fn checksum_accepts_exact_length() {
    let bytes: Vec<u8> = (0..32).collect();
    let c = Checksum::from_bytes(&bytes).unwrap();
    assert_eq!(c.as_bytes(), &bytes);
}

#[test]
fn checksum_rejects_other_lengths() {
    let short: Vec<u8> = (0..31).collect();
    assert!(matches!(Checksum::from_bytes(&short), Err(LinkError::InvalidChecksum)));
    let long: Vec<u8> = (0..33).collect();
    assert!(matches!(Checksum::from_bytes(&long), Err(LinkError::InvalidChecksum)));
}

#[test]
fn sig_display_matches_convention() {
    let sig = FuncSig {
        params: vec![ValKind::I32, ValKind::I32],
        results: vec![ValKind::I32],
    };
    assert_eq!(sig_string(&sig), "(i32,i32)->i32");
    let void = FuncSig { params: vec![], results: vec![] };
    assert_eq!(sig_string(&void), "()->()");
    let pair = FuncSig { params: vec![ValKind::I64], results: vec![ValKind::I32, ValKind::I64] };
    assert_eq!(sig_string(&pair), "(i64)->(i32,i64)");
}

#[test]
fn validate_reports_signature_mismatch() {
    let expected = vec![entry("transfer", &[ValKind::I32, ValKind::I32], &[ValKind::I32])];
    let exports = vec![entry("transfer", &[ValKind::I32, ValKind::I32], &[ValKind::I64])];
    let verdict = validate_interface(&expected, &exports);
    assert_eq!(
        verdict.unwrap(),
        "The following functions are not implemented: transfer: (i32,i32)->i32"
    );
}

#[test]
fn validate_satisfied_interface_is_none() {
    let expected = vec![
        entry("transfer", &[ValKind::I32, ValKind::I32], &[ValKind::I32]),
        entry("query_balance", &[ValKind::I32], &[ValKind::I32]),
    ];
    let exports = vec![
        entry("query_balance", &[ValKind::I32], &[ValKind::I32]),
        entry("transfer", &[ValKind::I32, ValKind::I32], &[ValKind::I32]),
        entry("extra", &[], &[]),
    ];
    assert!(validate_interface(&expected, &exports).is_none());
}

#[test]
fn validate_empty_expectation_is_none() {
    let exports = vec![entry("anything", &[], &[])];
    assert!(validate_interface(&vec![], &exports).is_none());
}

#[test]
fn validate_lists_every_offender_in_order() {
    let expected = vec![
        entry("a", &[ValKind::I32], &[]),
        entry("b", &[], &[ValKind::I64]),
        entry("c", &[], &[]),
    ];
    let exports = vec![entry("b", &[], &[ValKind::I64])];
    let verdict = validate_interface(&expected, &exports).unwrap();
    assert_eq!(
        verdict,
        "The following functions are not implemented: a: (i32)->(), c: ()->()"
    );
}

#[test]
fn validate_last_export_wins_on_duplicate_names() {
    let expected = vec![entry("f", &[], &[ValKind::I32])];
    let exports_ok = vec![
        entry("f", &[], &[ValKind::I64]),
        entry("f", &[], &[ValKind::I32]),
    ];
    assert!(validate_interface(&expected, &exports_ok).is_none());
    let exports_bad = vec![
        entry("f", &[], &[ValKind::I32]),
        entry("f", &[], &[ValKind::I64]),
    ];
    assert!(validate_interface(&expected, &exports_bad).is_some());
}

#[test]
fn validate_is_idempotent() {
    let expected = vec![entry("transfer", &[ValKind::I32], &[ValKind::I32])];
    let exports = vec![entry("mint", &[], &[])];
    let first = validate_interface(&expected, &exports);
    let second = validate_interface(&expected, &exports);
    assert_eq!(first, second);
}

#[test]
fn interface_codec_round_trip() {
    let entries = vec![
        entry("transfer", &[ValKind::I32, ValKind::F64], &[ValKind::I32]),
        entry("mint", &[ValKind::V128, ValKind::ExternRef, ValKind::FuncRef], &[]),
    ];
    let encoded = encode_interface(&entries).unwrap();
    let decoded = decode_interface(&encoded).unwrap();
    assert_eq!(decoded.len(), 2);
    assert_eq!(decoded[0].name, "transfer");
    assert_eq!(decoded[0].sig.params, vec![ValKind::I32, ValKind::F64]);
    assert_eq!(decoded[0].sig.results, vec![ValKind::I32]);
    assert_eq!(decoded[1].name, "mint");
    assert_eq!(
        decoded[1].sig.params,
        vec![ValKind::V128, ValKind::ExternRef, ValKind::FuncRef]
    );
}

#[test]
fn interface_decode_rejects_bad_tag() {
    let encoded = enc_list(&[b"f".to_vec(), vec![9], vec![]]);
    assert!(decode_interface(&encoded).is_none());
}

#[test]
fn interface_decode_rejects_uneven_items() {
    let encoded = enc_list(&[b"f".to_vec(), vec![0]]);
    assert!(decode_interface(&encoded).is_none());
}

#[test]
fn do_validate_interface_requires_checksum() {
    let expected = encode_interface(&vec![]).unwrap();
    let r = do_validate_interface(None, Some(&expected), &vec![]);
    assert!(matches!(r, Err(LinkError::UnsetArgument { .. })));
    let short: Vec<u8> = vec![1, 2, 3];
    let r = do_validate_interface(Some(&short), Some(&expected), &vec![]);
    assert!(matches!(r, Err(LinkError::InvalidChecksum)));
}

#[test]
fn do_validate_interface_rejects_malformed_expectation() {
    let checksum: Vec<u8> = (0..32).collect();
    let garbage: Vec<u8> = vec![1, 2, 3];
    let r = do_validate_interface(Some(&checksum), Some(&garbage), &vec![]);
    assert!(matches!(r, Err(LinkError::SerializationError { .. })));
    let r = do_validate_interface(Some(&checksum), None, &vec![]);
    assert!(matches!(r, Err(LinkError::UnsetArgument { .. })));
}

#[test]
fn do_validate_interface_full_run() {
    let checksum: Vec<u8> = (0..32).collect();
    let expected = vec![entry("transfer", &[ValKind::I32, ValKind::I32], &[ValKind::I32])];
    let buffer = encode_interface(&expected).unwrap();
    let exports = vec![entry("transfer", &[ValKind::I32, ValKind::I32], &[ValKind::I64])];
    let verdict = do_validate_interface(Some(&checksum), Some(&buffer), &exports).unwrap();
    assert_eq!(
        verdict.unwrap(),
        "The following functions are not implemented: transfer: (i32,i32)->i32"
    );
    let satisfied = vec![entry("transfer", &[ValKind::I32, ValKind::I32], &[ValKind::I32])];
    let verdict = do_validate_interface(Some(&checksum), Some(&buffer), &satisfied).unwrap();
    assert!(verdict.is_none());
}

#[test]
fn dispatch_encodes_call_success() {
    let out = dispatch_call_result(Ok(Some(vec![0xab, 0xcd])));
    assert!(out.error.is_none());
    assert_eq!(out.payload, vec![1, 2, 0, 0, 0, 0xab, 0xcd]);
    let void = dispatch_call_result(Ok(None));
    assert_eq!(void.payload, vec![0]);
    assert!(void.error.is_none());
}

#[test]
fn dispatch_encodes_call_failure() {
    let out = dispatch_call_result(Err(LinkError::InternalPanic));
    assert_eq!(out.payload, vec![0]);
    assert_eq!(out.error.unwrap(), "internal panic caught at the boundary");
}

#[test]
fn dispatch_encodes_validation_verdict() {
    let out = dispatch_validate_result(Ok(Some("no".to_string())));
    assert!(out.error.is_none());
    assert_eq!(out.payload, vec![1, 2, 0, 0, 0, b'n', b'o']);
    let ok = dispatch_validate_result(Ok(None));
    assert_eq!(ok.payload, vec![0]);
    let err = dispatch_validate_result(Err(LinkError::UnsetArgument {
        field: "cache".to_string(),
    }));
    assert_eq!(err.payload, vec![0]);
    assert_eq!(err.error.unwrap(), "unset argument: cache");
}

#[test]
fn error_messages_are_stable() {
    assert_eq!(
        LinkError::UnsetArgument { field: "name".to_string() }.message(),
        "unset argument: name"
    );
    assert_eq!(
        LinkError::EmptyArgument { field: "gas_used".to_string() }.message(),
        "empty output slot: gas_used"
    );
    assert_eq!(
        LinkError::SerializationError {
            field: "args".to_string(),
            cause: "malformed envelope".to_string(),
        }
        .message(),
        "cannot decode args: malformed envelope"
    );
    assert_eq!(LinkError::InvalidChecksum.message(), "invalid checksum length");
    assert_eq!(
        LinkError::DynamicLinkError { cause: "trap".to_string() }.message(),
        "dynamic link error: trap"
    );
    assert_eq!(
        LinkError::InvalidEvents { cause: "oversize".to_string() }.message(),
        "invalid events: oversize"
    );
    assert_eq!(
        LinkError::InvalidAttributes { cause: "oversize".to_string() }.message(),
        "invalid attributes: oversize"
    );
    assert_eq!(
        LinkError::PermissionError { cause: "read-only".to_string() }.message(),
        "permission error: read-only"
    );
}
