use ink_contract_decoder::decode_ink_contract;
use ink_contract_decoder::wasm_from_hex;
use ink_contract_decoder::wasm_to_hex;
use ink_contract_decoder::DecodeError;
use ink_contract_decoder::HexFailure;
use ink_contract_decoder::HexPayload;
use ink_contract_decoder::JsonCodec;

fn manifest_with_payload(payload: &str) -> String {
    let json = r#"
{"source":{"hash":"0xabc123","language":"ink! 4.0","compiler":"rustc 1.70",
 "wasm":"PAYLOAD","build_info":{"build_mode":"Debug","cargo_contract_version":"3.0.1",
 "rust_toolchain":"stable","wasm_opt_settings":{"keep_debug_symbols":true,"optimization_passes":"Z"}}},
 "contract":{"name":"flipper","version":"0.1.0","authors":["Alice"]},
 "spec":{"constructors":[],"docs":[],"events":[],
 "lang_error":{"display_name":["Error"],"type":3},"messages":[]},
 "storage":{"root":{"layout":{"struct":{"name":"Flipper"}},"root_key":"0x00"}},
 "version":"4"}
"#;
    json.replace("PAYLOAD", payload)
}

fn invalid(payload: &str, reason: HexFailure) -> DecodeError {
    DecodeError::InvalidHexPayload { payload: payload.to_string(), reason }
}

#[test]
fn the_wasm_magic_number_is_read() {
    assert_eq!(wasm_from_hex("0x0061736d"), Ok(vec![0x00, 0x61, 0x73, 0x6d]));
}

#[test]
fn the_prefix_may_be_left_out() {
    assert_eq!(wasm_from_hex("0061736d"), Ok(vec![0x00, 0x61, 0x73, 0x6d]));
    assert_eq!(wasm_from_hex("0061736d"), wasm_from_hex("0x0061736d"));
}

#[test]
fn the_prefix_may_be_upper_case() {
    assert_eq!(wasm_from_hex("0X0061736d"), Ok(vec![0x00, 0x61, 0x73, 0x6d]));
}

#[test]
fn digits_may_be_upper_lower_or_mixed_case() {
    let bytes = vec![0xab, 0xcd, 0xef, 0x01, 0x9f];
    assert_eq!(wasm_from_hex("0xabcdef019f"), Ok(bytes.clone()));
    assert_eq!(wasm_from_hex("0xABCDEF019F"), Ok(bytes.clone()));
    assert_eq!(wasm_from_hex("0xaBcDeF019f"), Ok(bytes.clone()));
    assert_eq!(wasm_from_hex("ABCDEF019F"), Ok(bytes.clone()));
    assert_eq!(wasm_from_hex("0XAbCdEf019F"), Ok(bytes));
}

#[test]
fn every_byte_value_is_read_from_both_cases() {
    let all: Vec<u8> = (0..=255).collect();
    let lower = wasm_to_hex(&all);
    let upper = format!("0X{}", lower[2..].to_uppercase());
    assert_eq!(wasm_from_hex(&lower), Ok(all.clone()));
    assert_eq!(wasm_from_hex(&upper), Ok(all.clone()));
    assert_eq!(wasm_from_hex(&lower[2..]), Ok(all));
}

#[test]
fn the_bare_prefix_and_the_empty_string_are_no_bytes() {
    assert_eq!(wasm_from_hex("0x"), Ok(vec![]));
    assert_eq!(wasm_from_hex("0X"), Ok(vec![]));
    assert_eq!(wasm_from_hex(""), Ok(vec![]));
}

#[test]
fn an_empty_payload_in_a_manifest_is_accepted() {
    let contract = decode_ink_contract(&manifest_with_payload("0x")).unwrap();
    assert_eq!(contract.source.wasm, Vec::<u8>::new());
    let contract = decode_ink_contract(&manifest_with_payload("")).unwrap();
    assert_eq!(contract.source.wasm, Vec::<u8>::new());
}

#[test]
fn an_odd_number_of_digits_is_refused() {
    assert_eq!(wasm_from_hex("0x123"), Err(invalid("0x123", HexFailure::OddLength)));
    assert_eq!(wasm_from_hex("123"), Err(invalid("123", HexFailure::OddLength)));
    assert_eq!(wasm_from_hex("0"), Err(invalid("0", HexFailure::OddLength)));
    assert_eq!(wasm_from_hex("0x0"), Err(invalid("0x0", HexFailure::OddLength)));
}

#[test]
fn an_odd_length_is_reported_before_a_wrong_digit() {
    assert_eq!(wasm_from_hex("0xzz1"), Err(invalid("0xzz1", HexFailure::OddLength)));
}

#[test]
fn an_odd_payload_in_a_manifest_is_refused() {
    assert_eq!(
        decode_ink_contract(&manifest_with_payload("0x0061736")),
        Err(invalid("0x0061736", HexFailure::OddLength))
    );
}

#[test]
fn a_character_that_is_no_digit_is_refused_with_its_position() {
    assert_eq!(
        wasm_from_hex("0x00g1"),
        Err(invalid("0x00g1", HexFailure::InvalidCharacter { c: 'g', index: 2 }))
    );
    assert_eq!(
        wasm_from_hex("00 1"),
        Err(invalid("00 1", HexFailure::InvalidCharacter { c: ' ', index: 2 }))
    );
    assert_eq!(
        wasm_from_hex("0x0g0h"),
        Err(invalid("0x0g0h", HexFailure::InvalidCharacter { c: 'g', index: 1 }))
    );
}

#[test]
fn a_wrong_payload_in_a_manifest_is_refused() {
    assert_eq!(
        decode_ink_contract(&manifest_with_payload("0xwasm")),
        Err(invalid("0xwasm", HexFailure::InvalidCharacter { c: 'w', index: 0 }))
    );
}

#[test]
fn only_one_prefix_is_taken_off() {
    assert_eq!(
        wasm_from_hex("0x0x12"),
        Err(invalid("0x0x12", HexFailure::InvalidCharacter { c: 'x', index: 1 }))
    );
}

#[test]
fn a_character_outside_ascii_is_refused_by_its_first_byte() {
    assert_eq!(
        wasm_from_hex("0x\u{e9}"),
        Err(invalid("0x\u{e9}", HexFailure::InvalidCharacter { c: '\u{c3}', index: 0 }))
    );
}

#[test]
fn bytes_are_written_as_lower_case_digits_after_the_prefix() {
    assert_eq!(wasm_to_hex(&[0x00, 0x61, 0x73, 0x6d]), "0x0061736d");
    assert_eq!(wasm_to_hex(&[0xde, 0xad, 0xbe, 0xef]), "0xdeadbeef");
    assert_eq!(wasm_to_hex(&[0x0f, 0xf0, 0x9a]), "0x0ff09a");
    assert_eq!(wasm_to_hex(&[]), "0x");
}

#[test]
fn what_is_written_for_bytes_reads_back_as_the_bytes() {
    let bytes: Vec<u8> = vec![0, 1, 15, 16, 127, 128, 254, 255];
    assert_eq!(wasm_from_hex(&wasm_to_hex(&bytes)), Ok(bytes));
}

#[test]
fn the_payload_is_a_string_in_a_document() {
    let value = HexPayload(vec![0x00, 0x61]).to_value();
    assert_eq!(value, serde_json::Value::from("0x0061"));
    assert_eq!(HexPayload::from_value(&value), Ok(HexPayload(vec![0x00, 0x61])));
}

#[test]
fn a_payload_that_is_no_string_is_a_mismatch() {
    let json = manifest_with_payload("").replace("\"wasm\":\"\"", "\"wasm\":[0,97,115,109]");
    assert!(matches!(
        decode_ink_contract(&json),
        Err(DecodeError::SchemaMismatch { actual: Some(ink_contract_decoder::JsonKind::Array), .. })
    ));
}
