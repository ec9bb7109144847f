use ink_contract_decoder::decode_ink_contract;
use ink_contract_decoder::encode_ink_contract;
use ink_contract_decoder::Arg;
use ink_contract_decoder::BuildInfo;
use ink_contract_decoder::Constructor;
use ink_contract_decoder::Contract;
use ink_contract_decoder::DecodeError;
use ink_contract_decoder::Expected;
use ink_contract_decoder::InkContract;
use ink_contract_decoder::JsonCodec;
use ink_contract_decoder::JsonKind;
use ink_contract_decoder::LangError;
use ink_contract_decoder::Layout;
use ink_contract_decoder::Message;
use ink_contract_decoder::PathSegment;
use ink_contract_decoder::ReturnType;
use ink_contract_decoder::Root;
use ink_contract_decoder::Source;
use ink_contract_decoder::Spec;
use ink_contract_decoder::Storage;
use ink_contract_decoder::Struct;
use ink_contract_decoder::WasmOptSettings;

const FLIPPER: &str = r#"
{"source":{"hash":"0xabc123","language":"ink! 4.0","compiler":"rustc 1.70",
 "wasm":"0x0061736d","build_info":{"build_mode":"Debug","cargo_contract_version":"3.0.1",
 "rust_toolchain":"stable","wasm_opt_settings":{"keep_debug_symbols":true,"optimization_passes":"Z"}}},
 "contract":{"name":"flipper","version":"0.1.0","authors":["Alice"]},
 "spec":{"constructors":[],"docs":[],"events":[],
 "lang_error":{"display_name":["Error"],"type":3},"messages":[]},
 "storage":{"root":{"layout":{"struct":{"name":"Flipper"}},"root_key":"0x00"}},
 "version":"4"}
"#;

const FULL: &str = r#"
{
  "source": {
    "hash": "0x11",
    "language": "ink! 4.2.0",
    "compiler": "rustc 1.69.0",
    "wasm": "0xDEADbeef",
    "build_info": {
      "build_mode": "Release",
      "cargo_contract_version": "2.2.1",
      "rust_toolchain": "stable-x86_64",
      "wasm_opt_settings": { "keep_debug_symbols": false, "optimization_passes": "Z" }
    }
  },
  "contract": { "name": "incrementer", "version": "4.2.0", "authors": ["Ann", "Bob"] },
  "spec": {
    "constructors": [
      {
        "args": ["init_value"],
        "docs": ["Makes a new one."],
        "label": "new",
        "payable": false,
        "return_type": { "display_name": ["ink", "ConstructorResult"], "type": 1 },
        "selector": "0x9bae9d5e"
      },
      {
        "args": [],
        "docs": [],
        "label": "default",
        "payable": true,
        "return_type": null,
        "selector": "0xed4b9d1b"
      }
    ],
    "docs": ["An incrementer."],
    "events": ["Incremented"],
    "lang_error": { "display_name": null, "type": 3 },
    "messages": [
      {
        "args": [ { "label": "by", "type": { "display_name": ["i32"], "type": 0 } } ],
        "docs": [" Adds."],
        "label": "inc",
        "mutates": true,
        "payable": false,
        "return_type": { "type": 255 },
        "selector": "0x1d32619f"
      },
      {
        "args": [],
        "docs": [],
        "label": "get",
        "mutates": false,
        "payable": false,
        "selector": "0x2f865bd9"
      }
    ],
    "limits": { "max_event_topics": 4, "ratio": 1.5 }
  },
  "storage": { "root": { "layout": { "struct": { "name": "Incrementer", "fields": [] } }, "root_key": "0x00000000" } },
  "types": [ { "id": 0, "type": { "def": { "primitive": "i32" } } } ],
  "version": "4"
}
"#;

fn text(s: &str) -> String {
    s.to_string()
}

fn flipper() -> InkContract {
    InkContract {
        source: Source {
            hash: text("0xabc123"),
            language: text("ink! 4.0"),
            compiler: text("rustc 1.70"),
            wasm: vec![0x00, 0x61, 0x73, 0x6d],
            build_info: BuildInfo {
                build_mode: text("Debug"),
                cargo_contract_version: text("3.0.1"),
                rust_toolchain: text("stable"),
                wasm_opt_settings: WasmOptSettings {
                    keep_debug_symbols: true,
                    optimization_passes: text("Z"),
                },
            },
        },
        contract: Contract {
            name: text("flipper"),
            version: text("0.1.0"),
            authors: vec![text("Alice")],
        },
        spec: Spec {
            constructors: vec![],
            docs: vec![],
            events: vec![],
            lang_error: LangError { display_name: Some(vec![text("Error")]), type_id: 3 },
            messages: vec![],
        },
        storage: Storage {
            root: Root {
                layout: Layout { structure: Struct { name: text("Flipper") } },
                root_key: text("0x00"),
            },
        },
        version: text("4"),
    }
}

fn full() -> InkContract {
    InkContract {
        source: Source {
            hash: text("0x11"),
            language: text("ink! 4.2.0"),
            compiler: text("rustc 1.69.0"),
            wasm: vec![0xde, 0xad, 0xbe, 0xef],
            build_info: BuildInfo {
                build_mode: text("Release"),
                cargo_contract_version: text("2.2.1"),
                rust_toolchain: text("stable-x86_64"),
                wasm_opt_settings: WasmOptSettings {
                    keep_debug_symbols: false,
                    optimization_passes: text("Z"),
                },
            },
        },
        contract: Contract {
            name: text("incrementer"),
            version: text("4.2.0"),
            authors: vec![text("Ann"), text("Bob")],
        },
        spec: Spec {
            constructors: vec![
                Constructor {
                    args: vec![text("init_value")],
                    docs: vec![text("Makes a new one.")],
                    label: text("new"),
                    payable: false,
                    return_type: Some(ReturnType {
                        display_name: Some(vec![text("ink"), text("ConstructorResult")]),
                        type_id: 1,
                    }),
                    selector: text("0x9bae9d5e"),
                },
                Constructor {
                    args: vec![],
                    docs: vec![],
                    label: text("default"),
                    payable: true,
                    return_type: None,
                    selector: text("0xed4b9d1b"),
                },
            ],
            docs: vec![text("An incrementer.")],
            events: vec![text("Incremented")],
            lang_error: LangError { display_name: None, type_id: 3 },
            messages: vec![
                Message {
                    args: vec![Arg {
                        label: text("by"),
                        type_ref: ReturnType { display_name: Some(vec![text("i32")]), type_id: 0 },
                    }],
                    docs: vec![text(" Adds.")],
                    label: text("inc"),
                    mutates: true,
                    payable: false,
                    return_type: Some(ReturnType { display_name: None, type_id: 255 }),
                    selector: text("0x1d32619f"),
                },
                Message {
                    args: vec![],
                    docs: vec![],
                    label: text("get"),
                    mutates: false,
                    payable: false,
                    return_type: None,
                    selector: text("0x2f865bd9"),
                },
            ],
        },
        storage: Storage {
            root: Root {
                layout: Layout { structure: Struct { name: text("Incrementer") } },
                root_key: text("0x00000000"),
            },
        },
        version: text("4"),
    }
}

fn schema_mismatch(
    path: Vec<PathSegment>,
    expected: Expected,
    actual: Option<JsonKind>,
) -> DecodeError {
    DecodeError::SchemaMismatch { path, expected, actual }
}

fn with_member_replaced(path: &[&str], member: serde_json::Value) -> String {
    let mut root: serde_json::Value = serde_json::from_str(FLIPPER).unwrap();
    let mut at = &mut root;
    for name in &path[..path.len() - 1] {
        at = at.get_mut(*name).unwrap();
    }
    at.as_object_mut().unwrap().insert(path[path.len() - 1].to_string(), member);
    root.to_string()
}

#[test]
fn end_to_end_scenario_gives_the_wasm_magic_number() {
    let contract = decode_ink_contract(FLIPPER).unwrap();
    assert_eq!(contract.source.wasm, vec![0x00, 0x61, 0x73, 0x6d]);
    assert_eq!(contract.source.wasm.len(), 4);
}

#[test]
fn end_to_end_scenario_gives_every_field() {
    assert_eq!(decode_ink_contract(FLIPPER), Ok(flipper()));
}

#[test]
fn a_full_manifest_is_decoded_field_for_field() {
    assert_eq!(decode_ink_contract(FULL), Ok(full()));
}

#[test]
fn members_outside_the_schema_are_passed_over() {
    let contract = decode_ink_contract(FULL).unwrap();
    assert_eq!(contract.storage.root.layout.structure.name, "Incrementer");
    assert_eq!(contract.version, "4");
}

#[test]
fn an_absent_return_type_and_a_null_one_are_both_none() {
    let contract = decode_ink_contract(FULL).unwrap();
    assert_eq!(contract.spec.constructors[1].return_type, None);
    assert_eq!(contract.spec.messages[1].return_type, None);
}

#[test]
fn an_absent_display_name_and_a_null_one_are_both_none() {
    let contract = decode_ink_contract(FULL).unwrap();
    assert_eq!(contract.spec.lang_error.display_name, None);
    assert_eq!(
        contract.spec.messages[0].return_type,
        Some(ReturnType { display_name: None, type_id: 255 })
    );
}

#[test]
fn text_that_is_not_json_is_malformed() {
    match decode_ink_contract("{\n  \"source\": ") {
        Err(DecodeError::MalformedJson { line, column, message }) => {
            assert_eq!(line, 2);
            assert_eq!(column, 12);
            assert_eq!(message, "EOF while parsing a value at line 2 column 12");
        }
        other => panic!("unexpected: {:?}", other),
    }
}

#[test]
fn the_empty_text_is_malformed() {
    assert!(matches!(decode_ink_contract(""), Err(DecodeError::MalformedJson { .. })));
}

#[test]
fn trailing_text_is_malformed() {
    let doubled = format!("{} {}", FLIPPER, FLIPPER);
    assert!(matches!(decode_ink_contract(&doubled), Err(DecodeError::MalformedJson { .. })));
}

#[test]
fn a_root_that_is_no_object_is_a_mismatch_at_the_root() {
    assert_eq!(
        decode_ink_contract("[1, 2]"),
        Err(schema_mismatch(vec![], Expected::Object, Some(JsonKind::Array)))
    );
    assert_eq!(
        decode_ink_contract("null"),
        Err(schema_mismatch(vec![], Expected::Object, Some(JsonKind::Null)))
    );
}

#[test]
fn an_empty_object_lacks_the_first_member() {
    assert_eq!(
        decode_ink_contract("{}"),
        Err(schema_mismatch(vec![PathSegment::Field("source")], Expected::Object, None))
    );
}

#[test]
fn a_number_in_place_of_a_string_is_a_mismatch() {
    let json = with_member_replaced(&["source", "language"], serde_json::Value::from(4));
    assert_eq!(
        decode_ink_contract(&json),
        Err(schema_mismatch(
            vec![PathSegment::Field("source"), PathSegment::Field("language")],
            Expected::String,
            Some(JsonKind::Number)
        ))
    );
}

#[test]
fn a_string_in_place_of_a_boolean_is_a_mismatch() {
    let json = with_member_replaced(
        &["source", "build_info", "wasm_opt_settings", "keep_debug_symbols"],
        serde_json::Value::from("true"),
    );
    assert_eq!(
        decode_ink_contract(&json),
        Err(schema_mismatch(
            vec![
                PathSegment::Field("source"),
                PathSegment::Field("build_info"),
                PathSegment::Field("wasm_opt_settings"),
                PathSegment::Field("keep_debug_symbols"),
            ],
            Expected::Bool,
            Some(JsonKind::String)
        ))
    );
}

#[test]
fn a_string_in_place_of_an_array_is_a_mismatch() {
    let json = with_member_replaced(&["contract", "authors"], serde_json::Value::from("Alice"));
    assert_eq!(
        decode_ink_contract(&json),
        Err(schema_mismatch(
            vec![PathSegment::Field("contract"), PathSegment::Field("authors")],
            Expected::Array,
            Some(JsonKind::String)
        ))
    );
}

#[test]
fn a_null_in_place_of_a_required_object_is_a_mismatch() {
    let json = with_member_replaced(&["storage", "root"], serde_json::Value::Null);
    assert_eq!(
        decode_ink_contract(&json),
        Err(schema_mismatch(
            vec![PathSegment::Field("storage"), PathSegment::Field("root")],
            Expected::Object,
            Some(JsonKind::Null)
        ))
    );
}

#[test]
fn a_wrong_element_is_named_by_its_position() {
    let authors = serde_json::Value::from(vec![
        serde_json::Value::from("Alice"),
        serde_json::Value::from(true),
        serde_json::Value::from(7),
    ]);
    let json = with_member_replaced(&["contract", "authors"], authors);
    assert_eq!(
        decode_ink_contract(&json),
        Err(schema_mismatch(
            vec![
                PathSegment::Field("contract"),
                PathSegment::Field("authors"),
                PathSegment::Index(1),
            ],
            Expected::String,
            Some(JsonKind::Bool)
        ))
    );
}

#[test]
fn a_type_index_must_fit_a_byte() {
    let path = vec![
        PathSegment::Field("spec"),
        PathSegment::Field("lang_error"),
        PathSegment::Field("type"),
    ];
    for wrong in ["256", "-1", "3.0", "1e2", "18446744073709551616"] {
        let number: serde_json::Value = serde_json::from_str(wrong).unwrap();
        let json = with_member_replaced(&["spec", "lang_error", "type"], number);
        assert_eq!(
            decode_ink_contract(&json),
            Err(schema_mismatch(path.clone(), Expected::SmallUnsigned, Some(JsonKind::Number)))
        );
    }
    let json = with_member_replaced(&["spec", "lang_error", "type"], serde_json::Value::from(255));
    assert_eq!(decode_ink_contract(&json).unwrap().spec.lang_error.type_id, 255);
    let json = with_member_replaced(&["spec", "lang_error", "type"], serde_json::Value::from(0));
    assert_eq!(decode_ink_contract(&json).unwrap().spec.lang_error.type_id, 0);
}

#[test]
fn the_first_fault_in_field_order_is_reported() {
    let mut root: serde_json::Value = serde_json::from_str(FLIPPER).unwrap();
    root["version"] = serde_json::Value::from(4);
    root["contract"]["name"] = serde_json::Value::Null;
    root["contract"].as_object_mut().unwrap().remove("version");
    assert_eq!(
        decode_ink_contract(&root.to_string()),
        Err(schema_mismatch(
            vec![PathSegment::Field("contract"), PathSegment::Field("name")],
            Expected::String,
            Some(JsonKind::Null)
        ))
    );
}

#[test]
fn a_fault_deep_inside_a_message_carries_its_whole_path() {
    let mut root: serde_json::Value = serde_json::from_str(FULL).unwrap();
    root["spec"]["messages"][0]["args"][0]["type"]["type"] = serde_json::Value::from("zero");
    assert_eq!(
        decode_ink_contract(&root.to_string()),
        Err(schema_mismatch(
            vec![
                PathSegment::Field("spec"),
                PathSegment::Field("messages"),
                PathSegment::Index(0),
                PathSegment::Field("args"),
                PathSegment::Index(0),
                PathSegment::Field("type"),
                PathSegment::Field("type"),
            ],
            Expected::SmallUnsigned,
            Some(JsonKind::String)
        ))
    );
}

#[test]
fn constructor_arguments_are_plain_strings() {
    let mut root: serde_json::Value = serde_json::from_str(FULL).unwrap();
    let typed = root["spec"]["messages"][0]["args"].clone();
    root["spec"]["constructors"][0]["args"] = typed;
    assert_eq!(
        decode_ink_contract(&root.to_string()),
        Err(schema_mismatch(
            vec![
                PathSegment::Field("spec"),
                PathSegment::Field("constructors"),
                PathSegment::Index(0),
                PathSegment::Field("args"),
                PathSegment::Index(0),
            ],
            Expected::String,
            Some(JsonKind::Object)
        ))
    );
}

#[test]
fn a_return_type_that_is_present_must_be_an_object() {
    let mut root: serde_json::Value = serde_json::from_str(FULL).unwrap();
    root["spec"]["constructors"][1]["return_type"] = serde_json::Value::from(1);
    assert_eq!(
        decode_ink_contract(&root.to_string()),
        Err(schema_mismatch(
            vec![
                PathSegment::Field("spec"),
                PathSegment::Field("constructors"),
                PathSegment::Index(1),
                PathSegment::Field("return_type"),
            ],
            Expected::Object,
            Some(JsonKind::Number)
        ))
    );
}

#[test]
fn of_a_member_written_twice_the_last_counts() {
    let json = FLIPPER.replace("\"version\":\"4\"", "\"version\":\"4\",\"version\":\"5\"");
    assert_eq!(decode_ink_contract(&json).unwrap().version, "5");
}

#[test]
fn a_part_of_the_manifest_is_decoded_on_its_own() {
    let value: serde_json::Value =
        serde_json::from_str(r#"{"display_name":["u8"],"type":7}"#).unwrap();
    assert_eq!(
        ReturnType::from_value(&value),
        Ok(ReturnType { display_name: Some(vec![text("u8")]), type_id: 7 })
    );
    let value: serde_json::Value = serde_json::from_str(r#"["a","b"]"#).unwrap();
    assert_eq!(Vec::<String>::from_value(&value), Ok(vec![text("a"), text("b")]));
    let value: serde_json::Value = serde_json::from_str("true").unwrap();
    assert_eq!(bool::from_value(&value), Ok(true));
    assert_eq!(
        u8::from_value(&value),
        Err(schema_mismatch(vec![], Expected::SmallUnsigned, Some(JsonKind::Bool)))
    );
}

#[test]
fn removing_a_required_member_names_that_member() {
    let cases: Vec<(Vec<&'static str>, Expected)> = vec![
        (vec!["source"], Expected::Object),
        (vec!["source", "hash"], Expected::String),
        (vec!["source", "language"], Expected::String),
        (vec!["source", "compiler"], Expected::String),
        (vec!["source", "wasm"], Expected::String),
        (vec!["source", "build_info"], Expected::Object),
        (vec!["source", "build_info", "build_mode"], Expected::String),
        (vec!["source", "build_info", "cargo_contract_version"], Expected::String),
        (vec!["source", "build_info", "rust_toolchain"], Expected::String),
        (vec!["source", "build_info", "wasm_opt_settings"], Expected::Object),
        (vec!["source", "build_info", "wasm_opt_settings", "keep_debug_symbols"], Expected::Bool),
        (
            vec!["source", "build_info", "wasm_opt_settings", "optimization_passes"],
            Expected::String,
        ),
        (vec!["contract"], Expected::Object),
        (vec!["contract", "name"], Expected::String),
        (vec!["contract", "version"], Expected::String),
        (vec!["contract", "authors"], Expected::Array),
        (vec!["spec"], Expected::Object),
        (vec!["spec", "constructors"], Expected::Array),
        (vec!["spec", "docs"], Expected::Array),
        (vec!["spec", "events"], Expected::Array),
        (vec!["spec", "lang_error"], Expected::Object),
        (vec!["spec", "lang_error", "type"], Expected::SmallUnsigned),
        (vec!["spec", "messages"], Expected::Array),
        (vec!["storage"], Expected::Object),
        (vec!["storage", "root"], Expected::Object),
        (vec!["storage", "root", "layout"], Expected::Object),
        (vec!["storage", "root", "layout", "struct"], Expected::Object),
        (vec!["storage", "root", "layout", "struct", "name"], Expected::String),
        (vec!["storage", "root", "root_key"], Expected::String),
        (vec!["version"], Expected::String),
    ];
    for (path, expected) in cases {
        let mut root: serde_json::Value = serde_json::from_str(FLIPPER).unwrap();
        let mut at = &mut root;
        for name in &path[..path.len() - 1] {
            at = at.get_mut(*name).unwrap();
        }
        assert!(at.as_object_mut().unwrap().remove(path[path.len() - 1]).is_some());
        let segments: Vec<PathSegment> = path.iter().map(|name| PathSegment::Field(name)).collect();
        assert_eq!(
            decode_ink_contract(&root.to_string()),
            Err(schema_mismatch(segments, expected, None))
        );
    }
}

#[test]
fn removing_a_required_member_of_an_element_names_the_element() {
    let members = ["args", "docs", "label", "mutates", "payable", "selector"];
    let expected = [
        Expected::Array,
        Expected::Array,
        Expected::String,
        Expected::Bool,
        Expected::Bool,
        Expected::String,
    ];
    for (name, expected) in members.iter().zip(expected) {
        let mut root: serde_json::Value = serde_json::from_str(FULL).unwrap();
        root["spec"]["messages"][1].as_object_mut().unwrap().remove(*name).unwrap();
        assert_eq!(
            decode_ink_contract(&root.to_string()),
            Err(schema_mismatch(
                vec![
                    PathSegment::Field("spec"),
                    PathSegment::Field("messages"),
                    PathSegment::Index(1),
                    PathSegment::Field(name),
                ],
                expected,
                None
            ))
        );
    }
}

#[test]
fn removing_an_optional_member_is_no_fault() {
    let mut root: serde_json::Value = serde_json::from_str(FLIPPER).unwrap();
    root["spec"]["lang_error"].as_object_mut().unwrap().remove("display_name").unwrap();
    let contract = decode_ink_contract(&root.to_string()).unwrap();
    assert_eq!(contract.spec.lang_error, LangError { display_name: None, type_id: 3 });
}

const FLIPPER_ENCODED: &str = "{\"contract\":{\"authors\":[\"Alice\"],\"name\":\"flipper\",\"version\":\"0.1.0\"},\
\"source\":{\"build_info\":{\"build_mode\":\"Debug\",\"cargo_contract_version\":\"3.0.1\",\
\"rust_toolchain\":\"stable\",\"wasm_opt_settings\":{\"keep_debug_symbols\":true,\
\"optimization_passes\":\"Z\"}},\"compiler\":\"rustc 1.70\",\"hash\":\"0xabc123\",\
\"language\":\"ink! 4.0\",\"wasm\":\"0x0061736d\"},\
\"spec\":{\"constructors\":[],\"docs\":[],\"events\":[],\
\"lang_error\":{\"display_name\":[\"Error\"],\"type\":3},\"messages\":[]},\
\"storage\":{\"root\":{\"layout\":{\"struct\":{\"name\":\"Flipper\"}},\"root_key\":\"0x00\"}},\
\"version\":\"4\"}";

#[test]
fn a_manifest_is_encoded_as_compact_json_with_sorted_members() {
    assert_eq!(encode_ink_contract(&flipper()), FLIPPER_ENCODED);
}

#[test]
fn the_encoded_text_is_decoded_to_the_same_manifest() {
    assert_eq!(decode_ink_contract(&encode_ink_contract(&flipper())), Ok(flipper()));
    assert_eq!(decode_ink_contract(&encode_ink_contract(&full())), Ok(full()));
}

#[test]
fn encoding_what_was_decoded_from_encoded_text_gives_that_text() {
    let contract = decode_ink_contract(FLIPPER_ENCODED).unwrap();
    assert_eq!(encode_ink_contract(&contract), FLIPPER_ENCODED);
    let once = encode_ink_contract(&full());
    let twice = encode_ink_contract(&decode_ink_contract(&once).unwrap());
    assert_eq!(once, twice);
}

#[test]
fn the_compiled_module_is_encoded_with_prefix_and_lower_case_digits() {
    let mut contract = flipper();
    contract.source.wasm = vec![0xAB, 0xCD, 0x0E];
    let json: serde_json::Value = serde_json::from_str(&encode_ink_contract(&contract)).unwrap();
    assert_eq!(json["source"]["wasm"], serde_json::Value::from("0xabcd0e"));
    contract.source.wasm = vec![];
    let json: serde_json::Value = serde_json::from_str(&encode_ink_contract(&contract)).unwrap();
    assert_eq!(json["source"]["wasm"], serde_json::Value::from("0x"));
    assert_eq!(decode_ink_contract(&json.to_string()), Ok(contract));
}

#[test]
fn an_absent_value_is_encoded_as_null() {
    let plain = ReturnType { display_name: None, type_id: 1 };
    assert_eq!(plain.to_value().to_string(), r#"{"display_name":null,"type":1}"#);
    let json: serde_json::Value = serde_json::from_str(&encode_ink_contract(&full())).unwrap();
    assert_eq!(json["spec"]["constructors"][1]["return_type"], serde_json::Value::Null);
    assert_eq!(json["spec"]["messages"][1]["return_type"], serde_json::Value::Null);
    assert_eq!(json["spec"]["lang_error"]["display_name"], serde_json::Value::Null);
}

#[test]
fn parts_of_the_manifest_are_encoded_on_their_own() {
    assert_eq!(text("a\"b").to_value(), serde_json::Value::from("a\"b"));
    assert_eq!(true.to_value(), serde_json::Value::Bool(true));
    assert_eq!(7u8.to_value(), serde_json::Value::from(7));
    assert_eq!(vec![text("x"), text("y")].to_value().to_string(), r#"["x","y"]"#);
    let arg = Arg {
        label: text("by"),
        type_ref: ReturnType { display_name: Some(vec![text("i32")]), type_id: 0 },
    };
    assert_eq!(
        arg.to_value().to_string(),
        r#"{"label":"by","type":{"display_name":["i32"],"type":0}}"#
    );
    assert_eq!(Arg::from_value(&arg.to_value()), Ok(arg));
    let layout = Layout { structure: Struct { name: text("Flipper") } };
    assert_eq!(layout.to_value().to_string(), r#"{"struct":{"name":"Flipper"}}"#);
}

#[test]
fn strings_of_any_content_survive_the_round_trip() {
    let mut contract = full();
    contract.contract.name = text("quote \" backslash \\ newline \n tab \t null \u{0} bell \u{7}");
    contract.contract.authors = vec![text(""), text("\u{e9}\u{4e16}\u{1f600}"), text("0x")];
    contract.spec.docs = vec![text("{\"not\": [\"json\"]}")];
    contract.version = text("\u{2028}\u{7f}");
    let encoded = encode_ink_contract(&contract);
    assert_eq!(decode_ink_contract(&encoded), Ok(contract));
}

#[test]
fn the_bounds_of_a_type_index_survive_the_round_trip() {
    let mut contract = flipper();
    contract.spec.lang_error.type_id = 0;
    assert_eq!(decode_ink_contract(&encode_ink_contract(&contract)), Ok(contract));
    let mut contract = flipper();
    contract.spec.lang_error.type_id = 255;
    assert_eq!(decode_ink_contract(&encode_ink_contract(&contract)), Ok(contract));
}

#[test]
fn a_large_module_survives_the_round_trip() {
    let mut contract = flipper();
    contract.source.wasm = (0..20000u32).map(|i| (i % 251) as u8).collect();
    let encoded = encode_ink_contract(&contract);
    assert_eq!(decode_ink_contract(&encoded), Ok(contract));
}
