use calldata_interpreter::decode::{decode_call_bytes, decode_function_call, DecodeError};
use calldata_interpreter::interface::{
    parse_interface, FunctionSignature, InterfaceDefinition, InterfaceError, Param, ParamKind,
};
use ethabi::{ParamType, Token};

const STORE_ABI: &str = r#"[{"inputs":[{"internalType":"uint256","name":"num","type":"uint256"}],"name":"store","outputs":[],"stateMutability":"nonpayable","type":"function"},{"inputs":[],"name":"retrieve","outputs":[{"internalType":"uint256","name":"","type":"uint256"}],"stateMutability":"view","type":"function"}]"#;

fn kind_of(outside: &ParamType) -> ParamKind {
    match outside {
        ParamType::Address => ParamKind::Address,
        ParamType::Bytes => ParamKind::Bytes,
        ParamType::Int(n) => ParamKind::Int(*n),
        ParamType::Uint(n) => ParamKind::Uint(*n),
        ParamType::Bool => ParamKind::Bool,
        ParamType::String => ParamKind::Str,
        ParamType::Array(t) => ParamKind::Array(Box::new(kind_of(t))),
        ParamType::FixedBytes(n) => ParamKind::FixedBytes(*n),
        ParamType::FixedArray(t, n) => ParamKind::FixedArray(Box::new(kind_of(t)), *n),
        ParamType::Tuple(ts) => ParamKind::Tuple(ts.iter().map(kind_of).collect()),
    }
}

fn kind(text: &str) -> ParamKind {
    kind_of(&ethabi::param_type::Reader::read(text).unwrap())
}

fn function_of(name: &str, kinds: Vec<ParamKind>) -> FunctionSignature {
    FunctionSignature {
        name: name.to_string(),
        inputs: kinds
            .into_iter()
            .enumerate()
            .map(|(i, k)| Param { name: format!("p{}", i), kind: k })
            .collect(),
    }
}

fn function(name: &str, kinds: &[&str]) -> FunctionSignature {
    function_of(name, kinds.iter().map(|k| kind(k)).collect())
}

fn call_data(f: &FunctionSignature, tokens: &[Token]) -> Vec<u8> {
    let mut data = f.selector().unwrap().to_vec();
    data.extend(ethabi::encode(tokens));
    data
}

#[test]
fn store_selector_is_the_documented_one() {
    let f = function("store", &["uint256"]);
    assert_eq!(f.selector(), Some([0x60, 0x57, 0x36, 0x1d]));
}

#[test]
fn store_call_decodes_to_42() {
    let interface = parse_interface(STORE_ABI).unwrap();
    let call = decode_function_call(
        &interface,
        "0x6057361d000000000000000000000000000000000000000000000000000000000000002a",
    )
    .unwrap();
    assert_eq!(call.name, "store");
    assert_eq!(call.arguments.len(), 1);
    assert_eq!(call.arguments[0].token, Token::Uint(42u64.into()));
    assert_eq!(call.arguments[0].text, "Uint(42)");
}

#[test]
fn call_data_is_read_without_the_marker_too() {
    let interface = parse_interface(STORE_ABI).unwrap();
    let call = decode_function_call(
        &interface,
        "6057361D000000000000000000000000000000000000000000000000000000000000002A",
    )
    .unwrap();
    assert_eq!(call.name, "store");
    assert_eq!(call.arguments[0].token, Token::Uint(42u64.into()));
}

#[test]
fn interface_lists_functions_by_name() {
    let interface = parse_interface(STORE_ABI).unwrap();
    let names: Vec<&str> = interface.functions.iter().map(|f| f.name.as_str()).collect();
    assert_eq!(names, vec!["retrieve", "store"]);
    assert_eq!(interface.functions[1].inputs.len(), 1);
    assert_eq!(interface.functions[1].inputs[0].name, "num");
    assert_eq!(interface.functions[1].inputs[0].kind, ParamKind::Uint(256));
}

#[test]
fn call_without_arguments_decodes() {
    let interface = parse_interface(STORE_ABI).unwrap();
    let call = decode_function_call(&interface, "0x2e64cec1").unwrap();
    assert_eq!(call.name, "retrieve");
    assert!(call.arguments.is_empty());
}

#[test]
fn what_was_encoded_is_decoded() {
    let f = function("transferMany", &["address", "uint256[]", "string", "bool", "bytes4"]);
    let tokens = vec![
        Token::Address(ethabi::Address::from_low_u64_be(0xabcdef)),
        Token::Array(vec![Token::Uint(1u64.into()), Token::Uint(2u64.into())]),
        Token::String("to the moon".to_string()),
        Token::Bool(true),
        Token::FixedBytes(vec![1, 2, 3, 4]),
    ];
    let data = call_data(&f, &tokens);
    let interface = InterfaceDefinition {
        functions: vec![function("approve", &["address", "uint256"]), f],
    };
    let call = decode_call_bytes(&interface, &data).unwrap();
    assert_eq!(call.name, "transferMany");
    let decoded: Vec<Token> = call.arguments.iter().map(|a| a.token.clone()).collect();
    assert_eq!(decoded, tokens);
    let texts: Vec<String> = call.arguments.iter().map(|a| a.text.clone()).collect();
    let expected: Vec<String> = tokens.iter().map(|t| format!("{:?}", t)).collect();
    assert_eq!(texts, expected);
}

#[test]
fn tuples_are_decoded() {
    let f = function("submit", &["(uint256,address)", "(bool,string)[]"]);
    let tokens = vec![
        Token::Tuple(vec![
            Token::Uint(7u64.into()),
            Token::Address(ethabi::Address::from_low_u64_be(9)),
        ]),
        Token::Array(vec![Token::Tuple(vec![Token::Bool(false), Token::String("x".into())])]),
    ];
    let data = call_data(&f, &tokens);
    let interface = InterfaceDefinition { functions: vec![f] };
    let call = decode_call_bytes(&interface, &data).unwrap();
    let decoded: Vec<Token> = call.arguments.iter().map(|a| a.token.clone()).collect();
    assert_eq!(decoded, tokens);
}

#[test]
fn overloads_are_told_apart_by_their_selectors() {
    let one = function("set", &["uint256"]);
    let two = function("set", &["uint256", "uint256"]);
    assert_ne!(one.selector(), two.selector());
    let data = call_data(&two, &[Token::Uint(5u64.into()), Token::Uint(6u64.into())]);
    let interface = InterfaceDefinition { functions: vec![one, two] };
    let call = decode_call_bytes(&interface, &data).unwrap();
    assert_eq!(call.name, "set");
    assert_eq!(call.arguments.len(), 2);
    assert_eq!(call.arguments[1].token, Token::Uint(6u64.into()));
}

#[test]
fn first_function_that_takes_the_call_wins() {
    let transfer = function("transfer", &["address", "uint256"]);
    let other = function("many_msg_babbage", &["bytes1"]);
    assert_eq!(transfer.selector(), Some([0xa9, 0x05, 0x9c, 0xbb]));
    assert_eq!(other.selector(), transfer.selector());
    let data = call_data(
        &transfer,
        &[Token::Address(ethabi::Address::from_low_u64_be(1)), Token::Uint(2u64.into())],
    );
    let interface = InterfaceDefinition {
        functions: vec![
            function("many_msg_babbage", &["bytes1"]),
            function("transfer", &["address", "uint256"]),
        ],
    };
    let call = decode_call_bytes(&interface, &data).unwrap();
    assert_eq!(call.name, "many_msg_babbage");
    assert_eq!(call.arguments.len(), 1);
    assert_eq!(call.arguments[0].token, Token::FixedBytes(vec![0]));
    let interface = InterfaceDefinition { functions: vec![transfer, other] };
    let call = decode_call_bytes(&interface, &data).unwrap();
    assert_eq!(call.name, "transfer");
    assert_eq!(call.arguments[1].token, Token::Uint(2u64.into()));
}

#[test]
fn function_by_whose_types_the_data_does_not_decode_is_passed_over() {
    let transfer = function("transfer", &["address", "uint256"]);
    let other = function("many_msg_babbage", &["bytes1"]);
    let data = call_data(&other, &[Token::FixedBytes(vec![0x7f])]);
    assert_eq!(data.len(), 36);
    let interface = InterfaceDefinition { functions: vec![transfer, other] };
    let call = decode_call_bytes(&interface, &data).unwrap();
    assert_eq!(call.name, "many_msg_babbage");
    assert_eq!(call.arguments[0].token, Token::FixedBytes(vec![0x7f]));
    assert_eq!(call.arguments[0].text, "FixedBytes([127])");
}

#[test]
fn unknown_selector_is_reported_in_hex() {
    let interface = parse_interface(STORE_ABI).unwrap();
    let r = decode_function_call(&interface, "0xdeadbeef00");
    match r {
        Err(DecodeError::SelectorNotFound(selector)) => assert_eq!(selector, "0xdeadbeef"),
        _ => panic!("expected SelectorNotFound"),
    }
    let r = decode_call_bytes(&interface, &[0x01, 0x02, 0xab, 0xff]);
    match r {
        Err(e) => {
            assert!(matches!(e, DecodeError::SelectorNotFound(_)));
            assert_eq!(
                e.message(),
                "No se encontró función coincidente para el selector: 0x0102abff"
            );
        }
        Ok(_) => panic!("expected SelectorNotFound"),
    }
}

#[test]
fn matching_selector_with_bad_payload_is_passed_over() {
    let interface = parse_interface(STORE_ABI).unwrap();
    let r = decode_function_call(&interface, "0x6057361d0000");
    match r {
        Err(DecodeError::SelectorNotFound(selector)) => assert_eq!(selector, "0x6057361d"),
        _ => panic!("expected SelectorNotFound"),
    }
}

#[test]
fn short_call_data_is_refused_whatever_the_interface() {
    let empty = InterfaceDefinition { functions: vec![] };
    let full = parse_interface(STORE_ABI).unwrap();
    for data in [&[][..], &[0x60][..], &[0x60, 0x57, 0x36][..]] {
        assert!(matches!(decode_call_bytes(&empty, data), Err(DecodeError::CallDataTooShort)));
        assert!(matches!(decode_call_bytes(&full, data), Err(DecodeError::CallDataTooShort)));
    }
    assert!(matches!(decode_function_call(&full, "0x"), Err(DecodeError::CallDataTooShort)));
    assert!(matches!(decode_function_call(&full, ""), Err(DecodeError::CallDataTooShort)));
    assert!(matches!(decode_function_call(&full, "0x605736"), Err(DecodeError::CallDataTooShort)));
    let r = decode_function_call(&full, "0x605736");
    assert_eq!(r.err().unwrap().message(), "Datos de llamada muy cortos");
}

#[test]
fn four_bytes_are_long_enough() {
    let empty = InterfaceDefinition { functions: vec![] };
    assert!(matches!(
        decode_call_bytes(&empty, &[1, 2, 3, 4]),
        Err(DecodeError::SelectorNotFound(_))
    ));
}

#[test]
fn call_data_that_is_not_hex_is_malformed() {
    let interface = parse_interface(STORE_ABI).unwrap();
    for text in ["0x6057361g", "0x123", "zz", "0x60 57 36 1d", "0X6057361d", "0x6057361dé"] {
        let r = decode_function_call(&interface, text);
        assert!(matches!(r, Err(DecodeError::MalformedCallData(_))), "{}", text);
    }
    let r = decode_function_call(&interface, "0x123");
    assert_eq!(r, Err(DecodeError::MalformedCallData("Odd number of digits".to_string())));
    let r = decode_function_call(&interface, "0x6057361g");
    let words = hex::decode("6057361g").err().unwrap().to_string();
    assert_eq!(words, "Invalid character 'g' at position 7");
    assert_eq!(r.err().unwrap().message(), words);
}

#[test]
fn function_with_an_unbounded_type_has_a_selector_and_takes_nothing() {
    let empty = || ParamKind::Tuple(vec![]);
    for unbounded in [
        ParamKind::FixedBytes(33),
        ParamKind::FixedBytes(usize::MAX),
        ParamKind::Array(Box::new(empty())),
        ParamKind::FixedArray(Box::new(empty()), usize::MAX),
        ParamKind::Array(Box::new(ParamKind::FixedArray(Box::new(ParamKind::Bool), 0))),
        ParamKind::Array(Box::new(ParamKind::Tuple(vec![empty(), empty()]))),
        ParamKind::Tuple(vec![ParamKind::Bool, ParamKind::FixedBytes(64)]),
    ] {
        let f = function_of("f", vec![ParamKind::Uint(256), unbounded]);
        assert!(!f.check_bounded_kinds());
        assert!(f.check_nested_kinds());
        let mut data = f.selector().unwrap().to_vec();
        data.extend([0u8; 28]);
        data.extend([0xffu8; 4]);
        data.extend([0u8; 64]);
        let interface = InterfaceDefinition { functions: vec![f] };
        let r = decode_call_bytes(&interface, &data);
        assert!(matches!(r, Err(DecodeError::SelectorNotFound(_))));
    }
    let f = function_of("f", vec![ParamKind::FixedBytes(33)]);
    assert_eq!(
        f.selector(),
        Some(ethabi::short_signature("f", &[ParamType::FixedBytes(33)]))
    );
}

#[test]
fn function_with_a_type_nested_too_deep_has_no_selector() {
    let mut deep = ParamKind::Bool;
    for _ in 0..33 {
        deep = ParamKind::Array(Box::new(deep));
    }
    let f = function_of("f", vec![ParamKind::Uint(256), deep]);
    assert_eq!(f.selector(), None);
    assert!(!f.check_nested_kinds());
    assert!(!f.check_bounded_kinds());
    let interface = InterfaceDefinition { functions: vec![f] };
    let r = decode_call_bytes(&interface, &[0u8; 100]);
    assert!(matches!(r, Err(DecodeError::SelectorNotFound(_))));
}

#[test]
fn bounded_types_have_a_selector() {
    let mut deep = ParamKind::Bool;
    for _ in 0..32 {
        deep = ParamKind::Array(Box::new(deep));
    }
    for bounded in [
        ParamKind::Tuple(vec![]),
        ParamKind::FixedBytes(0),
        ParamKind::FixedBytes(32),
        ParamKind::FixedArray(Box::new(ParamKind::Bool), 0),
        ParamKind::FixedArray(Box::new(ParamKind::Bool), usize::MAX),
        ParamKind::Array(Box::new(ParamKind::Tuple(vec![ParamKind::Tuple(vec![]), ParamKind::Bool]))),
        ParamKind::Int(7),
        ParamKind::Uint(usize::MAX),
        deep,
    ] {
        let f = function_of("f", vec![bounded]);
        assert!(f.check_bounded_kinds());
        assert!(f.check_nested_kinds());
        assert!(f.selector().is_some());
        let interface = InterfaceDefinition { functions: vec![f] };
        let _ = decode_call_bytes(&interface, &[0xffu8; 100]);
    }
}

#[test]
fn selector_is_that_of_the_canonical_signature() {
    let f = function("transfer", &["address", "uint256"]);
    assert_eq!(f.selector(), Some([0xa9, 0x05, 0x9c, 0xbb]));
    let f = function("baz", &["uint32", "bool"]);
    assert_eq!(f.selector(), Some([0xcd, 0xcd, 0x77, 0xc0]));
    let f = function_of(
        "f",
        vec![ParamKind::Tuple(vec![
            ParamKind::Tuple(vec![ParamKind::Uint(8), ParamKind::Uint(8)]),
            ParamKind::Tuple(vec![
                ParamKind::Uint(8),
                ParamKind::Tuple(vec![ParamKind::Bool, ParamKind::Str]),
            ]),
        ])],
    );
    let outside = ParamType::Tuple(vec![
        ParamType::Tuple(vec![ParamType::Uint(8), ParamType::Uint(8)]),
        ParamType::Tuple(vec![
            ParamType::Uint(8),
            ParamType::Tuple(vec![ParamType::Bool, ParamType::String]),
        ]),
    ]);
    assert_eq!(outside.to_string(), "((uint8,uint8),(uint8,(bool,string)))");
    assert_eq!(f.selector(), Some(ethabi::short_signature("f", &[outside])));
}

#[test]
fn tuples_nested_three_deep_are_decoded() {
    let inner = ParamKind::Tuple(vec![ParamKind::Bool, ParamKind::Str]);
    let middle = ParamKind::Tuple(vec![ParamKind::Uint(8), inner]);
    let outer = ParamKind::Tuple(vec![
        ParamKind::Tuple(vec![ParamKind::Uint(8), ParamKind::Uint(8)]),
        middle,
    ]);
    let f = function_of("f", vec![outer]);
    let tokens = vec![Token::Tuple(vec![
        Token::Tuple(vec![Token::Uint(1u64.into()), Token::Uint(2u64.into())]),
        Token::Tuple(vec![
            Token::Uint(3u64.into()),
            Token::Tuple(vec![Token::Bool(true), Token::String("deep".to_string())]),
        ]),
    ])];
    let data = call_data(&f, &tokens);
    let interface = InterfaceDefinition { functions: vec![f] };
    let call = decode_call_bytes(&interface, &data).unwrap();
    let decoded: Vec<Token> = call.arguments.iter().map(|a| a.token.clone()).collect();
    assert_eq!(decoded, tokens);
}

#[test]
fn huge_lengths_in_call_data_are_refused_not_followed() {
    let f = function("f", &["uint256[]", "bytes"]);
    let mut data = f.selector().unwrap().to_vec();
    data.extend([0u8; 28]);
    data.extend([0xff, 0xff, 0xff, 0xff]);
    data.extend([0xffu8; 64]);
    let interface = InterfaceDefinition { functions: vec![f] };
    assert!(matches!(decode_call_bytes(&interface, &data), Err(DecodeError::SelectorNotFound(_))));
}

#[test]
fn text_that_is_not_json_is_malformed() {
    assert_eq!(parse_interface("not json").err(), Some(InterfaceError::Malformed));
    assert_eq!(parse_interface("").err(), Some(InterfaceError::Malformed));
    assert_eq!(parse_interface("{\"a\":1}").err(), Some(InterfaceError::Malformed));
    assert_eq!(parse_interface("[{\"type\":\"function\"}]").err(), Some(InterfaceError::Malformed));
}

#[test]
fn text_with_a_stray_bracket_in_a_string_is_not_handed_on() {
    let poisoned = r#"[{"inputs":[{"name":"x","type":"]"}],"name":"f","outputs":[],"type":"function"}]"#;
    assert_eq!(parse_interface(poisoned).err(), Some(InterfaceError::Unsupported));
    let digits = r#"[{"inputs":[{"name":"x","type":"12]"}],"name":"f","outputs":[],"type":"function"}]"#;
    assert_eq!(parse_interface(digits).err(), Some(InterfaceError::Unsupported));
    let escaped = r#"[{"inputs":[{"name":"x","type":"\u005d"}],"name":"f","outputs":[],"type":"function"}]"#;
    assert_eq!(parse_interface(escaped).err(), Some(InterfaceError::Unsupported));
    let beyond = r#"[{"inputs":[{"name":"x","type":"é[]"}],"name":"f","outputs":[],"type":"function"}]"#;
    assert_eq!(parse_interface(beyond).err(), Some(InterfaceError::Unsupported));
    let long = format!(
        "[{{\"inputs\":[{{\"name\":\"x\",\"type\":\"uint8{}\"}}],\"name\":\"f\",\"outputs\":[],\"type\":\"function\"}}]",
        "[]".repeat(126)
    );
    assert_eq!(parse_interface(&long).err(), Some(InterfaceError::Unsupported));
}

#[test]
fn text_with_escapes_and_characters_beyond_ascii_is_read() {
    let escaped = r#"[{"name":"f\u006f","type":"function","inputs":[],"outputs":[]}]"#;
    let interface = parse_interface(escaped).unwrap();
    assert_eq!(interface.functions[0].name, "fo");

    let abi = "[\n  {\"name\": \"caf\u{e9}\", \"type\": \"function\", \"outputs\": [],\n   \"inputs\": [{\"name\": \"a \\\"b\\\" \\\\ c\\n\", \"type\": \"uint8[2][]\", \"internalType\": \"enum \u{dc}ber.Ma\u{df}\"}]}\n]";
    let interface = parse_interface(abi).unwrap();
    let f = &interface.functions[0];
    assert_eq!(f.name, "caf\u{e9}");
    assert_eq!(f.inputs[0].name, "a \"b\" \\ c\n");
    assert_eq!(
        f.inputs[0].kind,
        ParamKind::Array(Box::new(ParamKind::FixedArray(Box::new(ParamKind::Uint(8)), 2)))
    );

    let quoted = r#"[{"name":"f","type":"function","outputs":[],"inputs":[{"name":"x","type":"bool","internalType":"enum \"A\\B\"[]"}]}]"#;
    let interface = parse_interface(quoted).unwrap();
    assert_eq!(interface.functions[0].inputs[0].kind, ParamKind::Bool);

    let spaced = format!(
        "[{}{{\"name\":\"{}\",\"type\":\"function\",\"inputs\":[],\"outputs\":[]}}]",
        " ".repeat(5000),
        "n".repeat(1000)
    );
    let interface = parse_interface(&spaced).unwrap();
    assert_eq!(interface.functions[0].name.len(), 1000);
}

#[test]
fn text_is_read_as_a_value_with_every_name_once() {
    let twice = r#"[{"name":"f","name":"g","type":"function","inputs":[],"outputs":[]}]"#;
    let interface = parse_interface(twice).unwrap();
    assert_eq!(interface.functions[0].name, "g");
}

#[test]
fn arrays_and_tuples_of_an_interface_are_written_canonically() {
    let abi = r#"[
      {"type":"function","name":"f","outputs":[],"stateMutability":"nonpayable","inputs":[
        {"name":"a","type":"uint8[3][]"},
        {"name":"b","type":"tuple[]","components":[{"name":"x","type":"address"},{"name":"y","type":"bytes32"}]}
      ]},
      {"type":"event","name":"E","anonymous":false,"inputs":[{"name":"v","type":"uint256","indexed":true}]},
      {"type":"constructor","inputs":[],"stateMutability":"nonpayable"}
    ]"#;
    let interface = parse_interface(abi).unwrap();
    assert_eq!(interface.functions.len(), 1);
    let f = &interface.functions[0];
    assert_eq!(
        f.inputs[0].kind,
        ParamKind::Array(Box::new(ParamKind::FixedArray(Box::new(ParamKind::Uint(8)), 3)))
    );
    assert_eq!(
        f.inputs[1].kind,
        ParamKind::Array(Box::new(ParamKind::Tuple(vec![
            ParamKind::Address,
            ParamKind::FixedBytes(32)
        ])))
    );
    assert!(f.check_bounded_kinds());
    assert!(f.selector().is_some());
}

#[test]
fn overloads_of_a_name_are_listed_in_order() {
    let interface = InterfaceDefinition {
        functions: vec![
            function("approve", &["address", "uint256"]),
            function("set", &["uint256"]),
            function("set", &["uint256", "uint256"]),
            function("transfer", &["address", "uint256"]),
            function("set", &[]),
        ],
    };
    assert_eq!(interface.overloads("set"), vec![1, 2, 4]);
    assert_eq!(interface.overloads("approve"), vec![0]);
    assert_eq!(interface.overloads("Set"), Vec::<usize>::new());
    assert_eq!(interface.overloads(""), Vec::<usize>::new());
    let abi = r#"[{"type":"function","name":"b","inputs":[{"name":"x","type":"bool"}],"outputs":[]},
        {"type":"function","name":"a","inputs":[],"outputs":[]},
        {"type":"function","name":"b","inputs":[],"outputs":[]}]"#;
    let interface = parse_interface(abi).unwrap();
    assert_eq!(interface.overloads("b"), vec![1, 2]);
    assert_eq!(interface.functions[1].inputs.len(), 1);
    assert_eq!(interface.functions[2].inputs.len(), 0);
}

#[test]
fn every_kind_of_type_is_carried_to_the_decoder_and_back_from_the_loader() {
    let texts = [
        "address", "bytes", "int64", "uint256", "bool", "string", "uint8[]", "bytes7", "bool[3]",
    ];
    let outside = vec![
        ParamType::Address,
        ParamType::Bytes,
        ParamType::Int(64),
        ParamType::Uint(256),
        ParamType::Bool,
        ParamType::String,
        ParamType::Array(Box::new(ParamType::Uint(8))),
        ParamType::FixedBytes(7),
        ParamType::FixedArray(Box::new(ParamType::Bool), 3),
        ParamType::Tuple(vec![ParamType::Int(8), ParamType::Bytes]),
    ];
    let kinds = vec![
        ParamKind::Address,
        ParamKind::Bytes,
        ParamKind::Int(64),
        ParamKind::Uint(256),
        ParamKind::Bool,
        ParamKind::Str,
        ParamKind::Array(Box::new(ParamKind::Uint(8))),
        ParamKind::FixedBytes(7),
        ParamKind::FixedArray(Box::new(ParamKind::Bool), 3),
        ParamKind::Tuple(vec![ParamKind::Int(8), ParamKind::Bytes]),
    ];
    let f = function_of("all", kinds);
    assert_eq!(f.selector(), Some(ethabi::short_signature("all", &outside)));

    let mut inputs: Vec<String> =
        texts.iter().map(|t| format!("{{\"name\":\"p\",\"type\":\"{}\"}}", t)).collect();
    inputs.push(
        "{\"name\":\"p\",\"type\":\"tuple\",\"components\":[{\"name\":\"a\",\"type\":\"int8\"},{\"name\":\"b\",\"type\":\"bytes\"}]}"
            .to_string(),
    );
    let abi = format!(
        "[{{\"type\":\"function\",\"name\":\"all\",\"outputs\":[],\"inputs\":[{}]}}]",
        inputs.join(",")
    );
    let interface = parse_interface(&abi).unwrap();
    let read: Vec<&ParamKind> = interface.functions[0].inputs.iter().map(|p| &p.kind).collect();
    let written: Vec<&ParamKind> = f.inputs.iter().map(|p| &p.kind).collect();
    assert_eq!(read, written);

    let tokens = vec![
        Token::Address(ethabi::Address::from_low_u64_be(5)),
        Token::Bytes(vec![1, 2, 3]),
        Token::Int(9u64.into()),
        Token::Uint(10u64.into()),
        Token::Bool(false),
        Token::String("s".to_string()),
        Token::Array(vec![Token::Uint(1u64.into())]),
        Token::FixedBytes(vec![1, 2, 3, 4, 5, 6, 7]),
        Token::FixedArray(vec![Token::Bool(true), Token::Bool(false), Token::Bool(true)]),
        Token::Tuple(vec![Token::Int(3u64.into()), Token::Bytes(vec![])]),
    ];
    let data = call_data(&f, &tokens);
    let call = decode_call_bytes(&interface, &data).unwrap();
    let decoded: Vec<Token> = call.arguments.iter().map(|a| a.token.clone()).collect();
    assert_eq!(decoded, tokens);
}
