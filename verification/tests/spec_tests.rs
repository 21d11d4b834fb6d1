use prism::error::PrismError;
use prism::spec_decoder::{
    decode_contract_spec, resolve_error_code, spec_from_payload_results, ContractErrorEntry,
    ContractFunction, ContractSpec,
};

#[test]
fn test_resolve_error_code_not_found() {
    let spec = ContractSpec {
        errors: vec![ContractErrorEntry { code: 1, name: "NotFound".to_string(), doc: None }],
        functions: Vec::new(),
        name: None,
        version: None,
    };
    assert!(resolve_error_code(&spec, 99).is_none());
    assert!(resolve_error_code(&spec, 1).is_some());
}

#[test]
fn resolve_returns_first_matching_entry() {
    let spec = ContractSpec {
        errors: vec![
            ContractErrorEntry { code: 2, name: "A".to_string(), doc: None },
            ContractErrorEntry { code: 3, name: "B".to_string(), doc: None },
            ContractErrorEntry { code: 3, name: "C".to_string(), doc: None },
        ],
        functions: Vec::new(),
        name: None,
        version: None,
    };
    assert_eq!(resolve_error_code(&spec, 3).unwrap().name, "B");
}

#[test]
fn empty_module_decodes_to_empty_spec() {
    let wasm = b"\0asm\x01\0\0\0";
    let spec = decode_contract_spec(wasm).unwrap();
    assert!(spec.errors.is_empty());
    assert!(spec.functions.is_empty());
    assert!(spec.name.is_none());
    assert!(spec.version.is_none());
}

fn word(v: u32) -> Vec<u8> {
    v.to_be_bytes().to_vec()
}

fn text(s: &str) -> Vec<u8> {
    let mut out = word(s.len() as u32);
    out.extend_from_slice(s.as_bytes());
    while out.len() % 4 != 0 {
        out.push(0);
    }
    out
}

fn leb(mut v: usize) -> Vec<u8> {
    let mut out = Vec::new();
    loop {
        let byte = (v & 0x7f) as u8;
        v >>= 7;
        if v == 0 {
            out.push(byte);
            return out;
        }
        out.push(byte | 0x80);
    }
}

fn custom_section(name: &str, data: &[u8]) -> Vec<u8> {
    let mut body = leb(name.len());
    body.extend_from_slice(name.as_bytes());
    body.extend_from_slice(data);
    let mut out = vec![0u8];
    out.extend(leb(body.len()));
    out.extend(body);
    out
}

fn module(sections: &[Vec<u8>]) -> Vec<u8> {
    let mut wasm = b"\0asm\x01\0\0\0".to_vec();
    for s in sections {
        wasm.extend_from_slice(s);
    }
    wasm
}

fn spec_section() -> Vec<u8> {
    let mut d = Vec::new();
    // A struct entry, read past.
    d.extend(word(1));
    d.extend(text(""));
    d.extend(text(""));
    d.extend(text("Point"));
    d.extend(word(1));
    d.extend(text(""));
    d.extend(text("x"));
    d.extend(word(4));
    // A function entry.
    d.extend(word(0));
    d.extend(text("Transfers"));
    d.extend(text("transfer"));
    d.extend(word(5));
    d.extend(text(""));
    d.extend(text("from"));
    d.extend(word(19));
    d.extend(text(""));
    d.extend(text("amount"));
    d.extend(word(11));
    d.extend(text(""));
    d.extend(text("pair"));
    d.extend(word(1005));
    d.extend(word(2));
    d.extend(word(4));
    d.extend(word(1));
    d.extend(text(""));
    d.extend(text("key"));
    d.extend(word(1006));
    d.extend(word(32));
    d.extend(text(""));
    d.extend(text("token"));
    d.extend(word(2000));
    d.extend(text("Token"));
    d.extend(word(1));
    d.extend(word(1000));
    d.extend(word(1002));
    d.extend(word(4));
    // An error enum entry.
    d.extend(word(4));
    d.extend(text(""));
    d.extend(text(""));
    d.extend(text("Error"));
    d.extend(word(2));
    d.extend(text(""));
    d.extend(text("NotFound"));
    d.extend(word(1));
    d.extend(text("Not enough"));
    d.extend(text("InsufficientBalance"));
    d.extend(word(2));
    d
}

fn meta_section() -> Vec<u8> {
    let mut d = Vec::new();
    for (k, v) in [("rsver", "1.80.0"), ("name", "token"), ("binver", "1.2.0")] {
        d.extend(word(0));
        d.extend(text(k));
        d.extend(text(v));
    }
    d
}

#[test]
fn spec_and_meta_sections_are_decoded() {
    let wasm = module(&[
        custom_section("contractspecv0", &spec_section()),
        custom_section("contractmetav0", &meta_section()),
    ]);
    let spec = decode_contract_spec(&wasm).unwrap();
    assert_eq!(spec.errors.len(), 2);
    assert_eq!((spec.errors[0].code, spec.errors[0].name.as_str()), (1, "NotFound"));
    assert!(spec.errors[0].doc.is_none());
    assert_eq!((spec.errors[1].code, spec.errors[1].name.as_str()), (2, "InsufficientBalance"));
    assert_eq!(spec.errors[1].doc.as_deref(), Some("Not enough"));
    assert_eq!(spec.functions.len(), 1);
    let f: &ContractFunction = &spec.functions[0];
    assert_eq!(f.name, "transfer");
    assert_eq!(f.doc.as_deref(), Some("Transfers"));
    let params: Vec<(&str, &str)> =
        f.params.iter().map(|(n, t)| (n.as_str(), t.as_str())).collect();
    assert_eq!(
        params,
        vec![
            ("from", "Address"),
            ("amount", "i128"),
            ("pair", "(u32, bool)"),
            ("key", "BytesN<32>"),
            ("token", "Token"),
        ]
    );
    assert_eq!(f.return_type, "Option<Vec<u32>>");
    assert_eq!(spec.name.as_deref(), Some("token"));
    assert_eq!(spec.version.as_deref(), Some("1.2.0"));
    assert_eq!(resolve_error_code(&spec, 2).unwrap().name, "InsufficientBalance");
}

#[test]
fn function_without_outputs_returns_unit() {
    let mut d = word(0);
    d.extend(text(""));
    d.extend(text("ping"));
    d.extend(word(0));
    d.extend(word(0));
    let spec = decode_contract_spec(&module(&[custom_section("contractspecv0", &d)])).unwrap();
    assert_eq!(spec.functions[0].return_type, "()");
    assert!(spec.functions[0].params.is_empty());
    assert!(spec.functions[0].doc.is_none());
}

#[test]
fn sections_that_do_not_decode_are_skipped() {
    let wasm = module(&[custom_section("contractspecv0", &[7])]);
    let spec = decode_contract_spec(&wasm).unwrap();
    assert!(spec.errors.is_empty() && spec.functions.is_empty());

    // A malformed meta section after a good one leaves the name and version.
    let mut bad_meta = word(0);
    bad_meta.extend(text("name"));
    bad_meta.extend(text("other"));
    bad_meta.extend(word(1));
    let wasm = module(&[
        custom_section("contractspecv0", &spec_section()),
        custom_section("contractmetav0", &meta_section()),
        custom_section("contractspecv0", &[0, 0, 0, 9]),
        custom_section("contractmetav0", &bad_meta),
    ]);
    let spec = decode_contract_spec(&wasm).unwrap();
    assert_eq!(spec.errors.len(), 2);
    assert_eq!(spec.functions.len(), 1);
    assert_eq!(spec.name.as_deref(), Some("token"));
    assert_eq!(spec.version.as_deref(), Some("1.2.0"));
}

#[test]
fn later_meta_sections_override_only_what_they_declare() {
    let mut only_name = word(0);
    only_name.extend(text("name"));
    only_name.extend(text("renamed"));
    let r = spec_from_payload_results(&vec![
        Ok(Some(("contractmetav0".to_string(), meta_section()))),
        Ok(Some(("contractmetav0".to_string(), vec![0, 0, 0, 1]))),
        Ok(Some(("contractmetav0".to_string(), only_name))),
    ])
    .unwrap();
    assert_eq!(r.name.as_deref(), Some("renamed"));
    assert_eq!(r.version.as_deref(), Some("1.2.0"));
}

#[test]
fn other_custom_sections_are_passed_over() {
    let wasm = module(&[custom_section("producers", &[1, 2, 3])]);
    let spec = decode_contract_spec(&wasm).unwrap();
    assert!(spec.errors.is_empty() && spec.functions.is_empty());
}

#[test]
fn malformed_module_is_a_spec_error() {
    match decode_contract_spec(b"not wasm") {
        Err(PrismError::SpecError(m)) => assert!(m.starts_with("WASM parse error: ")),
        other => panic!("unexpected {other:?}"),
    }
}

#[test]
fn payload_results_report_first_error() {
    let r = spec_from_payload_results(&vec![Ok(None), Err("bad magic".to_string())]);
    match r {
        Err(PrismError::SpecError(m)) => assert_eq!(m, "WASM parse error: bad magic"),
        other => panic!("unexpected {other:?}"),
    }
    let r = spec_from_payload_results(&vec![
        Ok(None),
        Ok(Some(("contractmetav0".to_string(), meta_section()))),
    ])
    .unwrap();
    assert_eq!(r.name.as_deref(), Some("token"));
    assert_eq!(r.version.as_deref(), Some("1.2.0"));
}
