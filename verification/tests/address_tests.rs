use prism::address::{Address, AddressType};

#[test]
fn account_strkey_round_trips() {
    let a = Address::new(vec![0u8; 32], AddressType::Account);
    let s = a.to_strkey();
    assert_eq!(s, "GAAAAAAAAAAAAAAAAAAAAAAAAAAAAAAAAAAAAAAAAAAAAAAAAAAAAWHF");
    assert_eq!(Address::from_strkey(&s).unwrap(), a);
}

#[test]
fn contract_strkey_round_trips() {
    let a = Address::new(vec![0u8; 32], AddressType::Contract);
    let s = a.to_strkey();
    assert_eq!(s, "CAAAAAAAAAAAAAAAAAAAAAAAAAAAAAAAAAAAAAAAAAAAAAAAAAAABSC4");
    assert_eq!(Address::from_strkey(&s).unwrap(), a);
    let b = Address::new((0u8..32).collect(), AddressType::Contract);
    assert_eq!(Address::from_strkey(&b.to_strkey()).unwrap(), b);
}

#[test]
fn invalid_strkey_is_named_in_error() {
    assert_eq!(Address::from_strkey("nope").unwrap_err(), "Invalid strkey: nope");
}

#[test]
fn string_form_is_the_strkey() {
    let a = Address::new(vec![0u8; 32], AddressType::Account);
    assert_eq!(a.clone().into_string(), a.to_strkey());
}

#[test]
fn decoded_parts_build_the_address() {
    let c = Address::from_decoded("x", Some(vec![1; 32]), None).unwrap();
    assert_eq!(c.address_type, AddressType::Contract);
    let a = Address::from_decoded("x", None, Some(vec![2; 32])).unwrap();
    assert_eq!(a.address_type, AddressType::Account);
    assert_eq!(Address::from_decoded("x", None, None).unwrap_err(), "Invalid strkey: x");
}

#[test]
fn strkeys_are_56_chars_with_type_prefix() {
    for bytes in [vec![0u8; 32], (0u8..32).collect::<Vec<u8>>(), vec![255u8; 32]] {
        let acct = Address::new(bytes.clone(), AddressType::Account).to_strkey();
        let contract = Address::new(bytes, AddressType::Contract).to_strkey();
        assert_eq!(acct.len(), 56);
        assert!(acct.starts_with('G'));
        assert_eq!(contract.len(), 56);
        assert!(contract.starts_with('C'));
    }
}

#[test]
fn decoding_then_encoding_gives_back_the_text() {
    for s in [
        "GAAAAAAAAAAAAAAAAAAAAAAAAAAAAAAAAAAAAAAAAAAAAAAAAAAAAWHF",
        "CAAAAAAAAAAAAAAAAAAAAAAAAAAAAAAAAAAAAAAAAAAAAAAAAAAABSC4",
    ] {
        let a = Address::from_strkey(s).unwrap();
        assert_eq!(a.to_strkey(), s);
        let expected = if s.starts_with('C') { AddressType::Contract } else { AddressType::Account };
        assert_eq!(a.address_type, expected);
    }
}
