use contract_registry::address::parse_address;
use contract_registry::book::{lookup_address, AddressBook};
use contract_registry::errors::RegistryError;

fn book(text: &str) -> AddressBook {
    AddressBook::new(text.to_owned())
}

#[test]
fn lookup_returns_the_parsed_address_exactly() {
    let b = book(r#"{"Foo": {"address": "0xabcabcabcabcabcabcabcabcabcabcabcabcadef"}}"#);
    let a = lookup_address(&b, "Foo").unwrap();
    let mut expected = vec![0xabu8, 0xca, 0xbc, 0xab, 0xca, 0xbc, 0xab, 0xca, 0xbc, 0xab];
    expected.extend_from_slice(&[0xca, 0xbc, 0xab, 0xca, 0xbc, 0xab, 0xca, 0xbc, 0xad, 0xef]);
    assert_eq!(a.bytes, expected);
}

#[test]
fn lookup_accepts_upper_case_hex() {
    let b = book(r#"{"Foo": {"address": "0x00000000000000000000000000000000000000FF"}}"#);
    let a = lookup_address(&b, "Foo").unwrap();
    assert_eq!(a.bytes[19], 0xff);
    assert_eq!(a.bytes[0], 0);
    assert_eq!(a.bytes.len(), 20);
}

#[test]
fn lookup_accepts_a_bare_hex_address() {
    let b = book(r#"{"Foo": {"address": "00000000000000000000000000000000000000ff"}}"#);
    let a = lookup_address(&b, "Foo").unwrap();
    assert_eq!(a.bytes[19], 0xff);
}

#[test]
fn lookup_missing_key_is_unknown_contract() {
    let b = book(r#"{"Foo": {"address": "0x00000000000000000000000000000000000000ff"}}"#);
    assert_eq!(lookup_address(&b, "Bar").unwrap_err(), RegistryError::UnknownContract);
}

#[test]
fn lookup_missing_address_field_is_unknown_contract() {
    let b = book(r#"{"Bar": {"addr": "0x00000000000000000000000000000000000000ff"}}"#);
    assert_eq!(lookup_address(&b, "Bar").unwrap_err(), RegistryError::UnknownContract);
}

#[test]
fn lookup_non_string_address_is_unknown_contract() {
    let b = book(r#"{"Bar": {"address": 7}}"#);
    assert_eq!(lookup_address(&b, "Bar").unwrap_err(), RegistryError::UnknownContract);
}

#[test]
fn lookup_in_a_non_json_book_is_malformed_address_book() {
    let b = book("not json at all");
    assert_eq!(lookup_address(&b, "Foo").unwrap_err(), RegistryError::MalformedAddressBook);
    let empty = book("");
    assert_eq!(lookup_address(&empty, "Foo").unwrap_err(), RegistryError::MalformedAddressBook);
}

#[test]
fn lookup_short_address_is_invalid_format() {
    let b = book(r#"{"Foo": {"address": "0x00ff"}}"#);
    assert_eq!(lookup_address(&b, "Foo").unwrap_err(), RegistryError::InvalidAddressFormat);
}

#[test]
fn lookup_long_address_is_invalid_format() {
    let b = book(r#"{"Foo": {"address": "0x00000000000000000000000000000000000000ff00"}}"#);
    assert_eq!(lookup_address(&b, "Foo").unwrap_err(), RegistryError::InvalidAddressFormat);
}

#[test]
fn lookup_bad_charset_is_invalid_format() {
    let b = book(r#"{"Foo": {"address": "0x00000000000000000000000000000000000000zz"}}"#);
    assert_eq!(lookup_address(&b, "Foo").unwrap_err(), RegistryError::InvalidAddressFormat);
}

#[test]
fn parse_address_rejects_odd_prefixes() {
    assert!(parse_address("0X00000000000000000000000000000000000000ff").is_err());
    assert!(parse_address("").is_err());
    assert!(parse_address("0x").is_err());
}

// The chain tooling's hex decoder skips embedded whitespace; the registry's
// fixed-width grammar deliberately rejects it as an invalid charset.
#[test]
fn parse_address_rejects_embedded_whitespace() {
    let spaced = "0x00 00 0000000000000000000000000000000000ff";
    assert!(spaced.parse::<ethers::types::Address>().is_ok());
    assert!(parse_address(spaced).is_err());
}

#[test]
fn parse_address_agrees_with_the_chain_tooling() {
    let texts = [
        "0x0000000000000000000000000000000000dEaD00",
        "abcabcabcabcabcabcabcabcabcabcabcabcadef",
        "0xABCDEF0123456789abcdef0123456789ABCDEF01",
    ];
    for t in texts {
        let ours = parse_address(t).unwrap();
        let theirs: ethers::types::Address = t.parse().unwrap();
        assert_eq!(ours.bytes.as_slice(), theirs.as_bytes());
    }
    assert!("0x00zz".parse::<ethers::types::Address>().is_err());
    assert!(parse_address("0x00zz").is_err());
}
