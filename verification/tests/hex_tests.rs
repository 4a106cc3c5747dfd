use calldata_interpreter::address::Address;
use calldata_interpreter::hexcode::{from_marked_hex, to_marked_hex};

#[test]
fn bytes_are_written_in_lower_case() {
    assert_eq!(to_marked_hex(&[]), "0x");
    assert_eq!(to_marked_hex(&[0x00, 0x0f, 0xa0, 0xff, 0x9a]), "0x000fa0ff9a");
}

#[test]
fn hex_is_read_in_either_case_with_or_without_marker() {
    assert_eq!(from_marked_hex("0x000fA0Ff").ok(), Some(vec![0x00, 0x0f, 0xa0, 0xff]));
    assert_eq!(from_marked_hex("000fa0ff").ok(), Some(vec![0x00, 0x0f, 0xa0, 0xff]));
    assert_eq!(from_marked_hex("0x").ok(), Some(vec![]));
    assert_eq!(from_marked_hex("").ok(), Some(vec![]));
    assert_eq!(from_marked_hex("0x10").ok(), Some(vec![0x10]));
}

#[test]
fn only_one_marker_is_dropped() {
    assert!(from_marked_hex("0x0x10").is_err());
    assert!(from_marked_hex("0X10").is_err());
    assert!(from_marked_hex("x010").is_err());
}

#[test]
fn odd_or_foreign_text_is_not_hex() {
    for text in ["0", "0x0", "abc", "0xgg", "12 34", "١٢", "0x12\n", "é"] {
        assert!(from_marked_hex(text).is_err(), "{}", text);
    }
}

#[test]
fn every_byte_comes_back() {
    let all: Vec<u8> = (0..=255).collect();
    assert_eq!(from_marked_hex(&to_marked_hex(&all)).ok(), Some(all));
}

#[test]
fn address_is_read_and_written() {
    let text = "0x00000000219ab540356cBB839Cbe05303d7705Fa";
    let address = Address::parse(text).ok().unwrap();
    assert_eq!(address.bytes[0], 0);
    assert_eq!(address.bytes[4], 0x21);
    assert_eq!(address.bytes[19], 0xfa);
    assert_eq!(address.to_text(), "0x00000000219ab540356cbb839cbe05303d7705fa");
    assert_eq!(Address::parse(&address.to_text()).ok(), Some(address));
}

#[test]
fn address_is_read_without_marker_and_across_white_space() {
    let plain = Address::parse("00000000219ab540356cbb839cbe05303d7705fa").ok().unwrap();
    let spaced = Address::parse("0x00000000 219ab540\t356cbb83\r\n9cbe0530 3d7705fa \n").ok().unwrap();
    assert_eq!(plain, spaced);
    assert_eq!(plain.to_text(), "0x00000000219ab540356cbb839cbe05303d7705fa");
}

#[test]
fn text_that_holds_no_address_is_refused_with_a_reason() {
    for text in [
        "",
        "0x",
        "0x1234",
        "0x00000000219ab540356cbb839cbe05303d7705f",
        "0x00000000219ab540356cbb839cbe05303d7705fa0",
        "0x00000000219ab540356cbb839cbe05303d7705fa00",
        "0x00000000219ab540356cbb839cbe05303d7705fg",
        " 0x00000000219ab540356cbb839cbe05303d7705fa",
        "0x0x00000000219ab540356cbb839cbe05303d7705",
        "0x00000000219ab540356cbb839cbe05303d7705fa\u{a0}",
        "0x00000000219ab540356cbb839cbe05303d7705fé",
    ] {
        let r = Address::parse(text);
        assert!(r.is_err(), "{:?}", text);
        assert!(!r.err().unwrap().reason.is_empty());
    }
}
