use std::str::FromStr;

use ble_conformance::gatt::{
    CharPropFlags, AUTHENTICATED_SIGNED_WRITES, BROADCAST, EXTENDED_PROPERTIES, INDICATE, NOTIFY,
    READ, WRITE, WRITE_WITHOUT_RESPONSE,
};
use ble_conformance::identifier::{
    identifier_list_string, ADVERTISING_SERVICE, INDICATING_CHARACTERISTIC,
    NOTIFYING_CHARACTERISTIC, OTHER_SERVICE, STATIC_CHARACTERISTIC, WRITABLE_CHARACTERISTIC,
};
use ble_conformance::text::{decimal_string, thousandths_string};

fn parsed(text: &str) -> u128 {
    uuid::Uuid::from_str(text).unwrap().as_u128()
}

#[test]
fn expected_identifiers_are_the_documented_ones() {
    assert_eq!(ADVERTISING_SERVICE, parsed("46548881-E7D9-4DE1-BBB7-DB016F1C657D"));
    assert_eq!(OTHER_SERVICE, parsed("2BC08F60-17EB-431B-BEE7-329518164CD1"));
    assert_eq!(STATIC_CHARACTERISTIC, parsed("AF679F91-7239-402A-813D-55B5367E4A29"));
    assert_eq!(WRITABLE_CHARACTERISTIC, parsed("22E32A0E-1D8D-4300-B0DF-F996E44E65D3"));
    assert_eq!(NOTIFYING_CHARACTERISTIC, parsed("6482DF69-A273-4F69-BADC-18583BA9A523"));
    assert_eq!(INDICATING_CHARACTERISTIC, parsed("B0D2A14A-8205-4E07-9317-DC7D61951473"));
}

#[test]
fn decimal_of_small_and_large_numbers() {
    assert_eq!(decimal_string(0), "0");
    assert_eq!(decimal_string(7), "7");
    assert_eq!(decimal_string(10), "10");
    assert_eq!(decimal_string(1000), "1000");
    assert_eq!(decimal_string(90210), "90210");
    assert_eq!(decimal_string(u128::MAX), u128::MAX.to_string());
}

#[test]
fn thousandths_have_three_places() {
    assert_eq!(thousandths_string(0), "0.000");
    assert_eq!(thousandths_string(5), "0.005");
    assert_eq!(thousandths_string(4000), "4.000");
    assert_eq!(thousandths_string(12345), "12.345");
    assert_eq!(thousandths_string(1_000_070), "1000.070");
}

#[test]
fn empty_identifier_list() {
    assert_eq!(identifier_list_string(&Vec::new()), "[]");
}

#[test]
fn identifier_list_is_lower_case_in_the_order_given() {
    assert_eq!(
        identifier_list_string(&vec![OTHER_SERVICE]),
        "[2bc08f60-17eb-431b-bee7-329518164cd1]"
    );
    assert_eq!(
        identifier_list_string(&vec![OTHER_SERVICE, ADVERTISING_SERVICE, 0x1f]),
        "[2bc08f60-17eb-431b-bee7-329518164cd1, 46548881-e7d9-4de1-bbb7-db016f1c657d, \
         00000000-0000-0000-0000-00000000001f]"
    );
}

#[test]
fn identifier_list_agrees_with_the_identifier_crate() {
    let ids = vec![STATIC_CHARACTERISTIC, u128::MAX, 0, 0x0123456789abcdef_fedcba9876543210];
    let texts: Vec<String> =
        ids.iter().map(|id| uuid::Uuid::from_u128(*id).hyphenated().to_string()).collect();
    assert_eq!(identifier_list_string(&ids), format!("[{}]", texts.join(", ")));
}

#[test]
fn flag_bits_are_those_of_the_attribute_protocol() {
    assert_eq!(BROADCAST, 0x01);
    assert_eq!(READ, 0x02);
    assert_eq!(WRITE_WITHOUT_RESPONSE, 0x04);
    assert_eq!(WRITE, 0x08);
    assert_eq!(NOTIFY, 0x10);
    assert_eq!(INDICATE, 0x20);
    assert_eq!(AUTHENTICATED_SIGNED_WRITES, 0x40);
    assert_eq!(EXTENDED_PROPERTIES, 0x80);
}

#[test]
fn flag_sets_unite_and_compare() {
    let read = CharPropFlags::from_bits(READ);
    let both = read.union(CharPropFlags::from_bits(WRITE_WITHOUT_RESPONSE));
    assert_eq!(both.bits, 0x06);
    assert!(both.same(CharPropFlags::from_bits(0x06)));
    assert!(!both.same(read));
    assert_eq!(both, CharPropFlags { bits: READ | WRITE_WITHOUT_RESPONSE });
}

#[test]
fn flag_text_names_the_flags_in_ascending_order() {
    assert_eq!(CharPropFlags::from_bits(0).text(), "CharPropFlags(0x0)");
    assert_eq!(CharPropFlags::from_bits(READ).text(), "CharPropFlags(READ)");
    assert_eq!(
        CharPropFlags::from_bits(WRITE_WITHOUT_RESPONSE | READ).text(),
        "CharPropFlags(READ | WRITE_WITHOUT_RESPONSE)"
    );
    assert_eq!(
        CharPropFlags::from_bits(READ | WRITE | NOTIFY).text(),
        "CharPropFlags(READ | WRITE | NOTIFY)"
    );
    assert_eq!(CharPropFlags::from_bits(EXTENDED_PROPERTIES).text(), "CharPropFlags(EXTENDED_PROPERTIES)");
    assert_eq!(
        CharPropFlags::from_bits(0xff).text(),
        "CharPropFlags(BROADCAST | READ | WRITE_WITHOUT_RESPONSE | WRITE | NOTIFY | INDICATE | \
         AUTHENTICATED_SIGNED_WRITES | EXTENDED_PROPERTIES)"
    );
}
