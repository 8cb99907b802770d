use personal_vault::address::Address;
use solana_program::pubkey::Pubkey;
use std::str::FromStr;

fn addr(tag: u8) -> Address {
    Address::new([tag; 32])
}

#[test]
fn default_address_is_null() {
    let null = Address::default();
    assert_eq!(null.bytes, [0u8; 32]);
    assert!(null.is_null());
    assert_eq!(null.bytes, Pubkey::default().to_bytes());
}

#[test]
fn address_with_one_set_byte_is_not_null() {
    let mut bytes = [0u8; 32];
    bytes[31] = 1;
    assert!(!Address::new(bytes).is_null());
    let mut bytes = [0u8; 32];
    bytes[0] = 1;
    assert!(!Address::new(bytes).is_null());
}

#[test]
fn equality_compares_every_byte() {
    let mut bytes = [7u8; 32];
    let a = Address::new(bytes);
    assert_eq!(a, addr(7));
    bytes[31] = 8;
    assert_ne!(Address::new(bytes), a);
    bytes[31] = 7;
    bytes[0] = 6;
    assert_ne!(Address::new(bytes), a);
}

#[test]
fn precedes_is_lexicographic() {
    assert!(addr(1).precedes(&addr(2)));
    assert!(!addr(2).precedes(&addr(1)));
    assert!(!addr(2).precedes(&addr(2)));

    // The first differing byte decides, whatever follows it.
    let mut low = [9u8; 32];
    low[3] = 1;
    low[4] = 255;
    let mut high = [9u8; 32];
    high[3] = 2;
    high[4] = 0;
    assert!(Address::new(low).precedes(&Address::new(high)));
    assert!(!Address::new(high).precedes(&Address::new(low)));
}

#[test]
fn precedes_agrees_with_pubkey_order() {
    let mut samples: Vec<[u8; 32]> = Vec::new();
    for tag in [0u8, 1, 2, 127, 128, 255] {
        samples.push([tag; 32]);
        let mut bytes = [tag; 32];
        bytes[31] = tag.wrapping_add(1);
        samples.push(bytes);
        let mut bytes = [5u8; 32];
        bytes[16] = tag;
        samples.push(bytes);
    }
    for a in &samples {
        for b in &samples {
            let expected = Pubkey::new_from_array(*a) < Pubkey::new_from_array(*b);
            assert_eq!(Address::new(*a).precedes(&Address::new(*b)), expected);
        }
    }
}

#[test]
fn from_base58_decodes_known_address() {
    let parsed = Address::from_base58("2gPihUTjt3FJqf1VpidgrY5cZ6PuyMccGVwQHRfjMPZG");
    assert_eq!(
        parsed,
        Some(Address::new([
            24, 243, 6, 223, 230, 153, 210, 8, 92, 137, 123, 67, 164, 197, 79, 196, 125, 43, 183,
            85, 103, 91, 232, 167, 73, 131, 104, 131, 0, 101, 214, 231,
        ]))
    );
}

#[test]
fn from_base58_decodes_all_ones_to_null() {
    let parsed = Address::from_base58("11111111111111111111111111111111");
    assert_eq!(parsed, Some(Address::default()));
}

#[test]
fn from_base58_agrees_with_pubkey_from_str() {
    for text in [
        "REALQqNEomY6cQGZJUGwywTBD2UmDT32rZcNnfxQ5N2",
        "45iBNkaENereLKMjLm2LHkF3hpDapf6mnvrM5HWFg9cY",
        "5DSNTh2tDqJdH2MrvFAHMQxBMRmsbFVgE56JQ6fPqkaY",
    ] {
        let expected = Pubkey::from_str(text).unwrap().to_bytes();
        assert_eq!(Address::from_base58(text), Some(Address::new(expected)));
    }
}

#[test]
fn from_base58_rejects_what_is_not_an_address() {
    // Empty, too short, too long, and a character outside the alphabet.
    assert_eq!(Address::from_base58(""), None);
    assert_eq!(Address::from_base58("abc"), None);
    assert_eq!(
        Address::from_base58("2gPihUTjt3FJqf1VpidgrY5cZ6PuyMccGVwQHRfjMPZG2gPihUTjt3"),
        None
    );
    assert_eq!(Address::from_base58("0gPihUTjt3FJqf1VpidgrY5cZ6PuyMccGVwQHRfjMPZG"), None);
    assert_eq!(Address::from_base58("lgPihUTjt3FJqf1VpidgrY5cZ6PuyMccGVwQHRfjMPZG"), None);
}
