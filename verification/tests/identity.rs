use candid::Principal;
use hospital_chain::common::Copyable;
use hospital_chain::digest::{generate_hash, hash_of_text};
use hospital_chain::error::EngineError;
use hospital_chain::identity::Identity;
use hospital_chain::text::{decimal_text, hex_text, join};

#[test]
fn hash_of_abc_is_the_known_digest() {
    assert_eq!(
        generate_hash(b"abc"),
        "ba7816bf8f01cfea414140de5dae2223b00361a396177a9cb410ff61f20015ad"
    );
}

#[test]
fn hash_of_nothing_is_the_known_digest() {
    assert_eq!(
        generate_hash(b""),
        "e3b0c44298fc1c149afbf4c8996fb92427ae41e4649b934ca495991b7852b855"
    );
    assert_eq!(hash_of_text(""), generate_hash(b""));
}

#[test]
fn hash_of_text_goes_by_utf8_bytes() {
    assert_eq!(hash_of_text("bafy-one-10"), generate_hash("bafy-one-10".as_bytes()));
    assert_eq!(
        hash_of_text("bafy-one-10"),
        "5fea5a2c38eebea356a2b6ea6d7be13ab6a5e9ad802296688ce8f20d852b95bf"
    );
}

#[test]
fn hex_has_two_lower_case_digits_per_byte() {
    assert_eq!(hex_text(&[]), "");
    assert_eq!(hex_text(&[0x00, 0x0f, 0xa0, 0xff, 0x1b]), "000fa0ff1b");
}

#[test]
fn decimal_has_no_leading_zeros() {
    assert_eq!(decimal_text(0), "0");
    assert_eq!(decimal_text(7), "7");
    assert_eq!(decimal_text(10), "10");
    assert_eq!(decimal_text(1234567890), "1234567890");
    assert_eq!(decimal_text(u64::MAX), "18446744073709551615");
}

#[test]
fn join_appends() {
    assert_eq!(join("grant_access_to_", "aaaaa-aa"), "grant_access_to_aaaaa-aa");
    assert_eq!(join("", ""), "");
}

#[test]
fn management_identity_has_the_known_text() {
    let id = Identity::from_bytes(vec![]).unwrap();
    assert_eq!(id.to_text(), "aaaaa-aa");
    let back = Identity::from_text("aaaaa-aa").unwrap();
    assert!(back.same(&id));
    assert_eq!(back.len(), 0);
}

#[test]
fn anonymous_identity_is_the_one_of_the_platform() {
    let id = Identity::anonymous();
    assert_eq!(id.as_bytes().as_slice(), Principal::anonymous().as_slice());
    assert_eq!(id.to_text(), "2vxsx-fae");
    assert_eq!(id.to_text(), Principal::anonymous().to_text());
}

#[test]
fn text_and_bytes_go_both_ways() {
    let id = Identity::from_bytes(vec![1, 7, 7, 7, 1]).unwrap();
    assert_eq!(id.to_text(), "loofn-qaba4-dqoai");
    let back = Identity::from_text("loofn-qaba4-dqoai").unwrap();
    assert_eq!(back.as_bytes(), &vec![1u8, 7, 7, 7, 1]);
    assert!(back.same(&id));
    let p = Principal::from_text("2yq74-dyvun-4jltq-lkpbl-jcoao-kj4pl-7qemg-sbkrs-p3neo-47oxb-mqe").unwrap();
    let q = Identity::from_bytes(p.as_slice().to_vec()).unwrap();
    assert_eq!(q.to_text(), p.to_text());
    assert_eq!(q.len(), 29);
}

#[test]
fn malformed_text_is_no_identity() {
    assert_eq!(Identity::from_text("not a principal").err(), Some(EngineError::InvalidPrincipal));
    assert_eq!(Identity::from_text("").err(), Some(EngineError::InvalidPrincipal));
    assert_eq!(Identity::from_text("aaaaa-ab").err(), Some(EngineError::InvalidPrincipal));
    assert_eq!(Identity::from_text("loofnqaba4dqoai").err(), Some(EngineError::InvalidPrincipal));
}

#[test]
fn identity_holds_at_most_29_bytes() {
    assert!(Identity::from_bytes(vec![9; 29]).is_some());
    assert!(Identity::from_bytes(vec![9; 30]).is_none());
}

#[test]
fn identities_are_equal_by_their_bytes() {
    let a = Identity::from_bytes(vec![1, 2, 3]).unwrap();
    let b = Identity::from_bytes(vec![1, 2, 3]).unwrap();
    let c = Identity::from_bytes(vec![1, 2, 4]).unwrap();
    let d = Identity::from_bytes(vec![1, 2]).unwrap();
    assert!(a.same(&b));
    assert!(!a.same(&c));
    assert!(!a.same(&d));
    assert!(a.duplicate().same(&a));
}

#[test]
fn decimal_agrees_with_the_standard_formatting() {
    for n in [0u64, 1, 9, 10, 11, 99, 100, 101, 999, 1000, 65535, 4294967296, u64::MAX - 1, u64::MAX] {
        assert_eq!(decimal_text(n), format!("{}", n));
    }
}

#[test]
fn hex_agrees_with_the_standard_formatting() {
    let all: Vec<u8> = (0..=255u8).collect();
    let mut expected = String::new();
    for b in &all {
        expected.push_str(&format!("{:02x}", b));
    }
    assert_eq!(hex_text(&all), expected);
}
