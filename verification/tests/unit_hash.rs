use zk_chat::Message;
use zk_chat::zk::poseidon::{zk_hash, Felt4};

use zk_chat::zk::hash::{pack_content, truncate_element, elements_to_hash, hash_to_elements};

#[test]
fn unit_message_hash_consistency() {
    let m = Message::new(1, 7, "hello".into(), 123456);
    assert!(m.verify_hash(), "Message hash should verify");
}

#[test]
fn message_new_hash_is_32_bytes() {
    let m = Message::new(9, 3, "abc".into(), 77);
    assert_eq!(m.hash.len(), 32);
    assert!(m.verify_hash());
}

#[test]
fn tampering_any_byte_fails_verification() {
    for i in 0..32 {
        let mut m = Message::new(4, 2, "tamper every byte".into(), 500);
        m.hash[i] ^= 0x01;
        assert!(!m.verify_hash(), "flipping byte {i} must break the hash");
    }
}

#[test]
fn zk_hash_deterministic_and_sensitive() {
    let a: Vec<u128> = vec![1, 2, 3, 4, 5];
    let b: Vec<u128> = vec![1, 2, 3, 4, 6];
    let h1 = zk_hash(&a);
    let h2 = zk_hash(&a);
    let h3 = zk_hash(&b);
    assert_eq!(h1, h2, "same input, same digest");
    assert_ne!(h1, h3, "different input, different digest");
}

#[test]
fn zk_hash_no_collisions_on_small_corpus() {
    let mut digests: Vec<Felt4> = Vec::new();
    for i in 0..20u128 {
        let inputs: Vec<u128> = vec![i, i + 1, 2 * i];
        digests.push(zk_hash(&inputs));
    }
    for i in 0..digests.len() {
        for j in (i + 1)..digests.len() {
            assert_ne!(digests[i], digests[j], "corpus digests must be distinct");
        }
    }
}

#[test]
fn pack_content_exact_value() {
    let packed = pack_content("hello");
    assert_eq!(packed.e0, 0x6F_6C_6C_65_68);
    assert_eq!(packed.e1, 0);
    assert_eq!(packed.e2, 0);
    assert_eq!(packed.e3, 0);
}

#[test]
fn pack_content_discards_past_32_bytes() {
    let long = "0123456789abcdef0123456789abcdefEXTRA";
    let short = "0123456789abcdef0123456789abcdef";
    assert_eq!(pack_content(long), pack_content(short));
}

#[test]
fn pack_content_second_chunk() {
    // 9 bytes: the 9th lands in the second element.
    let packed = pack_content("AAAAAAAAB");
    assert_eq!(packed.e0, 0x4141414141414141);
    assert_eq!(packed.e1, 0x42);
}

#[test]
fn truncate_element_keeps_low_64_bits() {
    let x: u128 = (1u128 << 64) + 5;
    assert_eq!(truncate_element(x), 5);
    assert_eq!(truncate_element(7), 7);
}

#[test]
fn elements_to_hash_exact_bytes() {
    let e = Felt4 { e0: 1, e1: 2, e2: 3, e3: 0x0102 };
    let bytes = elements_to_hash(&e);
    let mut expected = vec![0u8; 32];
    expected[0] = 1;
    expected[8] = 2;
    expected[16] = 3;
    expected[24] = 0x02;
    expected[25] = 0x01;
    assert_eq!(bytes, expected);
}

#[test]
fn bytes_elements_roundtrip() {
    let mut bytes: Vec<u8> = (0u8..32u8).collect();
    bytes[31] = 0xFF;
    let elts = hash_to_elements(&bytes);
    let back = elements_to_hash(&elts);
    assert_eq!(back, bytes);
}

#[test]
fn legacy_sha256_digest_exact_vector() {
    // SHA-256 of the dash-joined fields "1-10-hello-1000".
    let m = Message::new(1, 10, "hello".into(), 1000);
    let digest = m.compute_hash();
    assert_eq!(
        hex::encode(&digest),
        "c66125fab3045cd86a56a26db9a88b202d68eedfadc214782f839f6f1bc8e4ee"
    );
}

#[test]
fn legacy_sha256_digest_is_field_sensitive() {
    let a = Message::new(12, 3, "x y".into(), 99);
    let b = Message::new(12, 3, "x z".into(), 99);
    assert_eq!(a.compute_hash().len(), 32);
    assert_ne!(a.compute_hash(), b.compute_hash());
    assert_eq!(a.compute_hash(), a.compute_hash());
}
