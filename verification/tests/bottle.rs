use std::time::{SystemTime, UNIX_EPOCH};
use superinstance_protocol::clock::v7_id;
use superinstance_protocol::{audit, audit_strict, Bottle, BottleError};

#[test]
fn conservation_holds_for_identity_bottle() {
    let b = Bottle::new_empty("a", "b", "noop", vec![-1, 0, 1, 0, 1], 300);
    // An "identity" transformation produces the same bottle
    assert!(audit(&b, &b));
}

#[test]
fn conservation_fails_for_modified_trits() {
    let input = Bottle::new_empty("a", "b", "transform", vec![-1, 0, 1], 300);
    let output = Bottle::new_empty("b", "c", "transform.done", vec![1, 1, 1], 300);
    // sum(input) = 0, sum(output) = 3 → conservation violation
    assert!(!audit(&input, &output));
}

#[test]
fn ttl_expired_detection() {
    let mut b = Bottle::new_empty("a", "b", "test", vec![0], 0);
    let past_id = {
        let now_ms = SystemTime::now()
            .duration_since(UNIX_EPOCH)
            .unwrap()
            .as_millis() as u64;
        let past_ms = now_ms - 3_600_000; // 1 hour ago
        // Manually construct UUIDv7 bytes: 48-bit timestamp, then version/variant bits
        let ts = past_ms;
        let mut bytes = [0u8; 16];
        bytes[0] = ((ts >> 40) & 0xFF) as u8;
        bytes[1] = ((ts >> 32) & 0xFF) as u8;
        bytes[2] = ((ts >> 24) & 0xFF) as u8;
        bytes[3] = ((ts >> 16) & 0xFF) as u8;
        bytes[4] = ((ts >> 8) & 0xFF) as u8;
        bytes[5] = (ts & 0xFF) as u8;
        // version 7 in high nibble of byte 6
        bytes[6] = 0x70 | 0x01; // ver=7, rand_a=0x01
        bytes[7] = 0x23;
        // variant 10xx in high bits of byte 8
        bytes[8] = 0x80 | 0x45;
        bytes[9] = 0x67;
        bytes[10] = 0x89;
        bytes[11] = 0xAB;
        bytes[12] = 0xCD;
        bytes[13] = 0xEF;
        bytes[14] = 0x01;
        bytes[15] = 0x23;
        bytes
    };
    b.id = past_id;
    b.ttl = 60; // 60 seconds TTL, but created an hour ago
    assert!(b.validate().is_err());
}

#[test]
fn trits_sum_preserved() {
    let trits: Vec<i8> = vec![-1, -1, 0, 1, 1];
    let sum: i32 = trits.iter().map(|&t| t as i32).sum();
    assert_eq!(sum, 0);

    let b1 = Bottle::new_empty("a", "b", "step1", trits.clone(), 300);
    let b2 = Bottle::new_empty("b", "c", "step2", trits.clone(), 300);
    assert_eq!(b1.trit_sum(), b2.trit_sum());
    assert!(audit(&b1, &b2));
}

#[test]
fn payload_roundtrip_with_typed_data() {
    // A struct of (quality: f64, crates: u32) goes over MessagePack as the
    // array of its fields, exactly as this pair does.
    let payload: (f64, u32) = (0.95, 42);
    let b = Bottle::new("forgemaster", "fleet-edge", "cycle.complete", vec![1, 0, -1], rmp_serde::to_vec(&payload), 300).unwrap();
    let decoded: (f64, u32) = b.decode_payload(|bytes: Vec<u8>| rmp_serde::from_slice(&bytes)).unwrap();
    assert_eq!(decoded, payload);
}

#[test]
fn new_bottle_envelope_fields() {
    let b = Bottle::new_empty("forgemaster", "fleet-edge", "cycle.complete", vec![-1, 0, 1], 300);
    assert_eq!(b.ver, 1);
    assert_eq!(b.src, "forgemaster");
    assert_eq!(b.tgt, "fleet-edge");
    assert_eq!(b.act, "cycle.complete");
    assert_eq!(b.trits, vec![-1, 0, 1]);
    assert_eq!(b.enc, "msgpack");
    assert_eq!(b.ttl, 300);
    // UUIDv7: version nibble 7, variant bits 10
    assert_eq!(b.id[6] >> 4, 7);
    assert_eq!(b.id[8] >> 6, 2);
}

#[test]
fn empty_payload_is_msgpack_nil() {
    let b = Bottle::new_empty("a", "b", "noop", vec![], 30);
    assert_eq!(b.pay, "wA==");
    assert_eq!(b.payload_msgpack().unwrap(), vec![0xc0]);
    let unit: () = b.decode_payload(|bytes: Vec<u8>| rmp_serde::from_slice(&bytes)).unwrap();
    assert_eq!(unit, ());
}

#[test]
fn raw_payload_is_msgpack_array_of_bytes() {
    let b = Bottle::new_raw("a", "b", "raw", vec![0], vec![1, 2, 200], 30);
    // fixarray of three, then 1, 2 as positive fixints and 200 as uint8
    assert_eq!(b.payload_msgpack().unwrap(), vec![0x93, 0x01, 0x02, 0xcc, 0xc8]);
    assert_eq!(b.pay, "kwECzMg=");
    let raw: Vec<u8> = b.decode_payload(|bytes: Vec<u8>| rmp_serde::from_slice(&bytes)).unwrap();
    assert_eq!(raw, vec![1, 2, 200]);
}

#[test]
fn typed_payload_roundtrip_pair_of_strings() {
    let payload = (String::from("result"), 42u64);
    let b = Bottle::new("agent-alpha", "fleet-router", "cycle.complete", vec![-1, 0, 1], rmp_serde::to_vec(&payload), 30).unwrap();
    let decoded: (String, u64) = b.decode_payload(|bytes: Vec<u8>| rmp_serde::from_slice(&bytes)).unwrap();
    assert_eq!(decoded, payload);
    assert_eq!(b.trit_sum(), 0);
}

#[test]
fn invalid_base64_payload_is_rejected() {
    let mut b = Bottle::new_empty("a", "b", "noop", vec![], 30);
    b.pay = String::from("not base64!");
    assert!(matches!(b.payload_msgpack(), Err(BottleError::Base64Decode(_))));
    assert!(matches!(
        b.decode_payload(|bytes: Vec<u8>| rmp_serde::from_slice::<u32>(&bytes)),
        Err(BottleError::Base64Decode(_))
    ));
}

#[test]
fn wrong_payload_type_is_a_msgpack_error() {
    let b = Bottle::new_raw("a", "b", "raw", vec![0], vec![1, 2, 3], 30);
    // an array of three bytes is not a string
    assert!(matches!(
        b.decode_payload(|bytes: Vec<u8>| rmp_serde::from_slice::<String>(&bytes)),
        Err(BottleError::MsgpackDecode(_))
    ));
}

fn bottle_created_at_ms(ms: u64, ttl: u32) -> Bottle {
    let mut b = Bottle::new_empty("a", "b", "ttl", vec![0], ttl);
    let mut id = [0u8; 16];
    for i in 0..6 {
        id[i] = ((ms >> (8 * (5 - i))) & 0xFF) as u8;
    }
    b.id = id;
    b
}

#[test]
fn ttl_boundary_is_inclusive() {
    // created at 1_700_000_000_500 ms, i.e. within second 1_700_000_000
    let b = bottle_created_at_ms(1_700_000_000_500, 60);
    assert!(b.validate_at(1_700_000_000).is_ok());
    assert!(b.validate_at(1_700_000_060).is_ok());
    match b.validate_at(1_700_000_061) {
        Err(BottleError::TtlExpired { id }) => assert_eq!(id, b.id),
        _ => panic!("expected TtlExpired"),
    }
    // once expired, stays expired
    assert!(b.validate_at(1_800_000_000).is_err());
}

#[test]
fn fresh_bottle_is_valid_now() {
    let b = Bottle::new_empty("a", "b", "fresh", vec![1], 300);
    assert!(b.validate().is_ok());
}

#[test]
fn strict_audit_reports_both_sums() {
    let input = Bottle::new_empty("a", "b", "transform", vec![-1, 0, 1], 300);
    let output = Bottle::new_empty("b", "c", "transform.done", vec![1, 1, 1], 300);
    match audit_strict(&input, &output) {
        Err(BottleError::Conservation { expected, actual }) => {
            assert_eq!(expected, 0);
            assert_eq!(actual, 3);
        }
        _ => panic!("expected a conservation error"),
    }
    assert!(audit_strict(&input, &input).is_ok());
}

#[test]
fn trit_sum_of_values() {
    let b = Bottle::new_empty("a", "b", "sum", vec![1, 1, -1, 1, 0, 1], 300);
    assert_eq!(b.trit_sum(), 3);
    let e = Bottle::new_empty("a", "b", "sum", vec![], 300);
    assert_eq!(e.trit_sum(), 0);
    let wide = Bottle::new_empty("a", "b", "sum", vec![127, 127, -128], 300);
    assert_eq!(wide.trit_sum(), 126);
}

#[test]
fn audit_is_symmetric_and_transitive() {
    let a = Bottle::new_empty("a", "b", "s", vec![1, 0, 0], 300);
    let b = Bottle::new_empty("b", "c", "s", vec![0, 1, 0], 300);
    let c = Bottle::new_empty("c", "d", "s", vec![-1, 1, 1], 300);
    assert!(audit(&a, &b) && audit(&b, &a));
    assert!(audit(&b, &c) && audit(&a, &c));
}

#[test]
fn split_trits_keep_total_charge() {
    let whole = Bottle::new_empty("a", "b", "whole", vec![1, -1, 1, 1, 0], 300);
    let left = Bottle::new_empty("a", "b", "left", vec![1, -1], 300);
    let right = Bottle::new_empty("a", "b", "right", vec![1, 1, 0], 300);
    assert_eq!(whole.trit_sum(), left.trit_sum() + right.trit_sum());
}

#[test]
fn bottle_equality_is_fieldwise() {
    let a = Bottle::new_empty("a", "b", "eq", vec![1, 0], 300);
    let mut b = a.clone();
    assert!(a == b);
    b.ttl = 301;
    assert!(a != b);
    let mut c = a.clone();
    c.id[15] ^= 1;
    assert!(a != c);
    let mut d = a.clone();
    d.trits.push(0);
    assert!(a != d);
}

#[test]
fn encoding_failure_is_reported() {
    // what `rmp_serde::to_vec` returns when a value cannot be encoded
    let err = rmp_serde::encode::Error::UnknownLength;
    let res = Bottle::new("a", "b", "c", vec![0], Err(err), 30);
    assert!(matches!(res, Err(BottleError::MsgpackEncode(_))));
}

#[test]
fn new_bottle_carries_encoded_payload() {
    let res = Bottle::new("a", "b", "c", vec![0], Ok(vec![0xc0]), 30).unwrap();
    assert_eq!(res.pay, "wA==");
    assert_eq!(res.id[6] >> 4, 7);
}

#[test]
fn v7_id_holds_the_reading_in_milliseconds() {
    let id = v7_id(Some((1_700_000_000, 500_000_000)));
    let ms: u64 = 1_700_000_000_500;
    for i in 0..6 {
        assert_eq!(id[i], ((ms >> (8 * (5 - i))) & 0xFF) as u8);
    }
    assert_eq!(id[6] >> 4, 7);
    assert_eq!(id[8] >> 6, 2);
    let epoch = v7_id(None);
    assert_eq!(&epoch[..6], &[0u8; 6]);
}

#[test]
fn fresh_bottle_id_is_near_now() {
    let before = SystemTime::now().duration_since(UNIX_EPOCH).unwrap().as_millis() as u64;
    let b = Bottle::new_empty("a", "b", "time", vec![], 30);
    let after = SystemTime::now().duration_since(UNIX_EPOCH).unwrap().as_millis() as u64;
    let mut ms: u64 = 0;
    for i in 0..6 {
        ms = (ms << 8) | b.id[i] as u64;
    }
    assert!(before <= ms && ms <= after);
}
