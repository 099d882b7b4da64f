use sha3::Digest;
use wormhole_svm::guardian::{TestGuardian, TestGuardianSet};
use wormhole_svm::vaa::{emitter_address_from_20, emitter_address_from_32, parse_signed_vaa, TestVaa, VaaParseError};

#[test]
fn test_vaa_body_structure() {
    let vaa = TestVaa::new(1, [0xAB; 32], 42, vec![1, 2, 3, 4]);

    let body = vaa.body();

    // Timestamp (4) + Nonce (4) + Chain (2) + Emitter (32) + Seq (8) + Consistency (1) + Payload (4)
    assert_eq!(body.len(), 4 + 4 + 2 + 32 + 8 + 1 + 4);

    let ts = u32::from_be_bytes(body[0..4].try_into().unwrap());
    assert_eq!(ts, 1234567890);

    let chain = u16::from_be_bytes(body[8..10].try_into().unwrap());
    assert_eq!(chain, 1);

    let seq = u64::from_be_bytes(body[42..50].try_into().unwrap());
    assert_eq!(seq, 42);
}

#[test]
fn test_signed_vaa_structure() {
    let guardians = TestGuardianSet::single(TestGuardian::default());
    let vaa = TestVaa::new(1, [0xAB; 32], 42, vec![1, 2, 3, 4]);

    let signed = vaa.sign(&guardians);

    // Version (1) + GS Index (4) + Num Sigs (1) + Sig (66) + Body (55)
    assert_eq!(signed.len(), 1 + 4 + 1 + 66 + 55);
    assert_eq!(signed[0], 1);
    let gs_index = u32::from_be_bytes(signed[1..5].try_into().unwrap());
    assert_eq!(gs_index, 0);
    assert_eq!(signed[5], 1);
}

#[test]
fn test_multi_guardian_signing() {
    let guardians = TestGuardianSet::generate(3, 123);
    let vaa = TestVaa::new(1, [0xAB; 32], 42, vec![]);

    let signed = vaa.sign(&guardians);

    assert_eq!(signed[5], 3);
    assert_eq!(signed[6], 0);
    assert_eq!(signed[6 + 66], 1);
    assert_eq!(signed[6 + 132], 2);
}

#[test]
fn test_sign_with_subset() {
    let guardians = TestGuardianSet::generate(5, 456);
    let vaa = TestVaa::new(1, [0xAB; 32], 42, vec![]);

    let signed = vaa.sign_with(&guardians, &[1, 3]);

    assert_eq!(signed[5], 2);
    assert_eq!(signed[6], 1);
    assert_eq!(signed[6 + 66], 3);
}

#[test]
fn test_emitter_address_helpers() {
    let addr20 = [0xAB; 20];
    let result = emitter_address_from_20(addr20);

    assert_eq!(&result[0..12], &[0u8; 12]);
    assert_eq!(&result[12..32], &addr20);
}

#[test]
fn emitter_address_from_32_is_identity() {
    assert_eq!(emitter_address_from_32([7u8; 32]), [7u8; 32]);
}

#[test]
fn signed_vaa_decodes_to_its_parts() {
    let guardians = TestGuardianSet::generate(2, 9);
    let mut vaa = TestVaa::new(2, [0x11; 32], 7, vec![9, 8, 7]);
    vaa.guardian_set_index = 0x01020304;
    let signed = vaa.sign(&guardians);
    let (index, sigs, body) = parse_signed_vaa(&signed).unwrap();
    assert_eq!(index, 0x01020304);
    assert_eq!(sigs, vaa.guardian_signatures(&guardians));
    assert_eq!(body, vaa.body());
}

#[test]
fn signed_vaa_parse_errors() {
    assert_eq!(parse_signed_vaa(&[]), Err(VaaParseError::Empty));
    assert_eq!(parse_signed_vaa(&[2, 0, 0, 0, 0, 0]), Err(VaaParseError::UnsupportedVersion(2)));
    assert_eq!(parse_signed_vaa(&[1, 0, 0]), Err(VaaParseError::TooShort));
    assert_eq!(parse_signed_vaa(&[1, 0, 0, 0, 0, 1, 5]), Err(VaaParseError::Truncated));
    let (index, sigs, body) = parse_signed_vaa(&[1, 0, 0, 0, 5, 0, 42]).unwrap();
    assert_eq!((index, sigs.len(), body), (5, 0, vec![42]));
}

#[test]
fn digest_is_double_keccak_of_body() {
    let vaa = TestVaa::new(1, [0xAB; 32], 42, vec![1, 2, 3, 4]);
    let once = sha3::Keccak256::digest(vaa.body());
    let twice: [u8; 32] = sha3::Keccak256::digest(once).into();
    assert_eq!(vaa.digest(), twice);
}

#[test]
fn keccak_of_empty_input() {
    let expected =
        hex::decode("c5d2460186f7233c927e7db2dcc703c0e500b653ca82273b7bfad8045d85a470").unwrap();
    assert_eq!(wormhole_svm::crypto::keccak256(&[]).to_vec(), expected);
}

#[test]
fn body_decodes_to_its_fields() {
    let mut vaa = TestVaa::new(0x0102, [0x33; 32], 0x0102030405060708, vec![7, 7]);
    vaa.timestamp = 99;
    vaa.nonce = 5;
    vaa.consistency_level = 32;
    let decoded = TestVaa::from_body(&vaa.body()).unwrap();
    assert_eq!(decoded.emitter_chain, 0x0102);
    assert_eq!(decoded.emitter_address, [0x33; 32]);
    assert_eq!(decoded.sequence, 0x0102030405060708);
    assert_eq!(decoded.payload, vec![7, 7]);
    assert_eq!((decoded.timestamp, decoded.nonce, decoded.consistency_level), (99, 5, 32));
    assert!(TestVaa::from_body(&[0u8; 50]).is_none());
}
