use wormhole_svm::guardian::{build_guardian_set_data, record_is_valid, TestGuardian, TestGuardianSet};
use wormhole_svm::vaa::TestVaa;

#[test]
fn litesvm_test_guardian_set_data_structure() {
    let guardians = TestGuardianSet::single(TestGuardian::default());
    let data = build_guardian_set_data(&guardians, 0);

    // Index (4) + Len (4) + 1 address (20) + Creation (4) + Expiration (4) = 36
    assert_eq!(data.len(), 36);
    let index = u32::from_le_bytes(data[0..4].try_into().unwrap());
    assert_eq!(index, 0);
    let len = u32::from_le_bytes(data[4..8].try_into().unwrap());
    assert_eq!(len, 1);
}

#[test]
fn litesvm_test_multi_guardian_set_data() {
    let guardians = TestGuardianSet::generate(3, 789);
    let data = build_guardian_set_data(&guardians, 5);

    // Index (4) + Len (4) + 3 addresses (60) + Creation (4) + Expiration (4) = 76
    assert_eq!(data.len(), 76);
    let index = u32::from_le_bytes(data[0..4].try_into().unwrap());
    assert_eq!(index, 5);
    let len = u32::from_le_bytes(data[4..8].try_into().unwrap());
    assert_eq!(len, 3);
}

#[test]
fn guardian_set_data_holds_addresses_and_zero_times() {
    let guardians = TestGuardianSet::generate(2, 1);
    let data = build_guardian_set_data(&guardians, 7);
    let addresses = guardians.eth_addresses();
    assert_eq!(&data[8..28], &addresses[0]);
    assert_eq!(&data[28..48], &addresses[1]);
    assert_eq!(&data[48..56], &[0u8; 8]);
}

#[test]
fn every_signature_validates_against_its_guardian() {
    let guardians = TestGuardianSet::generate(4, 2024);
    let vaa = TestVaa::new(1, [0xAB; 32], 42, vec![1, 2, 3, 4]);
    let records = vaa.guardian_signatures(&guardians);
    let addresses = guardians.eth_addresses();
    let digest = vaa.digest();
    assert_eq!(records.len(), 4);
    for (i, record) in records.iter().enumerate() {
        assert_eq!(record[0] as usize, i);
        assert!(record_is_valid(&addresses, &digest, record));
    }
}

#[test]
fn signature_over_another_digest_does_not_validate() {
    let guardians = TestGuardianSet::generate(1, 5);
    let vaa = TestVaa::new(1, [0xAB; 32], 42, vec![]);
    let other = TestVaa::new(1, [0xAB; 32], 43, vec![]);
    let records = other.guardian_signatures(&guardians);
    assert!(!record_is_valid(&guardians.eth_addresses(), &vaa.digest(), &records[0]));
}

#[test]
fn record_naming_an_unknown_guardian_is_invalid() {
    let guardians = TestGuardianSet::generate(1, 5);
    let vaa = TestVaa::new(1, [0xAB; 32], 42, vec![]);
    let mut record = vaa.guardian_signatures(&guardians)[0];
    record[0] = 1;
    assert!(!record_is_valid(&guardians.eth_addresses(), &vaa.digest(), &record));
}

#[test]
fn generated_guardians_differ_and_are_deterministic() {
    let a = TestGuardianSet::generate(3, 7).eth_addresses();
    let b = TestGuardianSet::generate(3, 7).eth_addresses();
    assert_eq!(a, b);
    assert_ne!(a[0], a[1]);
    assert_ne!(a[1], a[2]);
    assert_eq!(TestGuardian::default().eth_address(), TestGuardian::from_seed(0, 0).eth_address());
}

#[test]
fn signing_with_a_subset_uses_those_guardians() {
    let guardians = TestGuardianSet::generate(5, 456);
    let body = TestVaa::new(1, [0xAB; 32], 42, vec![]).body();
    let all = guardians.sign_vaa_body(&body);
    let some = guardians.sign_vaa_body_with(&body, &[3, 1]);
    assert_eq!(some, vec![all[3], all[1]]);
}
