use wormhole_svm::emitter_program;
use wormhole_svm::verifier_program::{self, IX_SKIP_VERIFY, IX_VERIFY_VAA};

#[test]
fn lib_test_instruction_data_roundtrip() {
    // Message emitter.
    let nonce = 42u32;
    let finality = 1u8;
    let payload = vec![1, 2, 3, 4, 5];
    let data = emitter_program::build_instruction_data(nonce, finality, &payload);
    assert_eq!(u32::from_le_bytes(data[0..4].try_into().unwrap()), nonce);
    assert_eq!(data[4], finality);
    let len = u32::from_le_bytes(data[5..9].try_into().unwrap());
    assert_eq!(len, 5);
    assert_eq!(&data[9..], &payload);

    // VAA verifier.
    let bump = 255;
    let body = vec![1, 2, 3, 4, 5];
    let data = verifier_program::build_instruction_data(bump, &body);
    assert_eq!(data[0], IX_VERIFY_VAA);
    assert_eq!(data[1], bump);
    let len = u32::from_le_bytes(data[2..6].try_into().unwrap());
    assert_eq!(len, 5);
    assert_eq!(&data[6..], &body);
}

#[test]
fn skip_verify_data_differs_only_in_operation() {
    let verify = verifier_program::build_instruction_data(7, &[9, 9]);
    let skip = verifier_program::build_skip_verify_instruction_data(7, &[9, 9]);
    assert_eq!(skip[0], IX_SKIP_VERIFY);
    assert_eq!(&skip[1..], &verify[1..]);
}

#[test]
fn verifier_data_reads_back() {
    let data = verifier_program::build_instruction_data(3, &[4, 5, 6]);
    assert_eq!(verifier_program::parse_instruction_data(&data), Some((0, 3, vec![4, 5, 6])));
    assert_eq!(verifier_program::parse_instruction_data(&data[..7]), None);
    assert_eq!(verifier_program::parse_instruction_data(&[0, 1, 0]), None);
}

#[test]
fn verifier_instructions_carry_four_read_only_accounts() {
    let ix = verifier_program::build_verify_vaa_instruction([1; 32], [2; 32], [3; 32], [4; 32], [5; 32], 254, &[8, 9]);
    assert_eq!(ix.program_id, [1; 32]);
    let keys: Vec<[u8; 32]> = ix.accounts.iter().map(|a| a.pubkey).collect();
    assert_eq!(keys, vec![[3; 32], [4; 32], [5; 32], [2; 32]]);
    assert!(ix.accounts[0].is_signer);
    assert!(ix.accounts.iter().skip(1).all(|a| !a.is_signer));
    assert!(ix.accounts.iter().all(|a| !a.is_writable));
    assert_eq!(ix.data, vec![IX_VERIFY_VAA, 254, 2, 0, 0, 0, 8, 9]);
    let skip = verifier_program::build_skip_verify_instruction([1; 32], [2; 32], [3; 32], [4; 32], [5; 32], 254, &[8, 9]);
    assert_eq!(skip.data[0], IX_SKIP_VERIFY);
    assert_eq!(skip.accounts, ix.accounts);
}

#[test]
fn emit_instruction_layout() {
    let accounts = emitter_program::EmitAccounts {
        core_bridge_config: [1; 32],
        message: [2; 32],
        emitter: [3; 32],
        sequence: [4; 32],
        fee_collector: [5; 32],
        clock: [6; 32],
        system_program: [7; 32],
        core_bridge: [8; 32],
        event_authority: [9; 32],
        post_message_shim: [10; 32],
    };
    let ix = emitter_program::build_emit_message_instruction([11; 32], &accounts, [12; 32], 42, 1, b"hi");
    assert_eq!(ix.program_id, [11; 32]);
    assert_eq!(ix.accounts.len(), 11);
    assert_eq!(ix.accounts[4].pubkey, [12; 32]);
    assert!(ix.accounts[4].is_signer && ix.accounts[4].is_writable);
    assert!(!ix.accounts[2].is_signer && !ix.accounts[2].is_writable);
    let writable: Vec<usize> = (0..11).filter(|&i| ix.accounts[i].is_writable).collect();
    assert_eq!(writable, vec![0, 1, 3, 4, 5]);
    assert_eq!(ix.data, emitter_program::build_instruction_data(42, 1, b"hi"));
}
