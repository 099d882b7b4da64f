use wormhole_svm::error::SubmitError;
use wormhole_svm::execute::{discover_keypairs, ExecutionStep, Executor, GroupEvent};
use wormhole_svm::instruction::{InstructionGroup, SerializableAccountMeta, SerializableInstruction};
use wormhole_svm::placeholder::{Placeholders, Role};

fn slot(k: usize) -> [u8; 32] {
    [0xC0 + k as u8; 32]
}

fn placeholders() -> Placeholders {
    let mut slots = [[0u8; 32]; 10];
    for (k, s) in slots.iter_mut().enumerate() {
        *s = slot(k);
    }
    Placeholders::new([0xA1; 32], [0xA2; 32], [0xA3; 32], slots).unwrap()
}

fn meta(pubkey: [u8; 32], is_signer: bool, is_writable: bool) -> SerializableAccountMeta {
    SerializableAccountMeta { pubkey, is_signer, is_writable }
}

fn groups() -> Vec<InstructionGroup> {
    vec![
        InstructionGroup {
            instructions: vec![SerializableInstruction {
                program_id: [9; 32],
                accounts: vec![
                    meta([0xA1; 32], true, true),
                    meta(slot(3), true, true),
                    meta([0x55; 32], false, true),
                ],
                data: vec![1, 2],
            }],
        },
        InstructionGroup {
            instructions: vec![SerializableInstruction {
                program_id: [9; 32],
                accounts: vec![
                    meta([0xA2; 32], false, false),
                    meta([0xA3; 32], false, false),
                    meta(slot(3), false, true),
                    meta(slot(7), true, false),
                ],
                data: vec![3],
            }],
        },
    ]
}

const PAYER: [u8; 32] = [0x10; 32];
const SIGNATURES: [u8; 32] = [0x20; 32];
const GUARDIAN_SET: [u8; 32] = [0x30; 32];
const GEN3: [u8; 32] = [0x43; 32];
const GEN7: [u8; 32] = [0x47; 32];

fn is_placeholder(p: &Placeholders, a: &[u8; 32]) -> bool {
    p.role_of(a).is_some()
}

#[test]
fn discovers_used_signer_slots_in_order() {
    assert_eq!(discover_keypairs(&groups(), &placeholders()), vec![3, 7]);
    assert!(discover_keypairs(&[], &placeholders()).is_empty());
}

#[test]
fn executes_every_group_without_placeholders() {
    let p = placeholders();
    let mut executor =
        Executor::new(groups(), p, PAYER, SIGNATURES, GUARDIAN_SET, vec![GEN3, GEN7]).unwrap();
    let mut step = executor.start();
    let mut submitted = Vec::new();
    let mut n = 0u8;
    let sigs = loop {
        match step {
            ExecutionStep::Submit(t) => {
                for ix in &t.instructions {
                    for a in &ix.accounts {
                        assert!(!is_placeholder(&p, &a.pubkey));
                    }
                }
                submitted.push(t);
                n += 1;
                step = executor.on_group_result(GroupEvent::Confirmed([n; 64]));
            }
            ExecutionStep::Finished(sigs) => break sigs,
            ExecutionStep::Failed(e) => panic!("unexpected failure {:?}", e),
        }
    };
    assert_eq!(sigs, vec![[1u8; 64], [2u8; 64]]);
    let first = &submitted[0].instructions[0];
    assert_eq!(first.accounts[0], meta(PAYER, true, true));
    assert_eq!(first.accounts[1], meta(GEN3, true, true));
    assert_eq!(first.accounts[2], meta([0x55; 32], false, true));
    assert_eq!(first.data, vec![1, 2]);
    assert_eq!(submitted[0].signers, vec![0]);
    let second = &submitted[1].instructions[0];
    assert_eq!(second.accounts[0], meta(SIGNATURES, false, false));
    assert_eq!(second.accounts[1], meta(GUARDIAN_SET, false, false));
    assert_eq!(second.accounts[2], meta(GEN3, false, true));
    assert_eq!(second.accounts[3], meta(GEN7, true, false));
    assert_eq!(submitted[1].signers, vec![0, 1]);
}

#[test]
fn a_failed_group_stops_the_sequence() {
    let mut executor = Executor::new(groups(), placeholders(), PAYER, SIGNATURES, GUARDIAN_SET, vec![GEN3, GEN7])
        .unwrap();
    assert!(matches!(executor.start(), ExecutionStep::Submit(_)));
    let step = executor.on_group_result(GroupEvent::SendFailed("rejected".to_string()));
    assert!(matches!(step, ExecutionStep::Failed(SubmitError::Execution(m)) if m == "rejected"));
    let mut executor = Executor::new(groups(), placeholders(), PAYER, SIGNATURES, GUARDIAN_SET, vec![GEN3, GEN7])
        .unwrap();
    let step = executor.on_group_result(GroupEvent::BlockhashFailed("offline".to_string()));
    assert!(matches!(step, ExecutionStep::Failed(SubmitError::Connection(m)) if m == "offline"));
}

#[test]
fn generated_signers_must_match_the_slots() {
    assert!(Executor::new(groups(), placeholders(), PAYER, SIGNATURES, GUARDIAN_SET, vec![GEN3]).is_none());
    assert!(Executor::new(groups(), placeholders(), PAYER, SIGNATURES, GUARDIAN_SET, vec![GEN3, GEN7, GEN7])
        .is_none());
    assert!(Executor::new(groups(), placeholders(), PAYER, SIGNATURES, GUARDIAN_SET, vec![GEN3, GEN7]).is_some());
}

#[test]
fn generated_signer_that_is_a_placeholder_is_refused() {
    assert!(Executor::new(groups(), placeholders(), PAYER, SIGNATURES, GUARDIAN_SET, vec![GEN3, slot(1)])
        .is_none());
}

#[test]
fn no_groups_finish_at_once() {
    let executor = Executor::new(vec![], placeholders(), PAYER, SIGNATURES, GUARDIAN_SET, vec![]).unwrap();
    assert!(matches!(executor.start(), ExecutionStep::Finished(s) if s.is_empty()));
}

#[test]
fn roles_of_placeholders() {
    let p = placeholders();
    assert_eq!(p.role_of(&[0xA1; 32]), Some(Role::Payer));
    assert_eq!(p.role_of(&[0xA2; 32]), Some(Role::SignaturesAccount));
    assert_eq!(p.role_of(&[0xA3; 32]), Some(Role::GuardianSet));
    assert_eq!(p.role_of(&slot(9)), Some(Role::GeneratedSigner(9)));
    assert_eq!(p.role_of(&[0x01; 32]), None);
}
