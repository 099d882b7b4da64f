use wormhole_svm::error::WormholeTestError;
use wormhole_svm::guardian::{record_is_valid, vaa_body_digest, TestGuardian, TestGuardianSet};
use wormhole_svm::harness::{CommitEvent, HarnessAction, Probe, ProbeEvent, VaaHarness};
use wormhole_svm::vaa::{ReplayProtection, TestVaa};

/// A stand-in for ledger state: the bodies a program has consumed.
#[derive(Clone, Default)]
struct Ledger {
    consumed: Vec<Vec<u8>>,
    open_signature_accounts: usize,
}

#[derive(Clone, Copy)]
struct Program {
    verifies: bool,
    checks_chain: bool,
    checks_address: bool,
    marks_consumed: bool,
}

const CORRECT: Program = Program { verifies: true, checks_chain: true, checks_address: true, marks_consumed: true };

impl Program {
    fn run(&self, ledger: &mut Ledger, addresses: &[[u8; 20]], sigs: &[[u8; 66]], body: &[u8]) -> bool {
        if self.verifies {
            let digest = vaa_body_digest(body);
            if sigs.is_empty() || !sigs.iter().all(|r| record_is_valid(addresses, &digest, r)) {
                return false;
            }
        }
        if self.checks_chain && body[8..10] != [0, 1] {
            return false;
        }
        if self.checks_address && body[10..42] != [0xAB; 32] {
            return false;
        }
        if self.marks_consumed {
            if ledger.consumed.iter().any(|b| b == body) {
                return false;
            }
            ledger.consumed.push(body.to_vec());
        }
        true
    }
}

fn with_vaa(vaa: &TestVaa, program: Program) -> (Result<(), WormholeTestError>, Vec<Probe>, Ledger) {
    let guardians = TestGuardianSet::single(TestGuardian::default());
    let addresses = guardians.eth_addresses();
    let mut ledger = Ledger::default();
    let mut harness = VaaHarness::new(vaa.clone(), &guardians);
    let mut probes = Vec::new();
    let mut action = harness.start();
    loop {
        action = match action {
            HarnessAction::Probe(probe, sigs, body) => {
                probes.push(probe);
                let mut fork = ledger.clone();
                let accepted = program.run(&mut fork, &addresses, &sigs, &body);
                harness.on_probe(if accepted { ProbeEvent::Accepted } else { ProbeEvent::Rejected })
            }
            HarnessAction::Commit(sigs, body) => {
                ledger.open_signature_accounts += 1;
                if program.run(&mut ledger, &addresses, &sigs, &body) {
                    harness.on_commit(CommitEvent::Ran(Ok(())))
                } else {
                    harness.on_commit(CommitEvent::Ran(Err(WormholeTestError::LoadError(
                        "VAA verification failed".to_string(),
                    ))))
                }
            }
            HarnessAction::CloseCommitted => {
                ledger.open_signature_accounts -= 1;
                harness.on_closed(Ok(()))
            }
            HarnessAction::Finished(result) => return (result, probes, ledger),
        };
    }
}

fn scenario_vaa() -> TestVaa {
    TestVaa::new(1, [0xAB; 32], 42, vec![1, 2, 3, 4])
}

#[test]
fn correct_program_passes_every_probe() {
    let vaa = scenario_vaa();
    let (result, probes, ledger) = with_vaa(&vaa, CORRECT);
    assert!(result.is_ok());
    assert_eq!(
        probes,
        vec![Probe::SignatureMismatch, Probe::EmitterChain, Probe::EmitterAddress, Probe::Replay]
    );
    // Only the committed run left its mark, and its account was closed.
    assert_eq!(ledger.consumed, vec![vaa.body()]);
    assert_eq!(ledger.open_signature_accounts, 0);
}

#[test]
fn program_skipping_verification_is_a_bypass() {
    let program = Program { verifies: false, ..CORRECT };
    let (result, probes, ledger) = with_vaa(&scenario_vaa(), program);
    assert!(matches!(result, Err(WormholeTestError::VerificationBypass(_))));
    assert_eq!(probes, vec![Probe::SignatureMismatch]);
    assert!(ledger.consumed.is_empty());
}

#[test]
fn program_without_replay_protection_is_caught() {
    let program = Program { marks_consumed: false, ..CORRECT };
    let (result, _, _) = with_vaa(&scenario_vaa(), program);
    assert!(matches!(result, Err(WormholeTestError::ReplayProtectionMissing(_))));
}

#[test]
fn program_ignoring_emitter_chain_is_caught_when_checked() {
    let program = Program { checks_chain: false, ..CORRECT };
    let (result, _, _) = with_vaa(&scenario_vaa(), program);
    assert!(matches!(result, Err(WormholeTestError::EmitterChainBypass(_))));
}

#[test]
fn program_ignoring_emitter_chain_passes_when_unchecked() {
    let program = Program { checks_chain: false, ..CORRECT };
    let mut vaa = scenario_vaa();
    vaa.checks.emitter_chain = false;
    let (result, probes, _) = with_vaa(&vaa, program);
    assert!(result.is_ok());
    assert_eq!(probes, vec![Probe::SignatureMismatch, Probe::EmitterAddress, Probe::Replay]);
}

#[test]
fn program_ignoring_emitter_address_is_caught() {
    let program = Program { checks_address: false, ..CORRECT };
    let (result, _, _) = with_vaa(&scenario_vaa(), program);
    assert!(matches!(result, Err(WormholeTestError::EmitterAddressBypass(_))));
}

#[test]
fn replayable_operations_skip_the_replay_probe() {
    let program = Program { marks_consumed: false, ..CORRECT };
    let mut vaa = scenario_vaa();
    vaa.checks.replay = ReplayProtection::Replayable;
    let (result, probes, _) = with_vaa(&vaa, program);
    assert!(result.is_ok());
    assert_eq!(probes.last(), Some(&Probe::EmitterAddress));
}

#[test]
fn failed_commit_is_reported() {
    let mut vaa = scenario_vaa();
    vaa.emitter_address = [0x01; 32];
    let (result, probes, ledger) = with_vaa(&vaa, CORRECT);
    assert!(matches!(result, Err(WormholeTestError::LoadError(_))));
    // The committed run's signatures account was closed, and no replay ran.
    assert_eq!(ledger.open_signature_accounts, 0);
    assert_eq!(probes.last(), Some(&Probe::EmitterAddress));
}

#[test]
fn close_failure_does_not_mask_a_failed_commit() {
    let guardians = TestGuardianSet::single(TestGuardian::default());
    let mut harness = VaaHarness::new(scenario_vaa(), &guardians);
    let mut action = harness.start();
    while let HarnessAction::Probe(..) = action {
        action = harness.on_probe(ProbeEvent::Rejected);
    }
    assert!(matches!(action, HarnessAction::Commit(..)));
    let failure = WormholeTestError::LoadError("verification failed".to_string());
    assert!(matches!(harness.on_commit(CommitEvent::Ran(Err(failure.clone()))), HarnessAction::CloseCommitted));
    match harness.on_closed(Err(WormholeTestError::LoadError("close failed".to_string()))) {
        HarnessAction::Finished(Err(e)) => assert_eq!(e, failure),
        other => panic!("expected the run's own error, got {:?}", other),
    }
}

#[test]
fn close_failure_after_a_good_commit_is_reported() {
    let guardians = TestGuardianSet::single(TestGuardian::default());
    let mut harness = VaaHarness::new(scenario_vaa(), &guardians);
    let mut action = harness.start();
    while let HarnessAction::Probe(..) = action {
        action = harness.on_probe(ProbeEvent::Rejected);
    }
    assert!(matches!(harness.on_commit(CommitEvent::Ran(Ok(()))), HarnessAction::CloseCommitted));
    let close = WormholeTestError::LoadError("close failed".to_string());
    assert!(matches!(harness.on_closed(Err(close.clone())), HarnessAction::Finished(Err(e)) if e == close));
}

#[test]
fn failed_commit_post_ends_the_run() {
    let guardians = TestGuardianSet::single(TestGuardian::default());
    let mut harness = VaaHarness::new(scenario_vaa(), &guardians);
    let mut action = harness.start();
    while let HarnessAction::Probe(..) = action {
        action = harness.on_probe(ProbeEvent::Rejected);
    }
    let post = WormholeTestError::LoadError("post failed".to_string());
    assert!(matches!(harness.on_commit(CommitEvent::PostFailed(post.clone())), HarnessAction::Finished(Err(e)) if e == post));
}
