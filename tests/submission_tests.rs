use wormhole_svm::submission::{Submission, SubmissionAction, SubmissionPhase};
use wormhole_svm::error::SubmitError;
use wormhole_svm::instruction::{InstructionGroup, SerializableAccountMeta, SerializableInstruction};
use wormhole_svm::placeholder::Placeholders;
use wormhole_svm::resolve::ResolverResult;

fn placeholders() -> Placeholders {
    let mut slots = [[0u8; 32]; 10];
    for (k, s) in slots.iter_mut().enumerate() {
        *s = [0xC0 + k as u8; 32];
    }
    Placeholders::new([0xA1; 32], [0xA2; 32], [0xA3; 32], slots).unwrap()
}

fn resolved(uses_signatures: bool) -> ResolverResult {
    let key = if uses_signatures { [0xA2; 32] } else { [0x77; 32] };
    ResolverResult {
        instruction_groups: vec![InstructionGroup {
            instructions: vec![SerializableInstruction {
                program_id: [9; 32],
                accounts: vec![SerializableAccountMeta { pubkey: key, is_signer: false, is_writable: false }],
                data: vec![],
            }],
        }],
        iterations: 2,
    }
}

const POSTED: [u8; 32] = [0x99; 32];

fn posted_submission() -> Submission {
    let mut b = Submission::new(&placeholders());
    assert!(matches!(b.on_resolved(Ok(resolved(true))), SubmissionAction::PostSignatures));
    match b.on_posted(Ok(POSTED)) {
        SubmissionAction::Execute(groups) => assert_eq!(groups.len(), 1),
        other => panic!("expected execution, got {:?}", other),
    }
    b
}

#[test]
fn failed_execution_still_closes_and_keeps_its_error() {
    let mut b = posted_submission();
    let error = SubmitError::Execution("group 1 failed".to_string());
    match b.on_executed(Err(error.clone())) {
        SubmissionAction::CloseSignatures(address) => assert_eq!(address, POSTED),
        other => panic!("expected close, got {:?}", other),
    }
    match b.on_closed(Err(SubmitError::Connection("close failed".to_string()))) {
        SubmissionAction::Finished(result, warning) => {
            assert_eq!(result, Err(error));
            assert_eq!(warning, Some(SubmitError::Connection("close failed".to_string())));
        }
        other => panic!("expected the end, got {:?}", other),
    }
    assert_eq!(b.phase, SubmissionPhase::Done);
}

#[test]
fn successful_execution_closes_and_returns_signatures() {
    let mut b = posted_submission();
    assert!(matches!(b.on_executed(Ok(vec![[5; 64]])), SubmissionAction::CloseSignatures(a) if a == POSTED));
    match b.on_closed(Ok(())) {
        SubmissionAction::Finished(result, warning) => {
            assert_eq!(result, Ok(vec![[5u8; 64]]));
            assert_eq!(warning, None);
        }
        other => panic!("expected the end, got {:?}", other),
    }
}

#[test]
fn close_failure_after_success_is_only_a_warning() {
    let mut b = posted_submission();
    b.on_executed(Ok(vec![[5; 64]]));
    match b.on_closed(Err(SubmitError::Connection("x".to_string()))) {
        SubmissionAction::Finished(result, warning) => {
            assert_eq!(result, Ok(vec![[5u8; 64]]));
            assert!(warning.is_some());
        }
        other => panic!("expected the end, got {:?}", other),
    }
}

#[test]
fn plan_without_signatures_account_is_unsupported() {
    let mut b = Submission::new(&placeholders());
    match b.on_resolved(Ok(resolved(false))) {
        SubmissionAction::Finished(Err(SubmitError::Execution(_)), None) => {}
        other => panic!("expected an unsupported-program error, got {:?}", other),
    }
}

#[test]
fn resolution_and_posting_failures_end_the_flow() {
    let mut b = Submission::new(&placeholders());
    let e = SubmitError::ResolverSimulation("no data".to_string());
    assert!(matches!(b.on_resolved(Err(e.clone())), SubmissionAction::Finished(Err(x), None) if x == e));
    let mut b = Submission::new(&placeholders());
    b.on_resolved(Ok(resolved(true)));
    let e = SubmitError::Connection("post failed".to_string());
    assert!(matches!(b.on_posted(Err(e.clone())), SubmissionAction::Finished(Err(x), None) if x == e));
}
