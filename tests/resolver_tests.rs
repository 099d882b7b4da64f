use wormhole_svm::error::SubmitError;
use wormhole_svm::instruction::{InstructionGroup, SerializableAccountMeta, SerializableInstruction};
use wormhole_svm::placeholder::Placeholders;
use wormhole_svm::resolve::{Resolver, ResolverEvent, ResolverOutcome, ResolverStep};

const TAG: [u8; 8] = [1, 2, 3, 4, 5, 6, 7, 8];

fn placeholders() -> Placeholders {
    let mut slots = [[0u8; 32]; 10];
    for (k, slot) in slots.iter_mut().enumerate() {
        *slot = [0xC0 + k as u8; 32];
    }
    Placeholders::new([0xA1; 32], [0xA2; 32], [0xA3; 32], slots).unwrap()
}

fn resolved_groups() -> Vec<InstructionGroup> {
    vec![InstructionGroup {
        instructions: vec![SerializableInstruction {
            program_id: [9; 32],
            accounts: vec![SerializableAccountMeta { pubkey: [0xA2; 32], is_signer: false, is_writable: false }],
            data: vec![1],
        }],
    }]
}

/// Feeds `n` missing rounds then a resolved round; returns the simulations
/// asked for and the final step.
fn run(n: usize, budget: usize) -> (usize, ResolverStep) {
    let mut resolver = Resolver::new([7; 32], [0xEE; 32], [0xDD; 32], placeholders(), TAG, &[5, 6], budget);
    let mut step = resolver.start();
    let mut simulations = 0;
    loop {
        match step {
            ResolverStep::Simulate(_) => {
                simulations += 1;
                let event = if simulations <= n {
                    ResolverEvent::Outcome(ResolverOutcome::Missing(vec![[simulations as u8; 32]]))
                } else {
                    ResolverEvent::Outcome(ResolverOutcome::Resolved(resolved_groups()))
                };
                step = resolver.on_event(event);
            }
            other => return (simulations, other),
        }
    }
}

#[test]
fn resolves_after_missing_rounds() {
    let (simulations, step) = run(3, 10);
    assert_eq!(simulations, 4);
    match step {
        ResolverStep::Resolved(result) => {
            assert_eq!(result.iterations, 4);
            assert_eq!(result.instruction_groups.len(), 1);
        }
        _ => panic!("expected resolution"),
    }
}

#[test]
fn resolves_in_one_round() {
    let (simulations, step) = run(0, 1);
    assert_eq!(simulations, 1);
    assert!(matches!(step, ResolverStep::Resolved(r) if r.iterations == 1));
}

#[test]
fn budget_exhausted_is_a_protocol_error() {
    let (simulations, step) = run(3, 3);
    assert_eq!(simulations, 3);
    assert!(matches!(step, ResolverStep::Failed(SubmitError::ResolverSimulation(_))));
}

#[test]
fn zero_budget_fails_without_simulating() {
    let (simulations, step) = run(0, 0);
    assert_eq!(simulations, 0);
    assert!(matches!(step, ResolverStep::Failed(SubmitError::ResolverSimulation(_))));
}

#[test]
fn request_carries_tag_length_body_and_substituted_accounts() {
    let mut resolver = Resolver::new([7; 32], [0xEE; 32], [0xDD; 32], placeholders(), TAG, &[5, 6], 5);
    let first = match resolver.start() {
        ResolverStep::Simulate(ix) => ix,
        _ => panic!("expected a request"),
    };
    assert_eq!(first.program_id, [7; 32]);
    assert!(first.accounts.is_empty());
    assert_eq!(first.data, vec![1, 2, 3, 4, 5, 6, 7, 8, 2, 0, 0, 0, 5, 6]);
    let missing = vec![[0xA1; 32], [0xA3; 32], [0xA2; 32], [0x42; 32]];
    let second = match resolver.on_event(ResolverEvent::Outcome(ResolverOutcome::Missing(missing))) {
        ResolverStep::Simulate(ix) => ix,
        _ => panic!("expected a request"),
    };
    let keys: Vec<[u8; 32]> = second.accounts.iter().map(|a| a.pubkey).collect();
    assert_eq!(keys, vec![[0xEE; 32], [0xDD; 32], [0xA2; 32], [0x42; 32]]);
    assert!(second.accounts.iter().all(|a| !a.is_signer && !a.is_writable));
}

#[test]
fn failures_of_a_round() {
    let new = || Resolver::new([7; 32], [0xEE; 32], [0xDD; 32], placeholders(), TAG, &[], 5);
    let mut r = new();
    assert!(matches!(r.on_event(ResolverEvent::BlockhashFailed("down".to_string())),
        ResolverStep::Failed(SubmitError::Connection(m)) if m == "down"));
    let mut r = new();
    assert!(matches!(r.on_event(ResolverEvent::SimulationFailed("bad".to_string())),
        ResolverStep::Failed(SubmitError::ResolverSimulation(m)) if m == "bad"));
    let mut r = new();
    assert!(matches!(r.on_event(ResolverEvent::NoReturnData),
        ResolverStep::Failed(SubmitError::ResolverSimulation(_))));
    let mut r = new();
    assert!(matches!(r.on_event(ResolverEvent::Undecodable("junk".to_string())),
        ResolverStep::Failed(SubmitError::ResolverSimulation(m)) if m == "junk"));
    let mut r = new();
    assert!(matches!(r.on_event(ResolverEvent::Outcome(ResolverOutcome::Account)),
        ResolverStep::Failed(SubmitError::ResolverSimulation(_))));
}

#[test]
fn placeholder_table_must_be_injective() {
    let slots = [[0xC0; 32]; 10];
    assert!(Placeholders::new([1; 32], [2; 32], [3; 32], slots).is_none());
    let mut slots = [[0u8; 32]; 10];
    for (k, slot) in slots.iter_mut().enumerate() {
        *slot = [0xC0 + k as u8; 32];
    }
    assert!(Placeholders::new([1; 32], [1; 32], [3; 32], slots).is_none());
    assert!(Placeholders::new([1; 32], [2; 32], [3; 32], slots).is_some());
}
