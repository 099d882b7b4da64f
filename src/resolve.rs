//! The account-resolution protocol.
//!
//! Each round simulates a resolve instruction carrying the accounts gathered
//! so far and reads back one outcome: more accounts are missing, the plan is
//! resolved, or an unsupported answer. The rounds are bounded. Simulating is
//! left to the caller, who reports each round's outcome.

use vstd::prelude::*;

use crate::bytes::{le_u32, push_all, push_le_u32};
use crate::error::SubmitError;
use crate::bytes::copy_vec;
use crate::instruction::{InstructionGroup, SerializableAccountMeta, SerializableInstruction};
use crate::placeholder::{same_address, Placeholders, Role};

verus! {

/// The instruction data of a resolve round: the 8-byte operation tag, the body
/// length as a little-endian `u32`, then the body.
pub open spec fn request_data(tag: Seq<u8>, body: Seq<u8>) -> Seq<u8> {
    tag + le_u32(body.len() as u32) + body
}

/// Resolve-time substitution: the payer and guardian-set placeholders are
/// filled, every other address is kept.
pub open spec fn resolve_substitute(
    placeholders: Placeholders,
    payer: [u8; 32],
    guardian_set: [u8; 32],
    a: [u8; 32],
) -> [u8; 32] {
    if a == placeholders.address_of(Role::Payer) {
        payer
    } else if a == placeholders.address_of(Role::GuardianSet) {
        guardian_set
    } else {
        a
    }
}

/// Fills the payer and guardian-set placeholders.
pub fn substitute_placeholder(
    placeholders: &Placeholders,
    payer: &[u8; 32],
    guardian_set: &[u8; 32],
    a: &[u8; 32],
) -> (r: [u8; 32])
    ensures
        r == resolve_substitute(*placeholders, *payer, *guardian_set, *a),
{
    if same_address(a, &placeholders.payer()) {
        *payer
    } else if same_address(a, &placeholders.guardian_set()) {
        *guardian_set
    } else {
        *a
    }
}

/// The accounts a missing-accounts outcome adds: each address substituted,
/// read-only, not signing.
pub open spec fn added_accounts(
    placeholders: Placeholders,
    payer: [u8; 32],
    guardian_set: [u8; 32],
    missing: Seq<[u8; 32]>,
) -> Seq<SerializableAccountMeta> {
    missing.map_values(
        |a: [u8; 32]|
            SerializableAccountMeta {
                pubkey: resolve_substitute(placeholders, payer, guardian_set, a),
                is_signer: false,
                is_writable: false,
            },
    )
}

/// One decoded answer of the target program.
#[derive(Clone, Debug)]
pub enum ResolverOutcome {
    /// These accounts must be added for the next round.
    Missing(Vec<[u8; 32]>),
    /// The final instruction groups.
    Resolved(Vec<InstructionGroup>),
    /// The account variant, which this protocol does not support.
    Account,
}

/// What one round of simulation gave.
#[derive(Clone, Debug)]
pub enum ResolverEvent {
    /// No recency token could be fetched.
    BlockhashFailed(String),
    /// The simulation failed.
    SimulationFailed(String),
    /// The simulation returned no data.
    NoReturnData,
    /// The returned data did not decode.
    Undecodable(String),
    /// The returned data decoded to this outcome.
    Outcome(ResolverOutcome),
}

/// The result of a successful resolution.
#[derive(Clone, Debug)]
pub struct ResolverResult {
    /// The resolved instruction groups, in order.
    pub instruction_groups: Vec<InstructionGroup>,
    /// How many rounds were simulated.
    pub iterations: usize,
}

/// What the caller does next.
#[derive(Clone, Debug)]
pub enum ResolverStep {
    /// Simulate this instruction, signed by the payer.
    Simulate(SerializableInstruction),
    /// Resolution succeeded.
    Resolved(ResolverResult),
    /// Resolution failed.
    Failed(SubmitError),
}

/// The kind of a step, as the round counter decides it.
pub enum RoundKind {
    Continue,
    Resolved(nat),
    ConnectionError,
    ProtocolError,
}

/// What the round after `rounds` answered rounds makes of `event`, with a
/// budget of `max` rounds.
pub open spec fn round_kind(rounds: nat, max: nat, event: ResolverEvent) -> RoundKind {
    match event {
        ResolverEvent::BlockhashFailed(_) => RoundKind::ConnectionError,
        ResolverEvent::Outcome(ResolverOutcome::Resolved(_)) => RoundKind::Resolved(rounds + 1),
        ResolverEvent::Outcome(ResolverOutcome::Missing(_)) => if rounds + 1 >= max {
            RoundKind::ProtocolError
        } else {
            RoundKind::Continue
        },
        _ => RoundKind::ProtocolError,
    }
}

/// The kind of an executable step.
pub open spec fn step_kind(step: ResolverStep) -> RoundKind {
    match step {
        ResolverStep::Simulate(_) => RoundKind::Continue,
        ResolverStep::Resolved(r) => RoundKind::Resolved(r.iterations as nat),
        ResolverStep::Failed(SubmitError::Connection(_)) => RoundKind::ConnectionError,
        ResolverStep::Failed(_) => RoundKind::ProtocolError,
    }
}

/// Feeds `events` to a resolver that has answered `rounds` rounds, until a
/// step other than `Continue`: how many events it took, and that step.
pub open spec fn drive(rounds: nat, max: nat, events: Seq<ResolverEvent>) -> (nat, RoundKind)
    decreases events.len(),
{
    if events.len() == 0 {
        (0, RoundKind::Continue)
    } else {
        match round_kind(rounds, max, events[0]) {
            RoundKind::Continue => {
                let (n, k) = drive(rounds + 1, max, events.drop_first());
                (n + 1, k)
            },
            k => (1, k),
        }
    }
}

/// The diagnostic of a resolution that ran out of rounds: the budget, and the
/// gathered addresses in base58.
pub uninterp spec fn exhaustion_diagnostic(rounds: nat, addresses: Seq<Seq<u8>>) -> Seq<char>;

/// The addresses of a list of accounts.
pub open spec fn addresses_of(accounts: Seq<SerializableAccountMeta>) -> Seq<Seq<u8>> {
    accounts.map_values(|a: SerializableAccountMeta| a.pubkey@)
}

/// Describes an exhausted resolution, listing the gathered addresses in
/// base58.
///
/// Relies on solana_sdk::pubkey::Pubkey's `Display`, which prints base58, and
/// on `format!`: the text depends on the budget and the addresses alone.
#[verifier::external_body]
fn exhausted_message(max_iterations: usize, accounts: &Vec<SerializableAccountMeta>) -> (r: String)
    ensures
        r@ == exhaustion_diagnostic(max_iterations as nat, addresses_of(accounts@)),
{
    format!(
        "Resolver did not resolve after {} iterations. Remaining accounts: {:?}",
        max_iterations,
        accounts
            .iter()
            .map(|a| solana_sdk::pubkey::Pubkey::new_from_array(a.pubkey).to_string())
            .collect::<Vec<_>>()
    )
}

/// The state of one resolution.
#[derive(Clone, Debug)]
pub struct Resolver {
    program_id: [u8; 32],
    payer: [u8; 32],
    guardian_set: [u8; 32],
    placeholders: Placeholders,
    data: Vec<u8>,
    max_iterations: usize,
    remaining_accounts: Vec<SerializableAccountMeta>,
    rounds: usize,
}

impl Resolver {
    pub closed spec fn spec_program_id(&self) -> [u8; 32] {
        self.program_id
    }

    pub closed spec fn spec_payer(&self) -> [u8; 32] {
        self.payer
    }

    pub closed spec fn spec_guardian_set(&self) -> [u8; 32] {
        self.guardian_set
    }

    pub closed spec fn spec_placeholders(&self) -> Placeholders {
        self.placeholders
    }

    /// The instruction data every round sends.
    pub closed spec fn spec_data(&self) -> Seq<u8> {
        self.data@
    }

    /// The round budget.
    pub closed spec fn spec_max(&self) -> nat {
        self.max_iterations as nat
    }

    /// The accounts gathered so far.
    pub closed spec fn spec_remaining(&self) -> Seq<SerializableAccountMeta> {
        self.remaining_accounts@
    }

    /// How many rounds were answered.
    pub closed spec fn spec_rounds(&self) -> nat {
        self.rounds as nat
    }

    /// Whether `ix` is the resolve instruction of the next round.
    pub open spec fn is_request(&self, ix: SerializableInstruction) -> bool {
        &&& ix.program_id == self.spec_program_id()
        &&& ix.accounts@ == self.spec_remaining()
        &&& ix.data@ == self.spec_data()
    }

    /// A resolution of `vaa_body` against `program_id`, with a budget of
    /// `max_iterations` rounds and `tag` as the operation tag.
    pub fn new(
        program_id: [u8; 32],
        payer: [u8; 32],
        guardian_set: [u8; 32],
        placeholders: Placeholders,
        tag: [u8; 8],
        vaa_body: &[u8],
        max_iterations: usize,
    ) -> (r: Self)
        requires
            vaa_body@.len() <= u32::MAX,
        ensures
            r.spec_program_id() == program_id,
            r.spec_payer() == payer,
            r.spec_guardian_set() == guardian_set,
            r.spec_placeholders() == placeholders,
            r.spec_data() == request_data(tag@, vaa_body@),
            r.spec_max() == max_iterations,
            r.spec_remaining().len() == 0,
            r.spec_rounds() == 0,
    {
        let mut data: Vec<u8> = Vec::new();
        push_all(&mut data, tag.as_slice());
        push_le_u32(&mut data, vaa_body.len() as u32);
        push_all(&mut data, vaa_body);
        Resolver {
            program_id,
            payer,
            guardian_set,
            placeholders,
            data,
            max_iterations,
            remaining_accounts: Vec::new(),
            rounds: 0,
        }
    }

    fn request(&self) -> (r: SerializableInstruction)
        ensures
            self.is_request(r),
    {
        SerializableInstruction {
            program_id: self.program_id,
            accounts: copy_vec(&self.remaining_accounts),
            data: copy_vec(&self.data),
        }
    }

    /// The first step: the first round's request, or a protocol error when
    /// the budget is zero.
    pub fn start(&self) -> (r: ResolverStep)
        requires
            self.spec_rounds() == 0,
        ensures
            self.spec_max() == 0 ==> (r matches ResolverStep::Failed(SubmitError::ResolverSimulation(m))
                && m@ == exhaustion_diagnostic(0, addresses_of(self.spec_remaining()))),
            self.spec_max() > 0 ==> (r matches ResolverStep::Simulate(ix) && self.is_request(ix)),
    {
        if self.max_iterations == 0 {
            ResolverStep::Failed(SubmitError::ResolverSimulation(exhausted_message(0, &self.remaining_accounts)))
        } else {
            ResolverStep::Simulate(self.request())
        }
    }

    /// Takes the outcome of the current round and says what comes next.
    pub fn on_event(&mut self, event: ResolverEvent) -> (r: ResolverStep)
        requires
            old(self).spec_rounds() < old(self).spec_max(),
        ensures
            step_kind(r) == round_kind(old(self).spec_rounds(), old(self).spec_max(), event),
            final(self).spec_program_id() == old(self).spec_program_id(),
            final(self).spec_payer() == old(self).spec_payer(),
            final(self).spec_guardian_set() == old(self).spec_guardian_set(),
            final(self).spec_placeholders() == old(self).spec_placeholders(),
            final(self).spec_data() == old(self).spec_data(),
            final(self).spec_max() == old(self).spec_max(),
            final(self).spec_rounds() == old(self).spec_rounds() + 1,
            match event {
                ResolverEvent::BlockhashFailed(m) => r == ResolverStep::Failed(SubmitError::Connection(m)),
                ResolverEvent::SimulationFailed(m) => r == ResolverStep::Failed(
                    SubmitError::ResolverSimulation(m),
                ),
                ResolverEvent::Undecodable(m) => r == ResolverStep::Failed(
                    SubmitError::ResolverSimulation(m),
                ),
                ResolverEvent::NoReturnData => r matches ResolverStep::Failed(
                    SubmitError::ResolverSimulation(_),
                ),
                ResolverEvent::Outcome(ResolverOutcome::Account) => r matches ResolverStep::Failed(
                    SubmitError::ResolverSimulation(_),
                ),
                ResolverEvent::Outcome(ResolverOutcome::Resolved(groups)) => (r matches ResolverStep::Resolved(res)
                    && res.instruction_groups == groups && res.iterations == final(self).spec_rounds()),
                ResolverEvent::Outcome(ResolverOutcome::Missing(missing)) => {
                    &&& final(self).spec_remaining() == old(self).spec_remaining() + added_accounts(
                        old(self).spec_placeholders(),
                        old(self).spec_payer(),
                        old(self).spec_guardian_set(),
                        missing@,
                    )
                    &&& (r matches ResolverStep::Simulate(ix) ==> final(self).is_request(ix))
                    &&& final(self).spec_rounds() >= final(self).spec_max() ==> (
                    r matches ResolverStep::Failed(SubmitError::ResolverSimulation(m)) && m@
                        == exhaustion_diagnostic(
                        final(self).spec_max(),
                        addresses_of(final(self).spec_remaining()),
                    ))
                },
            },
    {
        self.rounds = self.rounds + 1;
        match event {
            ResolverEvent::BlockhashFailed(m) => ResolverStep::Failed(SubmitError::Connection(m)),
            ResolverEvent::SimulationFailed(m) => ResolverStep::Failed(
                SubmitError::ResolverSimulation(m),
            ),
            ResolverEvent::NoReturnData => ResolverStep::Failed(
                SubmitError::ResolverSimulation("No return data from resolver".to_owned()),
            ),
            ResolverEvent::Undecodable(m) => ResolverStep::Failed(
                SubmitError::ResolverSimulation(m),
            ),
            ResolverEvent::Outcome(ResolverOutcome::Resolved(groups)) => ResolverStep::Resolved(
                ResolverResult { instruction_groups: groups, iterations: self.rounds },
            ),
            ResolverEvent::Outcome(ResolverOutcome::Account) => ResolverStep::Failed(
                SubmitError::ResolverSimulation(
                    "Resolver returned Account() -- not supported".to_owned(),
                ),
            ),
            ResolverEvent::Outcome(ResolverOutcome::Missing(missing)) => {
                let ghost added = added_accounts(
                    self.placeholders,
                    self.payer,
                    self.guardian_set,
                    missing@,
                );
                let mut extra: Vec<SerializableAccountMeta> = Vec::new();
                for i in 0..missing.len()
                    invariant
                        added == added_accounts(
                            self.placeholders,
                            self.payer,
                            self.guardian_set,
                            missing@,
                        ),
                        extra@ == added.subrange(0, i as int),
                {
                    let actual = substitute_placeholder(
                        &self.placeholders,
                        &self.payer,
                        &self.guardian_set,
                        &missing[i],
                    );
                    extra.push(
                        SerializableAccountMeta { pubkey: actual, is_signer: false, is_writable: false },
                    );
                    assert(added.subrange(0, i + 1) == added.subrange(0, i as int).push(
                        added[i as int],
                    ));
                }
                assert(added.subrange(0, missing@.len() as int) == added);
                self.remaining_accounts.append(&mut extra);
                if self.rounds >= self.max_iterations {
                    ResolverStep::Failed(
                        SubmitError::ResolverSimulation(
                            exhausted_message(self.max_iterations, &self.remaining_accounts),
                        ),
                    )
                } else {
                    ResolverStep::Simulate(self.request())
                }
            },
        }
    }
}

/// Whether the round answered that accounts are missing.
pub open spec fn is_missing(event: ResolverEvent) -> bool {
    match event {
        ResolverEvent::Outcome(ResolverOutcome::Missing(_)) => true,
        _ => false,
    }
}

/// Whether the round answered with the resolved groups.
pub open spec fn is_resolved(event: ResolverEvent) -> bool {
    match event {
        ResolverEvent::Outcome(ResolverOutcome::Resolved(_)) => true,
        _ => false,
    }
}

/// `n` missing-accounts outcomes, then a resolved one.
pub open spec fn missing_then_resolved(events: Seq<ResolverEvent>, n: nat) -> bool {
    &&& events.len() == n + 1
    &&& forall|i: int| 0 <= i < n ==> is_missing(#[trigger] events[i])
    &&& is_resolved(events[n as int])
}

proof fn lemma_drive_from(rounds: nat, max: nat, events: Seq<ResolverEvent>, n: nat)
    requires
        rounds < max,
        missing_then_resolved(events, n),
    ensures
        rounds + n + 1 <= max ==> drive(rounds, max, events) == (n + 1, RoundKind::Resolved(
            rounds + n + 1,
        )),
        rounds + n + 1 > max ==> drive(rounds, max, events) == ((max - rounds) as nat,
        RoundKind::ProtocolError),
    decreases n,
{
    if n > 0 {
        let rest = events.drop_first();
        assert(is_missing(events[0]));
        if rounds + 1 < max {
            assert(missing_then_resolved(rest, (n - 1) as nat)) by {
                assert forall|i: int| 0 <= i < n - 1 implies is_missing(#[trigger] rest[i]) by {
                    assert(rest[i] == events[i + 1]);
                }
                assert(rest[n - 1] == events[n as int]);
            }
            lemma_drive_from(rounds + 1, max, rest, (n - 1) as nat);
        }
    }
}

/// Resolution takes exactly as many rounds as the program needs: after `n`
/// missing-accounts rounds and a resolved one, it succeeds after `n + 1`
/// simulations with `iterations == n + 1`, when the budget allows `n + 1`
/// rounds; otherwise it fails with a protocol error once the budget is spent.
pub proof fn lemma_resolver_rounds(max: nat, events: Seq<ResolverEvent>, n: nat)
    requires
        max > 0,
        missing_then_resolved(events, n),
    ensures
        n + 1 <= max ==> drive(0, max, events) == (n + 1, RoundKind::Resolved(n + 1)),
        n + 1 > max ==> drive(0, max, events) == (max, RoundKind::ProtocolError),
{
    lemma_drive_from(0, max, events, n);
}

} // verus!
