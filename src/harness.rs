//! The security harness behind `with_vaa`.
//!
//! It shows that a receiving program really verifies a VAA: on throw-away
//! forks of the ledger state it presents bodies whose signatures do not
//! match, or that come from another emitter, and expects rejection; then it
//! runs the real VAA on the real state; then, if asked, it replays the VAA on
//! a fork and expects rejection again. The caller forks, posts, runs the
//! verification and discards, and reports each outcome.

use vstd::prelude::*;

use crate::error::WormholeTestError;
use crate::bytes::copy_vec;
use crate::guardian::{all_signed_records, records_view, TestGuardianSet};
use crate::vaa::{body_bytes, ReplayProtection, TestVaa};

verus! {

/// A negative probe.
#[derive(Clone, Copy, Debug, PartialEq, Eq, Structural)]
pub enum Probe {
    /// Signatures over another body (the next sequence number).
    SignatureMismatch,
    /// A VAA from the next emitter chain, correctly signed.
    EmitterChain,
    /// A VAA whose emitter address has its last byte flipped, correctly signed.
    EmitterAddress,
    /// The same VAA again, after the committed run.
    Replay,
}

/// What the caller does next.
#[derive(Debug)]
pub enum HarnessAction {
    /// On a fresh fork of the current state: post these signatures, run the
    /// verification with this body, then discard the fork.
    Probe(Probe, Vec<[u8; 66]>, Vec<u8>),
    /// On the real state: post these signatures, run the verification with
    /// this body, and keep its effects.
    Commit(Vec<[u8; 66]>, Vec<u8>),
    /// Close the signatures account posted for the committed run.
    CloseCommitted,
    /// The harness is done.
    Finished(Result<(), WormholeTestError>),
}

/// The outcome of a probe.
#[derive(Debug)]
pub enum ProbeEvent {
    /// Setting the probe up failed (posting the signatures).
    Failed(WormholeTestError),
    /// The program accepted the probe.
    Accepted,
    /// The program rejected the probe.
    Rejected,
}

/// The outcome of the committed run.
#[derive(Debug)]
pub enum CommitEvent {
    /// Posting the signatures failed; nothing was posted.
    PostFailed(WormholeTestError),
    /// The signatures were posted and the verification ran, with this result.
    Ran(Result<(), WormholeTestError>),
}

/// Where the harness stands.
#[derive(Clone, Copy, Debug, PartialEq, Eq, Structural)]
pub enum HarnessStage {
    /// Running the pre-commit probe at this position.
    Probing(usize),
    Committing,
    /// Closing the committed run's signatures account.
    Closing,
    Replaying,
    Done,
}

/// The next value of a `u64`, wrapping.
pub open spec fn next_u64(x: u64) -> u64 {
    if x == u64::MAX { 0 } else { (x + 1) as u64 }
}

/// The next value of a `u16`, wrapping.
pub open spec fn next_u16(x: u16) -> u16 {
    if x == u16::MAX { 0 } else { (x + 1) as u16 }
}

/// The body of `vaa` with the given emitter chain, emitter address and sequence.
pub open spec fn body_with(vaa: TestVaa, chain: u16, address: Seq<u8>, sequence: u64) -> Seq<u8> {
    body_bytes(vaa.timestamp, vaa.nonce, chain, address, sequence, vaa.consistency_level, vaa.payload@)
}

/// The emitter address with its last byte flipped.
pub open spec fn flipped_address(vaa: TestVaa) -> Seq<u8> {
    vaa.emitter_address@.update(31, vaa.emitter_address@[31] ^ 0xffu8)
}

/// The body whose signatures a probe posts.
pub open spec fn signed_body(vaa: TestVaa, probe: Probe) -> Seq<u8> {
    match probe {
        Probe::SignatureMismatch => body_with(
            vaa,
            vaa.emitter_chain,
            vaa.emitter_address@,
            next_u64(vaa.sequence),
        ),
        Probe::EmitterChain => body_with(
            vaa,
            next_u16(vaa.emitter_chain),
            vaa.emitter_address@,
            vaa.sequence,
        ),
        Probe::EmitterAddress => body_with(vaa, vaa.emitter_chain, flipped_address(vaa), vaa.sequence),
        Probe::Replay => vaa.spec_body(),
    }
}

/// The body a probe presents to the program.
pub open spec fn presented_body(vaa: TestVaa, probe: Probe) -> Seq<u8> {
    match probe {
        Probe::SignatureMismatch => vaa.spec_body(),
        _ => signed_body(vaa, probe),
    }
}

/// The probes run before the committed run, in order.
pub open spec fn pre_commit_probes(vaa: TestVaa) -> Seq<Probe> {
    seq![Probe::SignatureMismatch] + (if vaa.checks.emitter_chain {
        seq![Probe::EmitterChain]
    } else {
        seq![]
    }) + (if vaa.checks.emitter_address {
        seq![Probe::EmitterAddress]
    } else {
        seq![]
    })
}

/// The fault a probe reports when the program accepts it.
pub open spec fn is_fault_of(probe: Probe, e: WormholeTestError) -> bool {
    match probe {
        Probe::SignatureMismatch => e is VerificationBypass,
        Probe::EmitterChain => e is EmitterChainBypass,
        Probe::EmitterAddress => e is EmitterAddressBypass,
        Probe::Replay => e is ReplayProtectionMissing,
    }
}

/// A VAA that differs from `vaa` in its emitter chain, emitter address and
/// sequence only.
fn variant(vaa: &TestVaa, chain: u16, address: [u8; 32], sequence: u64) -> (r: TestVaa)
    ensures
        r.spec_body() == body_with(*vaa, chain, address@, sequence),
{
    TestVaa {
        emitter_chain: chain,
        emitter_address: address,
        sequence,
        payload: copy_vec(&vaa.payload),
        timestamp: vaa.timestamp,
        nonce: vaa.nonce,
        consistency_level: vaa.consistency_level,
        guardian_set_index: vaa.guardian_set_index,
        checks: vaa.checks,
    }
}

/// Whether `sigs` and `body` are what `probe` posts and presents.
pub open spec fn is_probe_material(
    vaa: TestVaa,
    keys: Seq<Seq<u8>>,
    probe: Probe,
    sigs: Seq<[u8; 66]>,
    body: Seq<u8>,
) -> bool {
    &&& records_view(sigs) == all_signed_records(keys, signed_body(vaa, probe))
    &&& body == presented_body(vaa, probe)
}

/// The state of one harness run.
pub struct VaaHarness {
    vaa: TestVaa,
    keys: Ghost<Seq<Seq<u8>>>,
    commit_result: Option<Result<(), WormholeTestError>>,
    probes: Vec<Probe>,
    stage: HarnessStage,
    body: Vec<u8>,
    correct: Vec<[u8; 66]>,
    mismatched: Vec<[u8; 66]>,
    chain_body: Vec<u8>,
    chain_sigs: Vec<[u8; 66]>,
    address_body: Vec<u8>,
    address_sigs: Vec<[u8; 66]>,
}

impl VaaHarness {
    /// The VAA under test.
    pub closed spec fn spec_vaa(&self) -> TestVaa {
        self.vaa
    }

    /// The secret keys of the guardians that sign.
    pub closed spec fn spec_keys(&self) -> Seq<Seq<u8>> {
        self.keys@
    }

    /// Where the harness stands.
    pub closed spec fn spec_stage(&self) -> HarnessStage {
        self.stage
    }

    /// The result of the committed run, once it ran.
    pub closed spec fn spec_commit_result(&self) -> Option<Result<(), WormholeTestError>> {
        self.commit_result
    }

    pub closed spec fn wf(&self) -> bool {
        &&& self.probes@ == pre_commit_probes(self.vaa)
        &&& self.stage matches HarnessStage::Probing(i) ==> i < self.probes@.len()
        &&& self.stage == HarnessStage::Closing ==> self.commit_result is Some
        &&& self.body@ == self.vaa.spec_body()
        &&& is_probe_material(self.vaa, self.keys@, Probe::Replay, self.correct@, self.body@)
        &&& is_probe_material(
            self.vaa,
            self.keys@,
            Probe::SignatureMismatch,
            self.mismatched@,
            self.body@,
        )
        &&& is_probe_material(
            self.vaa,
            self.keys@,
            Probe::EmitterChain,
            self.chain_sigs@,
            self.chain_body@,
        )
        &&& is_probe_material(
            self.vaa,
            self.keys@,
            Probe::EmitterAddress,
            self.address_sigs@,
            self.address_body@,
        )
    }

    /// A harness for `vaa` signed by `guardians`, before its first probe.
    pub fn new(vaa: TestVaa, guardians: &TestGuardianSet) -> (r: Self)
        ensures
            r.wf(),
            r.spec_vaa() == vaa,
            r.spec_keys() == guardians.secret_keys(),
            r.spec_stage() == HarnessStage::Probing(0),
    {
        let body = vaa.body();
        let correct = vaa.guardian_signatures(guardians);
        let next_sequence = if vaa.sequence == u64::MAX { 0 } else { vaa.sequence + 1 };
        let mismatched = variant(&vaa, vaa.emitter_chain, vaa.emitter_address, next_sequence).guardian_signatures(
            guardians,
        );
        let next_chain = if vaa.emitter_chain == u16::MAX { 0 } else { vaa.emitter_chain + 1 };
        let chain_vaa = variant(&vaa, next_chain, vaa.emitter_address, vaa.sequence);
        let chain_body = chain_vaa.body();
        let chain_sigs = chain_vaa.guardian_signatures(guardians);
        let mut address = vaa.emitter_address;
        address[31] = address[31] ^ 0xffu8;
        assert(address@ =~= flipped_address(vaa));
        let address_vaa = variant(&vaa, vaa.emitter_chain, address, vaa.sequence);
        let address_body = address_vaa.body();
        let address_sigs = address_vaa.guardian_signatures(guardians);
        let mut probes: Vec<Probe> = vec![Probe::SignatureMismatch];
        if vaa.checks.emitter_chain {
            probes.push(Probe::EmitterChain);
        }
        if vaa.checks.emitter_address {
            probes.push(Probe::EmitterAddress);
        }
        assert(probes@ =~= pre_commit_probes(vaa));
        VaaHarness {
            vaa,
            keys: Ghost(guardians.secret_keys()),
            commit_result: None,
            probes,
            stage: HarnessStage::Probing(0),
            body,
            correct,
            mismatched,
            chain_body,
            chain_sigs,
            address_body,
            address_sigs,
        }
    }

    /// The signatures and body of a probe.
    fn material(&self, probe: Probe) -> (r: (Vec<[u8; 66]>, Vec<u8>))
        requires
            self.wf(),
        ensures
            is_probe_material(self.spec_vaa(), self.spec_keys(), probe, r.0@, r.1@),
    {
        match probe {
            Probe::SignatureMismatch => (copy_vec(&self.mismatched), copy_vec(&self.body)),
            Probe::EmitterChain => (copy_vec(&self.chain_sigs), copy_vec(&self.chain_body)),
            Probe::EmitterAddress => (
                copy_vec(&self.address_sigs),
                copy_vec(&self.address_body),
            ),
            Probe::Replay => (copy_vec(&self.correct), copy_vec(&self.body)),
        }
    }

    /// The first action: the signature-mismatch probe.
    pub fn start(&self) -> (r: HarnessAction)
        requires
            self.wf(),
            self.spec_stage() == HarnessStage::Probing(0),
        ensures
            r matches HarnessAction::Probe(p, sigs, body) && p == Probe::SignatureMismatch
                && is_probe_material(self.spec_vaa(), self.spec_keys(), p, sigs@, body@),
    {
        let (sigs, body) = self.material(Probe::SignatureMismatch);
        HarnessAction::Probe(Probe::SignatureMismatch, sigs, body)
    }

    /// Takes the outcome of the current probe. A failed setup ends the run
    /// with its error; an accepted probe ends it with the probe's fault; a
    /// rejected one moves on: to the next pre-commit probe, to the committed
    /// run, or, after the replay probe, to success.
    pub fn on_probe(&mut self, event: ProbeEvent) -> (r: HarnessAction)
        requires
            old(self).wf(),
            old(self).spec_stage() is Probing || old(self).spec_stage() is Replaying,
        ensures
            final(self).wf(),
            final(self).spec_vaa() == old(self).spec_vaa(),
            final(self).spec_keys() == old(self).spec_keys(),
            ({
                let vaa = old(self).spec_vaa();
                let probes = pre_commit_probes(vaa);
                let current = match old(self).spec_stage() {
                    HarnessStage::Probing(i) => probes[i as int],
                    _ => Probe::Replay,
                };
                match event {
                    ProbeEvent::Failed(e) => final(self).spec_stage() == HarnessStage::Done && r
                        == HarnessAction::Finished(Err(e)),
                    ProbeEvent::Accepted => {
                        &&& final(self).spec_stage() == HarnessStage::Done
                        &&& r matches HarnessAction::Finished(Err(e)) && is_fault_of(current, e)
                    },
                    ProbeEvent::Rejected => match old(self).spec_stage() {
                        HarnessStage::Probing(i) => if i + 1 < probes.len() {
                            &&& final(self).spec_stage() == HarnessStage::Probing((i + 1) as usize)
                            &&& r matches HarnessAction::Probe(p, sigs, body) && p == probes[i + 1]
                                && is_probe_material(vaa, old(self).spec_keys(), p, sigs@, body@)
                        } else {
                            &&& final(self).spec_stage() == HarnessStage::Committing
                            &&& r matches HarnessAction::Commit(sigs, body) && is_probe_material(
                                vaa,
                                old(self).spec_keys(),
                                Probe::Replay,
                                sigs@,
                                body@,
                            )
                        },
                        _ => final(self).spec_stage() == HarnessStage::Done && r
                            == HarnessAction::Finished(Ok(())),
                    },
                }
            }),
    {
        let current = match self.stage {
            HarnessStage::Probing(i) => self.probes[i],
            _ => Probe::Replay,
        };
        match event {
            ProbeEvent::Failed(e) => {
                self.stage = HarnessStage::Done;
                HarnessAction::Finished(Err(e))
            },
            ProbeEvent::Accepted => {
                self.stage = HarnessStage::Done;
                HarnessAction::Finished(Err(fault(current)))
            },
            ProbeEvent::Rejected => match self.stage {
                HarnessStage::Probing(i) => {
                    if i + 1 < self.probes.len() {
                        self.stage = HarnessStage::Probing(i + 1);
                        let p = self.probes[i + 1];
                        let (sigs, body) = self.material(p);
                        HarnessAction::Probe(p, sigs, body)
                    } else {
                        self.stage = HarnessStage::Committing;
                        let (sigs, body) = self.material(Probe::Replay);
                        HarnessAction::Commit(sigs, body)
                    }
                },
                _ => {
                    self.stage = HarnessStage::Done;
                    HarnessAction::Finished(Ok(()))
                },
            },
        }
    }

    /// Takes the outcome of the committed run. A failed post ends the run
    /// with its error, as nothing was posted; otherwise the result is kept and
    /// the posted signatures account is closed next, whatever the result.
    pub fn on_commit(&mut self, event: CommitEvent) -> (r: HarnessAction)
        requires
            old(self).wf(),
            old(self).spec_stage() == HarnessStage::Committing,
        ensures
            final(self).wf(),
            final(self).spec_vaa() == old(self).spec_vaa(),
            final(self).spec_keys() == old(self).spec_keys(),
            match event {
                CommitEvent::PostFailed(e) => final(self).spec_stage() == HarnessStage::Done && r
                    == HarnessAction::Finished(Err(e)),
                CommitEvent::Ran(result) => {
                    &&& final(self).spec_stage() == HarnessStage::Closing
                    &&& final(self).spec_commit_result() == Some(result)
                    &&& r == HarnessAction::CloseCommitted
                },
            },
    {
        match event {
            CommitEvent::PostFailed(e) => {
                self.stage = HarnessStage::Done;
                HarnessAction::Finished(Err(e))
            },
            CommitEvent::Ran(result) => {
                self.stage = HarnessStage::Closing;
                self.commit_result = Some(result);
                HarnessAction::CloseCommitted
            },
        }
    }

    /// Takes the result of closing the committed run's signatures account. A
    /// failed run ends with its own error, which a failed close does not mask;
    /// after a successful run a failed close ends the run with the close error;
    /// otherwise the replay probe follows when the VAA must not be replayable,
    /// and the run ends successfully when it may be.
    pub fn on_closed(&mut self, closed: Result<(), WormholeTestError>) -> (r: HarnessAction)
        requires
            old(self).wf(),
            old(self).spec_stage() == HarnessStage::Closing,
        ensures
            final(self).wf(),
            final(self).spec_vaa() == old(self).spec_vaa(),
            final(self).spec_keys() == old(self).spec_keys(),
            match old(self).spec_commit_result() {
                Some(Err(e)) => final(self).spec_stage() == HarnessStage::Done && r
                    == HarnessAction::Finished(Err(e)),
                _ => match closed {
                    Err(e) => final(self).spec_stage() == HarnessStage::Done && r
                        == HarnessAction::Finished(Err(e)),
                    Ok(()) => if old(self).spec_vaa().checks.replay
                        == ReplayProtection::NonReplayable {
                        &&& final(self).spec_stage() == HarnessStage::Replaying
                        &&& r matches HarnessAction::Probe(p, sigs, body) && p == Probe::Replay
                            && is_probe_material(
                            old(self).spec_vaa(),
                            old(self).spec_keys(),
                            p,
                            sigs@,
                            body@,
                        )
                    } else {
                        final(self).spec_stage() == HarnessStage::Done && r
                            == HarnessAction::Finished(Ok(()))
                    },
                },
            },
    {
        let committed = self.commit_result.take();
        match committed {
            Some(Err(e)) => {
                self.stage = HarnessStage::Done;
                HarnessAction::Finished(Err(e))
            },
            _ => match closed {
                Err(e) => {
                    self.stage = HarnessStage::Done;
                    HarnessAction::Finished(Err(e))
                },
                Ok(()) => {
                    if self.vaa.checks.replay == ReplayProtection::NonReplayable {
                        self.stage = HarnessStage::Replaying;
                        let (sigs, body) = self.material(Probe::Replay);
                        HarnessAction::Probe(Probe::Replay, sigs, body)
                    } else {
                        self.stage = HarnessStage::Done;
                        HarnessAction::Finished(Ok(()))
                    }
                },
            },
        }
    }
}

/// The fault for a probe the program accepted.
fn fault(probe: Probe) -> (r: WormholeTestError)
    ensures
        is_fault_of(probe, r),
{
    match probe {
        Probe::SignatureMismatch => WormholeTestError::VerificationBypass(
            "SECURITY: Program accepted VAA with mismatched signatures! Ensure you call verify_hash CPI before processing the VAA.".to_owned(),
        ),
        Probe::EmitterChain => WormholeTestError::EmitterChainBypass(
            "SECURITY: Program accepted VAA with wrong emitter chain! Ensure you validate the emitter_chain field before processing.".to_owned(),
        ),
        Probe::EmitterAddress => WormholeTestError::EmitterAddressBypass(
            "SECURITY: Program accepted VAA with wrong emitter address! Ensure you validate the emitter_address field before processing.".to_owned(),
        ),
        Probe::Replay => WormholeTestError::ReplayProtectionMissing(
            "SECURITY: Program accepted the same VAA twice! Ensure you mark VAAs as used before processing them.".to_owned(),
        ),
    }
}

} // verus!
