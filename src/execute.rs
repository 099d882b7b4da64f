//! Turning resolved instruction groups into transactions, one per group.
//!
//! The engine finds which generated-signer placeholders the groups use,
//! substitutes every placeholder, picks each group's signers, and walks the
//! groups in order. Sending is left to the caller, who reports back.

use vstd::prelude::*;

use crate::bytes::copy_vec;
use crate::error::SubmitError;
use crate::instruction::{
    instruction_mentions, group_mentions, group_references, groups_mention, groups_reference, InstructionGroup,
    SerializableAccountMeta, SerializableInstruction,
};
use crate::placeholder::{
    lemma_lookup_present, lemma_substitution_idempotent, lemma_substitution_total, Placeholders, Substitution,
    KEYPAIR_SLOTS,
};

verus! {

/// The slots below `k` whose placeholder `groups` mention, in increasing
/// order.
pub open spec fn referenced_slots_below(
    groups: Seq<InstructionGroup>,
    placeholders: Placeholders,
    k: nat,
) -> Seq<usize>
    decreases k,
{
    if k == 0 {
        seq![]
    } else {
        let below = referenced_slots_below(groups, placeholders, (k - 1) as nat);
        if groups_mention(groups, placeholders.slot_address(k - 1)) {
            below.push((k - 1) as usize)
        } else {
            below
        }
    }
}

/// The generated-signer slots whose placeholder `groups` mention, in
/// increasing order.
pub open spec fn referenced_slots(groups: Seq<InstructionGroup>, placeholders: Placeholders) -> Seq<usize> {
    referenced_slots_below(groups, placeholders, 10)
}

/// The generated-signer slots that `groups` use, in increasing order.
pub fn discover_keypairs(groups: &[InstructionGroup], placeholders: &Placeholders) -> (r: Vec<usize>)
    ensures
        r@ == referenced_slots(groups@, *placeholders),
        forall|i: int| 0 <= i < r@.len() ==> #[trigger] r@[i] < 10,
        forall|i: int, j: int| 0 <= i < j < r@.len() ==> r@[i] < r@[j],
        forall|i: int|
            0 <= i < r@.len() ==> groups_mention(
                groups@,
                placeholders.slot_address(#[trigger] r@[i] as int),
            ),
        forall|k: int|
            0 <= k < 10 && groups_mention(groups@, placeholders.slot_address(k)) ==> r@.contains(
                k as usize,
            ),
{
    let mut result: Vec<usize> = Vec::new();
    for k in 0..KEYPAIR_SLOTS
        invariant
            result@ == referenced_slots_below(groups@, *placeholders, k as nat),
            forall|i: int| 0 <= i < result@.len() ==> #[trigger] result@[i] < k,
            forall|i: int, j: int| 0 <= i < j < result@.len() ==> result@[i] < result@[j],
            forall|i: int|
                0 <= i < result@.len() ==> groups_mention(
                    groups@,
                    placeholders.slot_address(#[trigger] result@[i] as int),
                ),
            forall|m: int|
                0 <= m < k && groups_mention(groups@, placeholders.slot_address(m))
                    ==> result@.contains(m as usize),
    {
        let placeholder = placeholders.slot(k);
        let ghost before = result@;
        if groups_reference(groups, &placeholder) {
            result.push(k);
            assert(result@[result@.len() - 1] == k);
            assert forall|x: usize| before.contains(x) implies result@.contains(x) by {
                let i = choose|i: int| 0 <= i < before.len() && before[i] == x;
                assert(result@[i] == x);
            }
        }
    }
    result
}

/// The account with its address substituted and its flags kept.
pub open spec fn substituted_meta(s: Substitution, m: SerializableAccountMeta) -> SerializableAccountMeta {
    SerializableAccountMeta { pubkey: s.apply(m.pubkey), is_signer: m.is_signer, is_writable: m.is_writable }
}

/// Whether `r` is `ix` with every account address substituted.
pub open spec fn is_converted(s: Substitution, ix: SerializableInstruction, r: SerializableInstruction) -> bool {
    &&& r.program_id == ix.program_id
    &&& r.data@ == ix.data@
    &&& r.accounts@.len() == ix.accounts@.len()
    &&& forall|j: int|
        0 <= j < ix.accounts@.len() ==> #[trigger] r.accounts@[j] == substituted_meta(
            s,
            ix.accounts@[j],
        )
}

/// Substitutes every account address of an instruction, keeping each
/// account's signer and writable flags, the program and the data.
pub fn convert_instruction(s: &Substitution, ix: &SerializableInstruction) -> (r: SerializableInstruction)
    ensures
        is_converted(*s, *ix, r),
{
    let mut accounts: Vec<SerializableAccountMeta> = Vec::new();
    for j in 0..ix.accounts.len()
        invariant
            accounts@.len() == j,
            forall|m: int|
                0 <= m < j ==> #[trigger] accounts@[m] == substituted_meta(*s, ix.accounts@[m]),
    {
        let meta = ix.accounts[j];
        accounts.push(
            SerializableAccountMeta {
                pubkey: s.substitute(&meta.pubkey),
                is_signer: meta.is_signer,
                is_writable: meta.is_writable,
            },
        );
    }
    SerializableInstruction { program_id: ix.program_id, accounts, data: copy_vec(&ix.data) }
}

/// One transaction to submit: the converted instructions of a group, and the
/// positions (in the generated list) of the generated signers it uses. The
/// payer always signs.
#[derive(Clone, Debug)]
pub struct PlannedTransaction {
    /// The instructions, placeholders substituted.
    pub instructions: Vec<SerializableInstruction>,
    /// Positions of the generated signers that must co-sign.
    pub signers: Vec<usize>,
}

/// Whether `t` is the transaction for group `g`: its instructions converted,
/// and exactly the generated signers whose placeholder the group mentions.
pub open spec fn is_planned(s: Substitution, g: InstructionGroup, t: PlannedTransaction) -> bool {
    &&& t.instructions@.len() == g.instructions@.len()
    &&& forall|i: int|
        0 <= i < g.instructions@.len() ==> is_converted(
            s,
            g.instructions@[i],
            #[trigger] t.instructions@[i],
        )
    &&& forall|i: int| 0 <= i < t.signers@.len() ==> #[trigger] t.signers@[i] < s.generated@.len()
    &&& forall|i: int, j: int| 0 <= i < j < t.signers@.len() ==> t.signers@[i] < t.signers@[j]
    &&& forall|i: int|
        0 <= i < t.signers@.len() ==> group_mentions(g, s.generated@[#[trigger] t.signers@[i] as int].0)
    &&& forall|k: int|
        0 <= k < s.generated@.len() && group_mentions(g, s.generated@[k].0) ==> t.signers@.contains(
            k as usize,
        )
}

/// The transaction for one group.
pub fn plan_group(s: &Substitution, g: &InstructionGroup) -> (r: PlannedTransaction)
    ensures
        is_planned(*s, *g, r),
{
    let mut instructions: Vec<SerializableInstruction> = Vec::new();
    for i in 0..g.instructions.len()
        invariant
            instructions@.len() == i,
            forall|m: int|
                0 <= m < i ==> is_converted(*s, g.instructions@[m], #[trigger] instructions@[m]),
    {
        instructions.push(convert_instruction(s, &g.instructions[i]));
    }
    let mut signers: Vec<usize> = Vec::new();
    for k in 0..s.generated.len()
        invariant
            forall|i: int| 0 <= i < signers@.len() ==> #[trigger] signers@[i] < k,
            forall|i: int, j: int| 0 <= i < j < signers@.len() ==> signers@[i] < signers@[j],
            forall|i: int|
                0 <= i < signers@.len() ==> group_mentions(
                    *g,
                    s.generated@[#[trigger] signers@[i] as int].0,
                ),
            forall|m: int|
                0 <= m < k && group_mentions(*g, s.generated@[m].0) ==> signers@.contains(
                    m as usize,
                ),
    {
        let ghost before = signers@;
        if group_references(g, &s.generated[k].0) {
            signers.push(k);
            assert(signers@[signers@.len() - 1] == k);
            assert forall|x: usize| before.contains(x) implies signers@.contains(x) by {
                let i = choose|i: int| 0 <= i < before.len() && before[i] == x;
                assert(signers@[i] == x);
            }
        }
    }
    PlannedTransaction { instructions, signers }
}

/// What happened to the transaction of the current group.
#[derive(Clone, Debug)]
pub enum GroupEvent {
    /// No recency token could be fetched.
    BlockhashFailed(String),
    /// Submission or confirmation failed.
    SendFailed(String),
    /// The transaction was confirmed with this signature.
    Confirmed([u8; 64]),
}

/// What the caller does next.
#[derive(Clone, Debug)]
pub enum ExecutionStep {
    /// Fetch a fresh recency token, sign with the payer and the listed
    /// generated signers, submit and wait.
    Submit(PlannedTransaction),
    /// Every group was confirmed; the signatures in group order.
    Finished(Vec<[u8; 64]>),
    /// A group failed; the remaining groups are not submitted.
    Failed(SubmitError),
}

/// Walks the groups in order, one transaction each.
#[derive(Clone, Debug)]
pub struct Executor {
    groups: Vec<InstructionGroup>,
    substitution: Substitution,
    next: usize,
    confirmed: Vec<[u8; 64]>,
}

impl Executor {
    /// The groups being executed.
    pub closed spec fn spec_groups(&self) -> Seq<InstructionGroup> {
        self.groups@
    }

    /// The substitution applied to every group.
    pub closed spec fn spec_substitution(&self) -> Substitution {
        self.substitution
    }

    /// How many groups were confirmed so far.
    pub closed spec fn spec_next(&self) -> nat {
        self.next as nat
    }

    /// The signatures of the confirmed groups.
    pub closed spec fn spec_confirmed(&self) -> Seq<[u8; 64]> {
        self.confirmed@
    }

    pub closed spec fn wf(&self) -> bool {
        &&& self.next <= self.groups@.len()
        &&& self.confirmed@.len() == self.next
    }

    /// An executor for `groups`. `generated` holds, for each slot of
    /// `referenced_slots` and in that order, the address of the signer
    /// generated for it. `None` when the counts differ or a generated address
    /// is itself a placeholder.
    #[verifier::rlimit(40)]
    pub fn new(
        groups: Vec<InstructionGroup>,
        placeholders: Placeholders,
        payer: [u8; 32],
        signatures: [u8; 32],
        guardian_set: [u8; 32],
        generated: Vec<[u8; 32]>,
    ) -> (r: Option<Self>)
        ensures
            r is Some <==> {
                &&& generated@.len() == referenced_slots(groups@, placeholders).len()
                &&& forall|i: int|
                    0 <= i < generated@.len() ==> !placeholders.is_placeholder(#[trigger] generated@[i])
            },
            r matches Some(e) ==> {
                &&& e.wf()
                &&& e.spec_next() == 0
                &&& e.spec_groups() == groups@
                &&& e.spec_substitution().placeholders == placeholders
                &&& e.spec_substitution().payer == payer
                &&& e.spec_substitution().signatures == signatures
                &&& e.spec_substitution().guardian_set == guardian_set
                &&& e.spec_substitution().generated@.len() == generated@.len()
                &&& forall|i: int|
                    0 <= i < generated@.len() ==> #[trigger] e.spec_substitution().generated@[i] == (
                        placeholders.slot_address(referenced_slots(groups@, placeholders)[i] as int),
                        generated@[i],
                    )
                &&& e.spec_substitution().generated_keys_are_slots()
                &&& e.spec_substitution().generated_are_real()
                &&& covers_signer_placeholders(e.spec_substitution(), groups@)
            },
    {
        let slots = discover_keypairs(groups.as_slice(), &placeholders);
        if slots.len() != generated.len() {
            return None;
        }
        for i in 0..generated.len()
            invariant
                forall|m: int| 0 <= m < i ==> !placeholders.is_placeholder(#[trigger] generated@[m]),
        {
            if placeholders.role_of(&generated[i]).is_some() {
                return None;
            }
        }
        let mut map: Vec<([u8; 32], [u8; 32])> = Vec::new();
        for i in 0..slots.len()
            invariant
                slots@.len() == generated@.len(),
                forall|m: int| 0 <= m < slots@.len() ==> #[trigger] slots@[m] < 10,
                map@.len() == i,
                forall|m: int|
                    0 <= m < i ==> #[trigger] map@[m] == (
                        placeholders.slot_address(slots@[m] as int),
                        generated@[m],
                    ),
        {
            map.push((placeholders.slot(slots[i]), generated[i]));
        }
        let substitution = Substitution { placeholders, payer, signatures, guardian_set, generated: map };
        assert forall|i: int| 0 <= i < map@.len() implies substitution.placeholders.is_keypair_placeholder(
            #[trigger] map@[i].0,
        ) by {
            assert(placeholders.slot_address(slots@[i] as int) == map@[i].0);
        }
        assert forall|k: int|
            0 <= k < 10 && groups_mention(groups@, placeholders.slot_address(k)) implies exists|
                i: int,
            | 0 <= i < map@.len() && #[trigger] map@[i].0 == placeholders.slot_address(k) by {
            let i = choose|i: int| 0 <= i < slots@.len() && slots@[i] == k as usize;
            assert(map@[i].0 == placeholders.slot_address(k));
        }
        Some(Executor { groups, substitution, next: 0, confirmed: Vec::new() })
    }

    /// The first action: the first group's transaction, or the (empty) result
    /// when there are no groups.
    pub fn start(&self) -> (r: ExecutionStep)
        requires
            self.wf(),
            self.spec_next() == 0,
        ensures
            self.spec_groups().len() == 0 ==> (r matches ExecutionStep::Finished(sigs) && sigs@.len()
                == 0),
            self.spec_groups().len() > 0 ==> (r matches ExecutionStep::Submit(t) && is_planned(
                self.spec_substitution(),
                self.spec_groups()[0],
                t,
            )),
    {
        if self.groups.len() == 0 {
            ExecutionStep::Finished(Vec::new())
        } else {
            ExecutionStep::Submit(plan_group(&self.substitution, &self.groups[0]))
        }
    }

    /// Takes the outcome of the current group's transaction and says what
    /// comes next: the next group, the signatures of all groups, or the error
    /// that stops the sequence.
    pub fn on_group_result(&mut self, event: GroupEvent) -> (r: ExecutionStep)
        requires
            old(self).wf(),
            old(self).spec_next() < old(self).spec_groups().len(),
        ensures
            final(self).wf(),
            final(self).spec_groups() == old(self).spec_groups(),
            final(self).spec_substitution() == old(self).spec_substitution(),
            match event {
                GroupEvent::BlockhashFailed(m) => r == ExecutionStep::Failed(SubmitError::Connection(m)),
                GroupEvent::SendFailed(m) => r == ExecutionStep::Failed(SubmitError::Execution(m)),
                GroupEvent::Confirmed(sig) => {
                    &&& final(self).spec_next() == old(self).spec_next() + 1
                    &&& final(self).spec_confirmed() == old(self).spec_confirmed().push(sig)
                    &&& final(self).spec_next() < final(self).spec_groups().len() ==> (
                    r matches ExecutionStep::Submit(t) && is_planned(
                        final(self).spec_substitution(),
                        final(self).spec_groups()[final(self).spec_next() as int],
                        t,
                    ))
                    &&& final(self).spec_next() == final(self).spec_groups().len() ==> (
                    r matches ExecutionStep::Finished(sigs) && sigs@ == final(self).spec_confirmed())
                },
            },
    {
        match event {
            GroupEvent::BlockhashFailed(m) => ExecutionStep::Failed(SubmitError::Connection(m)),
            GroupEvent::SendFailed(m) => ExecutionStep::Failed(SubmitError::Execution(m)),
            GroupEvent::Confirmed(sig) => {
                let total = self.groups.len();
                self.confirmed.push(sig);
                self.next = self.next + 1;
                if self.next < total {
                    ExecutionStep::Submit(plan_group(&self.substitution, &self.groups[self.next]))
                } else {
                    ExecutionStep::Finished(copy_vec(&self.confirmed))
                }
            },
        }
    }
}

/// Every generated-signer placeholder that `groups` mention has an entry in
/// the substitution's generated map.
pub open spec fn covers_signer_placeholders(s: Substitution, groups: Seq<InstructionGroup>) -> bool {
    forall|k: int|
        0 <= k < 10 && groups_mention(groups, s.placeholders.slot_address(k)) ==> exists|i: int|
            0 <= i < s.generated@.len() && #[trigger] s.generated@[i].0 == s.placeholders.slot_address(
                k,
            )
}

/// Placeholder substitution is total and idempotent: when the payer, the
/// signatures account, the guardian set and every generated signer are real
/// addresses, no account of a transaction planned for one of the groups is a
/// placeholder, and substituting it again leaves it unchanged. An executor's
/// substitution meets every condition here but the first three, which are
/// about the caller's own addresses.
pub proof fn lemma_no_placeholder_submitted(
    s: Substitution,
    groups: Seq<InstructionGroup>,
    gi: int,
    t: PlannedTransaction,
)
    requires
        s.placeholders.wf(),
        s.fills_with_real_addresses(),
        s.generated_keys_are_slots(),
        covers_signer_placeholders(s, groups),
        0 <= gi < groups.len(),
        is_planned(s, groups[gi], t),
    ensures
        forall|i: int, j: int|
            0 <= i < t.instructions@.len() && 0 <= j < t.instructions@[i].accounts@.len() ==> {
                let a = (#[trigger] t.instructions@[i].accounts@[j]).pubkey;
                !s.placeholders.is_placeholder(a) && s.apply(a) == a
            },
{
    assert forall|i: int, j: int|
        0 <= i < t.instructions@.len() && 0 <= j < t.instructions@[i].accounts@.len() implies {
        let a = (#[trigger] t.instructions@[i].accounts@[j]).pubkey;
        !s.placeholders.is_placeholder(a) && s.apply(a) == a
    } by {
        let g = groups[gi];
        let ix = g.instructions@[i];
        assert(is_converted(s, ix, t.instructions@[i]));
        let a = ix.accounts@[j].pubkey;
        assert(t.instructions@[i].accounts@[j] == substituted_meta(s, ix.accounts@[j]));
        if s.placeholders.is_keypair_placeholder(a) {
            let k = choose|k: int| 0 <= k < 10 && s.placeholders.slot_address(k) == a;
            assert(instruction_mentions(ix, a));
            assert(group_mentions(g, a));
            assert(groups_mention(groups, s.placeholders.slot_address(k)));
            let m = choose|m: int|
                0 <= m < s.generated@.len() && #[trigger] s.generated@[m].0
                    == s.placeholders.slot_address(k);
            lemma_lookup_present(s.generated@, m);
        }
        lemma_substitution_total(s, a);
        lemma_substitution_idempotent(s, a);
    }
}

} // verus!
