//! Instructions as the resolver protocol describes them.

use vstd::prelude::*;

use crate::placeholder::same_address;

verus! {

/// An account an instruction reads or writes.
#[derive(Clone, Copy, Debug, PartialEq, Eq)]
pub struct SerializableAccountMeta {
    /// The account's address.
    pub pubkey: [u8; 32],
    /// Whether the account must sign.
    pub is_signer: bool,
    /// Whether the account is written.
    pub is_writable: bool,
}

/// An instruction: target program, accounts and opaque data.
#[derive(Clone, Debug)]
pub struct SerializableInstruction {
    /// The program the instruction calls.
    pub program_id: [u8; 32],
    /// The accounts, in order.
    pub accounts: Vec<SerializableAccountMeta>,
    /// The instruction data.
    pub data: Vec<u8>,
}

/// Instructions submitted together as one transaction.
#[derive(Clone, Debug)]
pub struct InstructionGroup {
    /// The instructions, in order.
    pub instructions: Vec<SerializableInstruction>,
}

/// Whether an account of `ix` has address `a`.
pub open spec fn instruction_mentions(ix: SerializableInstruction, a: [u8; 32]) -> bool {
    exists|j: int| 0 <= j < ix.accounts@.len() && (#[trigger] ix.accounts@[j]).pubkey == a
}

/// Whether an account of an instruction of `g` has address `a`.
pub open spec fn group_mentions(g: InstructionGroup, a: [u8; 32]) -> bool {
    exists|i: int|
        0 <= i < g.instructions@.len() && instruction_mentions(#[trigger] g.instructions@[i], a)
}

/// Whether an account of an instruction of one of `groups` has address `a`.
pub open spec fn groups_mention(groups: Seq<InstructionGroup>, a: [u8; 32]) -> bool {
    exists|i: int| 0 <= i < groups.len() && group_mentions(#[trigger] groups[i], a)
}

/// Whether an account of `ix` has address `a`.
pub fn instruction_references(ix: &SerializableInstruction, a: &[u8; 32]) -> (r: bool)
    ensures
        r == instruction_mentions(*ix, *a),
{
    for j in 0..ix.accounts.len()
        invariant
            forall|m: int| 0 <= m < j ==> (#[trigger] ix.accounts@[m]).pubkey != *a,
    {
        if same_address(&ix.accounts[j].pubkey, a) {
            return true;
        }
    }
    false
}

/// Whether an account of an instruction of `g` has address `a`.
pub fn group_references(g: &InstructionGroup, a: &[u8; 32]) -> (r: bool)
    ensures
        r == group_mentions(*g, *a),
{
    for i in 0..g.instructions.len()
        invariant
            forall|m: int| 0 <= m < i ==> !instruction_mentions(#[trigger] g.instructions@[m], *a),
    {
        if instruction_references(&g.instructions[i], a) {
            return true;
        }
    }
    false
}

/// Whether an account of an instruction of one of `groups` has address `a`.
pub fn groups_reference(groups: &[InstructionGroup], a: &[u8; 32]) -> (r: bool)
    ensures
        r == groups_mention(groups@, *a),
{
    for i in 0..groups.len()
        invariant
            forall|m: int| 0 <= m < i ==> !group_mentions(#[trigger] groups@[m], *a),
    {
        if group_references(&groups[i], a) {
            return true;
        }
    }
    false
}

} // verus!
