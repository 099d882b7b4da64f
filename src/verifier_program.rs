//! Instruction data of the example VAA-verifier program.

use vstd::prelude::*;

use crate::bytes::{copy_range, le_u32, lemma_u32_le_round_trip, push_all, push_le_u32, read_le_u32};
use crate::bytes::u32_of_le;
use crate::instruction::{SerializableAccountMeta, SerializableInstruction};

verus! {

/// The verifier's operation byte for verifying a VAA.
pub const IX_VERIFY_VAA: u8 = 0;

/// The verifier's operation byte for the deliberately insecure variant that
/// skips verification.
pub const IX_SKIP_VERIFY: u8 = 1;

/// The verifier's instruction data: operation byte, guardian-set bump, body
/// length (4, little-endian), body.
pub open spec fn verifier_data(op: u8, bump: u8, body: Seq<u8>) -> Seq<u8> {
    seq![op, bump] + le_u32(body.len() as u32) + body
}

fn build(op: u8, guardian_set_bump: u8, vaa_body: &[u8]) -> (r: Vec<u8>)
    requires
        vaa_body@.len() <= u32::MAX,
    ensures
        r@ == verifier_data(op, guardian_set_bump, vaa_body@),
{
    let mut data: Vec<u8> = Vec::new();
    data.push(op);
    data.push(guardian_set_bump);
    push_le_u32(&mut data, vaa_body.len() as u32);
    push_all(&mut data, vaa_body);
    assert(data@ =~= verifier_data(op, guardian_set_bump, vaa_body@));
    data
}

/// Instruction data that verifies `vaa_body`.
pub fn build_instruction_data(guardian_set_bump: u8, vaa_body: &[u8]) -> (r: Vec<u8>)
    requires
        vaa_body@.len() <= u32::MAX,
    ensures
        r@ == verifier_data(IX_VERIFY_VAA, guardian_set_bump, vaa_body@),
{
    build(IX_VERIFY_VAA, guardian_set_bump, vaa_body)
}

/// Instruction data of the insecure variant that skips verification.
pub fn build_skip_verify_instruction_data(guardian_set_bump: u8, vaa_body: &[u8]) -> (r: Vec<
    u8,
>)
    requires
        vaa_body@.len() <= u32::MAX,
    ensures
        r@ == verifier_data(IX_SKIP_VERIFY, guardian_set_bump, vaa_body@),
{
    build(IX_SKIP_VERIFY, guardian_set_bump, vaa_body)
}

/// What the verifier reads from its instruction data: the operation byte,
/// the guardian-set bump and the body, when the data holds them all.
pub open spec fn verifier_fields(data: Seq<u8>) -> Option<(u8, u8, Seq<u8>)> {
    if data.len() < 6 {
        None
    } else {
        let len = u32_of_le(data.subrange(2, 6));
        if data.len() < 6 + len {
            None
        } else {
            Some((data[0], data[1], data.subrange(6, 6 + len)))
        }
    }
}

/// Reads the operation byte, the guardian-set bump and the body.
pub fn parse_instruction_data(data: &[u8]) -> (r: Option<(u8, u8, Vec<u8>)>)
    ensures
        r matches Some((op, bump, body)) ==> verifier_fields(data@) == Some((op, bump, body@)),
        r is None ==> verifier_fields(data@) is None,
{
    if data.len() < 6 {
        return None;
    }
    let body_len = read_le_u32(data, 2) as usize;
    if data.len() - 6 < body_len {
        return None;
    }
    Some((data[0], data[1], copy_range(data, 6, body_len)))
}

/// Reading back built instruction data gives the operation, the bump and
/// the body.
pub proof fn lemma_instruction_data_round_trip(op: u8, bump: u8, body: Seq<u8>)
    requires
        body.len() <= u32::MAX,
    ensures
        verifier_fields(verifier_data(op, bump, body)) == Some((op, bump, body)),
{
    let data = verifier_data(op, bump, body);
    lemma_u32_le_round_trip(body.len() as u32);
    assert(data.subrange(2, 6) =~= le_u32(body.len() as u32));
    assert(data.subrange(6, 6 + body.len() as int) =~= body);
}

/// The verifier's accounts: payer (signing), guardian set, signatures
/// account and the Verify VAA Shim, all read-only.
pub open spec fn verifier_accounts(
    payer: [u8; 32],
    guardian_set: [u8; 32],
    guardian_signatures: [u8; 32],
    shim: [u8; 32],
) -> Seq<SerializableAccountMeta> {
    seq![
        SerializableAccountMeta { pubkey: payer, is_signer: true, is_writable: false },
        SerializableAccountMeta { pubkey: guardian_set, is_signer: false, is_writable: false },
        SerializableAccountMeta { pubkey: guardian_signatures, is_signer: false, is_writable: false },
        SerializableAccountMeta { pubkey: shim, is_signer: false, is_writable: false },
    ]
}

fn build_instruction(
    op: u8,
    program_id: [u8; 32],
    shim: [u8; 32],
    payer: [u8; 32],
    guardian_set: [u8; 32],
    guardian_signatures: [u8; 32],
    guardian_set_bump: u8,
    vaa_body: &[u8],
) -> (r: SerializableInstruction)
    requires
        vaa_body@.len() <= u32::MAX,
    ensures
        r.program_id == program_id,
        r.accounts@ == verifier_accounts(payer, guardian_set, guardian_signatures, shim),
        r.data@ == verifier_data(op, guardian_set_bump, vaa_body@),
{
    let accounts = vec![
        SerializableAccountMeta { pubkey: payer, is_signer: true, is_writable: false },
        SerializableAccountMeta { pubkey: guardian_set, is_signer: false, is_writable: false },
        SerializableAccountMeta { pubkey: guardian_signatures, is_signer: false, is_writable: false },
        SerializableAccountMeta { pubkey: shim, is_signer: false, is_writable: false },
    ];
    assert(accounts@ =~= verifier_accounts(payer, guardian_set, guardian_signatures, shim));
    SerializableInstruction { program_id, accounts, data: build(op, guardian_set_bump, vaa_body) }
}

/// The verifier's verify instruction, for the program at `program_id` and
/// the shim at `shim`.
pub fn build_verify_vaa_instruction(
    program_id: [u8; 32],
    shim: [u8; 32],
    payer: [u8; 32],
    guardian_set: [u8; 32],
    guardian_signatures: [u8; 32],
    guardian_set_bump: u8,
    vaa_body: &[u8],
) -> (r: SerializableInstruction)
    requires
        vaa_body@.len() <= u32::MAX,
    ensures
        r.program_id == program_id,
        r.accounts@ == verifier_accounts(payer, guardian_set, guardian_signatures, shim),
        r.data@ == verifier_data(IX_VERIFY_VAA, guardian_set_bump, vaa_body@),
{
    build_instruction(IX_VERIFY_VAA, program_id, shim, payer, guardian_set, guardian_signatures, guardian_set_bump, vaa_body)
}

/// The verifier's insecure skip-verify instruction, with the same accounts.
pub fn build_skip_verify_instruction(
    program_id: [u8; 32],
    shim: [u8; 32],
    payer: [u8; 32],
    guardian_set: [u8; 32],
    guardian_signatures: [u8; 32],
    guardian_set_bump: u8,
    vaa_body: &[u8],
) -> (r: SerializableInstruction)
    requires
        vaa_body@.len() <= u32::MAX,
    ensures
        r.program_id == program_id,
        r.accounts@ == verifier_accounts(payer, guardian_set, guardian_signatures, shim),
        r.data@ == verifier_data(IX_SKIP_VERIFY, guardian_set_bump, vaa_body@),
{
    build_instruction(IX_SKIP_VERIFY, program_id, shim, payer, guardian_set, guardian_signatures, guardian_set_bump, vaa_body)
}

} // verus!
