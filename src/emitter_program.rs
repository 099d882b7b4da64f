//! Instruction data of the example message-emitter program.

use vstd::prelude::*;

use crate::bytes::{le_u32, push_all, push_le_u32};
use crate::instruction::{SerializableAccountMeta, SerializableInstruction};

verus! {

/// The message emitter's instruction data: nonce (4, little-endian),
/// finality, payload length (4, little-endian), payload.
pub open spec fn emit_data(nonce: u32, finality: u8, payload: Seq<u8>) -> Seq<u8> {
    le_u32(nonce) + seq![finality] + le_u32(payload.len() as u32) + payload
}

/// The message emitter's instruction data.
pub fn build_instruction_data(nonce: u32, finality: u8, payload: &[u8]) -> (r: Vec<u8>)
    requires
        payload@.len() <= u32::MAX,
    ensures
        r@ == emit_data(nonce, finality, payload@),
{
    let mut data: Vec<u8> = Vec::new();
    push_le_u32(&mut data, nonce);
    data.push(finality);
    push_le_u32(&mut data, payload.len() as u32);
    push_all(&mut data, payload);
    assert(data@ =~= emit_data(nonce, finality, payload@));
    data
}


/// The addresses an emit instruction touches, derived by the caller.
#[derive(Clone, Copy, Debug)]
pub struct EmitAccounts {
    pub core_bridge_config: [u8; 32],
    pub message: [u8; 32],
    pub emitter: [u8; 32],
    pub sequence: [u8; 32],
    pub fee_collector: [u8; 32],
    pub clock: [u8; 32],
    pub system_program: [u8; 32],
    pub core_bridge: [u8; 32],
    pub event_authority: [u8; 32],
    pub post_message_shim: [u8; 32],
}

pub open spec fn meta(pubkey: [u8; 32], is_signer: bool, is_writable: bool) -> SerializableAccountMeta {
    SerializableAccountMeta { pubkey, is_signer, is_writable }
}

/// The emit instruction's accounts, in the program's order: config, message,
/// emitter (signed by the program itself), sequence, payer (signing), fee
/// collector, clock, system program, core bridge, event authority, shim.
pub open spec fn emit_accounts(a: EmitAccounts, payer: [u8; 32]) -> Seq<SerializableAccountMeta> {
    seq![
        meta(a.core_bridge_config, false, true),
        meta(a.message, false, true),
        meta(a.emitter, false, false),
        meta(a.sequence, false, true),
        meta(payer, true, true),
        meta(a.fee_collector, false, true),
        meta(a.clock, false, false),
        meta(a.system_program, false, false),
        meta(a.core_bridge, false, false),
        meta(a.event_authority, false, false),
        meta(a.post_message_shim, false, false),
    ]
}

/// The emit instruction for the program at `program_id`.
pub fn build_emit_message_instruction(
    program_id: [u8; 32],
    accounts: &EmitAccounts,
    payer: [u8; 32],
    nonce: u32,
    finality: u8,
    payload: &[u8],
) -> (r: SerializableInstruction)
    requires
        payload@.len() <= u32::MAX,
    ensures
        r.program_id == program_id,
        r.accounts@ == emit_accounts(*accounts, payer),
        r.data@ == emit_data(nonce, finality, payload@),
{
    let a = accounts;
    let metas = vec![
        SerializableAccountMeta { pubkey: a.core_bridge_config, is_signer: false, is_writable: true },
        SerializableAccountMeta { pubkey: a.message, is_signer: false, is_writable: true },
        SerializableAccountMeta { pubkey: a.emitter, is_signer: false, is_writable: false },
        SerializableAccountMeta { pubkey: a.sequence, is_signer: false, is_writable: true },
        SerializableAccountMeta { pubkey: payer, is_signer: true, is_writable: true },
        SerializableAccountMeta { pubkey: a.fee_collector, is_signer: false, is_writable: true },
        SerializableAccountMeta { pubkey: a.clock, is_signer: false, is_writable: false },
        SerializableAccountMeta { pubkey: a.system_program, is_signer: false, is_writable: false },
        SerializableAccountMeta { pubkey: a.core_bridge, is_signer: false, is_writable: false },
        SerializableAccountMeta { pubkey: a.event_authority, is_signer: false, is_writable: false },
        SerializableAccountMeta { pubkey: a.post_message_shim, is_signer: false, is_writable: false },
    ];
    assert(metas@ =~= emit_accounts(*accounts, payer));
    SerializableInstruction {
        program_id,
        accounts: metas,
        data: build_instruction_data(nonce, finality, payload),
    }
}

} // verus!
