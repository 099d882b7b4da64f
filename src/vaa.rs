//! The VAA body and the signed-VAA wire format.

use vstd::prelude::*;

use crate::bytes::{be_u16, be_u32, be_u64, push_all, push_be_u16, push_be_u32, push_be_u64};
use crate::bytes::{copy_range, lemma_u32_be_round_trip, read_be_u32, u32_of_be};
use crate::bytes::{
    lemma_u16_be_round_trip, lemma_u64_be_round_trip, read_be_u16, read_be_u64, u16_of_be, u64_of_be,
};
use crate::guardian::{
    all_signed_records, chosen_signed_records, records_view, to_array, vaa_body_digest,
    vaa_digest, TestGuardianSet,
};

verus! {

/// Whether `with_vaa` must also show that a VAA cannot be processed twice.
#[derive(Clone, Copy, Debug, PartialEq, Eq, Structural)]
pub enum ReplayProtection {
    /// The operation may be repeated; no replay probe runs.
    Replayable,
    /// The operation must not succeed twice; a replay probe runs after the
    /// committed run.
    NonReplayable,
}

impl Default for ReplayProtection {
    fn default() -> (r: Self)
        ensures
            r == ReplayProtection::NonReplayable,
    {
        ReplayProtection::NonReplayable
    }
}

/// Which automatic negative probes `with_vaa` runs.
#[derive(Clone, Copy, Debug)]
pub struct VaaChecks {
    /// Probe that a VAA from another emitter chain is rejected.
    pub emitter_chain: bool,
    /// Probe that a VAA from another emitter address is rejected.
    pub emitter_address: bool,
    /// Probe that the same VAA is not accepted twice.
    pub replay: ReplayProtection,
}

impl Default for VaaChecks {
    /// Every probe enabled.
    fn default() -> (r: Self)
        ensures
            r.emitter_chain,
            r.emitter_address,
            r.replay == ReplayProtection::NonReplayable,
    {
        VaaChecks { emitter_chain: true, emitter_address: true, replay: ReplayProtection::default() }
    }
}

/// A VAA under construction, before signing.
#[derive(Clone, Debug)]
pub struct TestVaa {
    /// The emitter chain id.
    pub emitter_chain: u16,
    /// The emitter address.
    pub emitter_address: [u8; 32],
    /// The sequence number.
    pub sequence: u64,
    /// The payload.
    pub payload: Vec<u8>,
    /// The timestamp.
    pub timestamp: u32,
    /// The nonce.
    pub nonce: u32,
    /// The consistency level.
    pub consistency_level: u8,
    /// The guardian set index.
    pub guardian_set_index: u32,
    /// Which automatic probes `with_vaa` runs.
    pub checks: VaaChecks,
}

/// The body bytes: timestamp, nonce, emitter chain, emitter address,
/// sequence, consistency level (integers big-endian), then the payload.
pub open spec fn body_bytes(
    timestamp: u32,
    nonce: u32,
    emitter_chain: u16,
    emitter_address: Seq<u8>,
    sequence: u64,
    consistency_level: u8,
    payload: Seq<u8>,
) -> Seq<u8> {
    be_u32(timestamp) + be_u32(nonce) + be_u16(emitter_chain) + emitter_address + be_u64(sequence)
        + seq![consistency_level] + payload
}

/// The records laid end to end.
pub open spec fn concat_records(records: Seq<Seq<u8>>) -> Seq<u8>
    decreases records.len(),
{
    if records.len() == 0 {
        seq![]
    } else {
        concat_records(records.drop_last()) + records.last()
    }
}

/// The signed-VAA wire format: version 1, the guardian set index
/// big-endian, the record count, the 66-byte records, then the body.
pub open spec fn signed_vaa_bytes(guardian_set_index: u32, records: Seq<Seq<u8>>, body: Seq<u8>) -> Seq<u8> {
    seq![1u8] + be_u32(guardian_set_index) + seq![records.len() as u8] + concat_records(records) + body
}

/// Why a signed VAA did not parse.
#[derive(Clone, Copy, Debug, PartialEq, Eq, Structural)]
pub enum VaaParseError {
    /// No bytes at all.
    Empty,
    /// The version byte is not 1.
    UnsupportedVersion(u8),
    /// Fewer than the six header bytes.
    TooShort,
    /// Fewer bytes than the header and its records need.
    Truncated,
}

/// Offset of record `i` in a signed VAA.
pub open spec fn record_start(i: int) -> int {
    6 + 66 * i
}

/// What a signed VAA holds: its guardian set index, its records, its body.
pub open spec fn parse_signed_vaa_spec(raw: Seq<u8>) -> Result<(u32, Seq<Seq<u8>>, Seq<u8>), VaaParseError> {
    if raw.len() == 0 {
        Err(VaaParseError::Empty)
    } else if raw[0] != 1 {
        Err(VaaParseError::UnsupportedVersion(raw[0]))
    } else if raw.len() < 6 {
        Err(VaaParseError::TooShort)
    } else if raw.len() < record_start(raw[5] as int) {
        Err(VaaParseError::Truncated)
    } else {
        Ok(
            (
                u32_of_be(raw.subrange(1, 5)),
                Seq::new(
                    raw[5] as nat,
                    |i: int| raw.subrange(record_start(i), record_start(i) + 66),
                ),
                raw.subrange(record_start(raw[5] as int), raw.len() as int),
            ),
        )
    }
}

/// The parts of a parse result, viewed.
pub open spec fn parsed_view(r: Result<(u32, Vec<[u8; 66]>, Vec<u8>), VaaParseError>) -> Result<
    (u32, Seq<Seq<u8>>, Seq<u8>),
    VaaParseError,
> {
    match r {
        Ok((g, s, b)) => Ok((g, records_view(s@), b@)),
        Err(e) => Err(e),
    }
}

impl TestVaa {
    /// The body bytes of this VAA.
    pub open spec fn spec_body(&self) -> Seq<u8> {
        body_bytes(
            self.timestamp,
            self.nonce,
            self.emitter_chain,
            self.emitter_address@,
            self.sequence,
            self.consistency_level,
            self.payload@,
        )
    }

    /// A VAA with the given emitter, sequence and payload; timestamp
    /// 1234567890, nonce 0, consistency level 1, guardian set 0, every probe on.
    pub fn new(emitter_chain: u16, emitter_address: [u8; 32], sequence: u64, payload: Vec<u8>) -> (r:
        Self)
        ensures
            r.emitter_chain == emitter_chain,
            r.emitter_address == emitter_address,
            r.sequence == sequence,
            r.payload == payload,
            r.timestamp == 1234567890,
            r.nonce == 0,
            r.consistency_level == 1,
            r.guardian_set_index == 0,
            r.checks.emitter_chain,
            r.checks.emitter_address,
            r.checks.replay == ReplayProtection::NonReplayable,
    {
        TestVaa {
            emitter_chain,
            emitter_address,
            sequence,
            payload,
            timestamp: 1234567890,
            nonce: 0,
            consistency_level: 1,
            guardian_set_index: 0,
            checks: VaaChecks::default(),
        }
    }

    /// Builds the body bytes: 51 bytes of fields, then the payload.
    pub fn body(&self) -> (r: Vec<u8>)
        ensures
            r@ == self.spec_body(),
            r@.len() == 51 + self.payload@.len(),
    {
        let mut body: Vec<u8> = Vec::new();
        push_be_u32(&mut body, self.timestamp);
        push_be_u32(&mut body, self.nonce);
        push_be_u16(&mut body, self.emitter_chain);
        push_all(&mut body, self.emitter_address.as_slice());
        push_be_u64(&mut body, self.sequence);
        body.push(self.consistency_level);
        push_all(&mut body, self.payload.as_slice());
        assert(body@ =~= self.spec_body());
        body
    }

    /// The digest of the body: Keccak-256 applied twice.
    pub fn digest(&self) -> (r: [u8; 32])
        ensures
            r@ == vaa_digest(self.spec_body()),
    {
        let body = self.body();
        vaa_body_digest(body.as_slice())
    }

    /// The signed VAA with a signature of every guardian of the set.
    pub fn sign(&self, guardians: &TestGuardianSet) -> (r: Vec<u8>)
        ensures
            r@ == signed_vaa_bytes(
                self.guardian_set_index,
                all_signed_records(guardians.secret_keys(), self.spec_body()),
                self.spec_body(),
            ),
    {
        let body = self.body();
        let signatures = guardians.sign_vaa_body(body.as_slice());
        self.build_signed_vaa(body.as_slice(), signatures.as_slice())
    }

    /// The signed VAA with signatures of the guardians at `indices`.
    pub fn sign_with(&self, guardians: &TestGuardianSet, indices: &[u8]) -> (r: Vec<u8>)
        requires
            indices@.len() <= 255,
            forall|k: int|
                0 <= k < indices@.len() ==> indices@[k] < guardians.secret_keys().len(),
        ensures
            r@ == signed_vaa_bytes(
                self.guardian_set_index,
                chosen_signed_records(guardians.secret_keys(), indices@, self.spec_body()),
                self.spec_body(),
            ),
    {
        let body = self.body();
        let signatures = guardians.sign_vaa_body_with(body.as_slice(), indices);
        self.build_signed_vaa(body.as_slice(), signatures.as_slice())
    }

    /// The records of every guardian of the set over this VAA's body.
    pub fn guardian_signatures(&self, guardians: &TestGuardianSet) -> (r: Vec<[u8; 66]>)
        ensures
            records_view(r@) == all_signed_records(guardians.secret_keys(), self.spec_body()),
            r@.len() == guardians.secret_keys().len(),
    {
        let body = self.body();
        guardians.sign_vaa_body(body.as_slice())
    }

    /// Lays out a signed VAA with this VAA's guardian set index.
    pub fn build_signed_vaa(&self, body: &[u8], signatures: &[[u8; 66]]) -> (r: Vec<u8>)
        requires
            signatures@.len() <= 255,
        ensures
            r@ == signed_vaa_bytes(self.guardian_set_index, records_view(signatures@), body@),
    {
        let mut vaa: Vec<u8> = Vec::new();
        vaa.push(1u8);
        push_be_u32(&mut vaa, self.guardian_set_index);
        vaa.push(signatures.len() as u8);
        let ghost head = vaa@;
        let ghost records = records_view(signatures@);
        for i in 0..signatures.len()
            invariant
                records == records_view(signatures@),
                vaa@ == head + concat_records(records.subrange(0, i as int)),
        {
            push_all(&mut vaa, signatures[i].as_slice());
            assert(records.subrange(0, i + 1).drop_last() == records.subrange(0, i as int));
        }
        assert(records.subrange(0, signatures@.len() as int) == records);
        push_all(&mut vaa, body);
        vaa
    }
}

/// An emitter address from a 20-byte address, right-aligned behind twelve
/// zero bytes.
pub fn emitter_address_from_20(addr: [u8; 20]) -> (r: [u8; 32])
    ensures
        r@ == Seq::new(12, |i: int| 0u8) + addr@,
{
    let mut r = [0u8; 32];
    for i in 0..20
        invariant
            forall|j: int| 0 <= j < 12 ==> r@[j] == 0u8,
            forall|j: int| 0 <= j < i ==> r@[12 + j] == addr@[j],
    {
        r[12 + i] = addr[i];
    }
    assert(r@ =~= Seq::new(12, |i: int| 0u8) + addr@);
    r
}

/// An emitter address from a 32-byte address: the address itself.
pub fn emitter_address_from_32(addr: [u8; 32]) -> (r: [u8; 32])
    ensures
        r == addr,
{
    addr
}

/// Splits a signed VAA into its guardian set index, its 66-byte records and
/// its body.
pub fn parse_signed_vaa(raw: &[u8]) -> (r: Result<(u32, Vec<[u8; 66]>, Vec<u8>), VaaParseError>)
    ensures
        parsed_view(r) == parse_signed_vaa_spec(raw@),
{
    if raw.len() == 0 {
        return Err(VaaParseError::Empty);
    }
    if raw[0] != 1 {
        return Err(VaaParseError::UnsupportedVersion(raw[0]));
    }
    if raw.len() < 6 {
        return Err(VaaParseError::TooShort);
    }
    let guardian_set_index = read_be_u32(raw, 1);
    let sig_count = raw[5] as usize;
    let body_offset = 6 + sig_count * 66;
    if raw.len() < body_offset {
        return Err(VaaParseError::Truncated);
    }
    let mut signatures: Vec<[u8; 66]> = Vec::new();
    for i in 0..sig_count
        invariant
            sig_count == raw@[5],
            6 + sig_count * 66 <= raw@.len(),
            signatures@.len() == i,
            forall|k: int|
                0 <= k < i ==> #[trigger] signatures@[k]@ == raw@.subrange(
                    record_start(k),
                    record_start(k) + 66,
                ),
    {
        let start = 6 + i * 66;
        let record = copy_range(raw, start, 66);
        signatures.push(to_array(record.as_slice()));
    }
    let body = copy_range(raw, body_offset, raw.len() - body_offset);
    let ghost spec = parse_signed_vaa_spec(raw@);
    assert(records_view(signatures@) =~= spec.unwrap().1);
    Ok((guardian_set_index, signatures, body))
}

/// The fields of a body: timestamp, nonce, emitter chain, emitter address,
/// sequence, consistency level, payload; `None` below the 51 bytes of fields.
pub open spec fn body_fields(body: Seq<u8>) -> Option<(u32, u32, u16, Seq<u8>, u64, u8, Seq<u8>)> {
    if body.len() < 51 {
        None
    } else {
        Some(
            (
                u32_of_be(body.subrange(0, 4)),
                u32_of_be(body.subrange(4, 8)),
                u16_of_be(body.subrange(8, 10)),
                body.subrange(10, 42),
                u64_of_be(body.subrange(42, 50)),
                body[50],
                body.subrange(51, body.len() as int),
            ),
        )
    }
}

impl TestVaa {
    /// The VAA whose body is `body`, for guardian set 0 with every probe on;
    /// `None` when the body is shorter than its 51 bytes of fields.
    pub fn from_body(body: &[u8]) -> (r: Option<TestVaa>)
        ensures
            r is None <==> body@.len() < 51,
            r matches Some(v) ==> body_fields(body@) == Some(
                (
                    v.timestamp,
                    v.nonce,
                    v.emitter_chain,
                    v.emitter_address@,
                    v.sequence,
                    v.consistency_level,
                    v.payload@,
                ),
            ) && v.guardian_set_index == 0,
    {
        if body.len() < 51 {
            return None;
        }
        let address = copy_range(body, 10, 32);
        Some(
            TestVaa {
                emitter_chain: read_be_u16(body, 8),
                emitter_address: to_array(address.as_slice()),
                sequence: read_be_u64(body, 42),
                payload: copy_range(body, 51, body.len() - 51),
                timestamp: read_be_u32(body, 0),
                nonce: read_be_u32(body, 4),
                consistency_level: body[50],
                guardian_set_index: 0,
                checks: VaaChecks::default(),
            },
        )
    }
}

/// Decoding an encoded body gives back every field, for any 32-byte emitter
/// address and any payload.
pub proof fn lemma_body_round_trip(
    timestamp: u32,
    nonce: u32,
    emitter_chain: u16,
    emitter_address: Seq<u8>,
    sequence: u64,
    consistency_level: u8,
    payload: Seq<u8>,
)
    requires
        emitter_address.len() == 32,
    ensures
        body_fields(
            body_bytes(timestamp, nonce, emitter_chain, emitter_address, sequence, consistency_level, payload),
        ) == Some((timestamp, nonce, emitter_chain, emitter_address, sequence, consistency_level, payload)),
{
    let b = body_bytes(timestamp, nonce, emitter_chain, emitter_address, sequence, consistency_level, payload);
    lemma_u32_be_round_trip(timestamp);
    lemma_u32_be_round_trip(nonce);
    lemma_u16_be_round_trip(emitter_chain);
    lemma_u64_be_round_trip(sequence);
    assert(b.subrange(0, 4) =~= be_u32(timestamp));
    assert(b.subrange(4, 8) =~= be_u32(nonce));
    assert(b.subrange(8, 10) =~= be_u16(emitter_chain));
    assert(b.subrange(10, 42) =~= emitter_address);
    assert(b.subrange(42, 50) =~= be_u64(sequence));
    assert(b.subrange(51, b.len() as int) =~= payload);
}

/// Byte `66 * i + j` of records of 66 bytes laid end to end is byte `j` of
/// record `i`.
proof fn lemma_concat_records_index(records: Seq<Seq<u8>>, i: int, j: int)
    requires
        forall|k: int| 0 <= k < records.len() ==> #[trigger] records[k].len() == 66,
        0 <= i < records.len(),
        0 <= j < 66,
    ensures
        concat_records(records).len() == 66 * records.len(),
        concat_records(records)[66 * i + j] == records[i][j],
    decreases records.len(),
{
    lemma_concat_records_len(records);
    let init = records.drop_last();
    if i < records.len() - 1 {
        lemma_concat_records_index(init, i, j);
    } else {
        lemma_concat_records_len(init);
    }
}

proof fn lemma_concat_records_len(records: Seq<Seq<u8>>)
    requires
        forall|k: int| 0 <= k < records.len() ==> #[trigger] records[k].len() == 66,
    ensures
        concat_records(records).len() == 66 * records.len(),
    decreases records.len(),
{
    if records.len() > 0 {
        lemma_concat_records_len(records.drop_last());
    }
}

/// Decoding an encoded signed VAA gives back its guardian set index, its
/// records and its body, for up to 255 records of 66 bytes each.
pub proof fn lemma_signed_vaa_round_trip(
    guardian_set_index: u32,
    records: Seq<Seq<u8>>,
    body: Seq<u8>,
)
    requires
        records.len() <= 255,
        forall|k: int| 0 <= k < records.len() ==> #[trigger] records[k].len() == 66,
    ensures
        parse_signed_vaa_spec(signed_vaa_bytes(guardian_set_index, records, body)) == Ok::<
            (u32, Seq<Seq<u8>>, Seq<u8>),
            VaaParseError,
        >((guardian_set_index, records, body)),
{
    let raw = signed_vaa_bytes(guardian_set_index, records, body);
    let cat = concat_records(records);
    lemma_concat_records_len(records);
    lemma_u32_be_round_trip(guardian_set_index);
    assert(raw.subrange(1, 5) =~= be_u32(guardian_set_index));
    assert(raw[5] == records.len() as u8);
    let n = records.len();
    let parsed = Seq::new(n, |i: int| raw.subrange(record_start(i), record_start(i) + 66));
    assert forall|i: int| 0 <= i < n implies #[trigger] parsed[i] == records[i] by {
        assert forall|j: int| 0 <= j < 66 implies parsed[i][j] == records[i][j] by {
            lemma_concat_records_index(records, i, j);
        }
        assert(parsed[i] =~= records[i]);
    }
    assert(parsed =~= records);
    assert(raw.subrange(record_start(n as int), raw.len() as int) =~= body);
}

} // verus!
