//! Simulated guardians: deterministic secp256k1 test keys that sign VAA bodies.

use vstd::prelude::*;

use crate::bytes::{be_u32, be_u64, copy_range, push_all, push_be_u32, push_be_u64, push_le_u32};
use crate::bytes::le_u32;
use crate::crypto::{
    eth_address_of, is_small_secret, keccak256, keccak256_of, secp256k1_public,
    secp256k1_public_key, secp256k1_recover, secp256k1_recovered, secp256k1_sign,
    secp256k1_signature,
};

verus! {

/// The digest guardians sign and verifiers recompute: Keccak-256 applied twice
/// to the body.
pub open spec fn vaa_digest(body: Seq<u8>) -> Seq<u8> {
    keccak256_of(keccak256_of(body))
}

/// A 66-byte signature record: the guardian's index, then its signature.
pub open spec fn signature_record(index: u8, signature: Seq<u8>) -> Seq<u8> {
    seq![index] + signature
}

/// The secret key of test guardian `index` of the set generated from `seed`:
/// sixteen zero bytes, the seed and the index big-endian, then `0, 0, 0, 1`.
pub open spec fn guardian_secret(seed: u64, index: u32) -> Seq<u8> {
    Seq::new(16, |i: int| 0u8) + be_u64(seed) + be_u32(index) + seq![0u8, 0u8, 0u8, 1u8]
}

/// The record that guardian `key` signs as guardian `index` over `body`.
pub open spec fn signed_record(index: u8, key: Seq<u8>, body: Seq<u8>) -> Seq<u8> {
    signature_record(index, secp256k1_signature(key, vaa_digest(body)))
}

/// The records every guardian of `keys` signs over `body`, in index order.
pub open spec fn all_signed_records(keys: Seq<Seq<u8>>, body: Seq<u8>) -> Seq<Seq<u8>> {
    Seq::new(keys.len(), |i: int| signed_record(i as u8, keys[i], body))
}

/// The records the guardians at `indices` sign over `body`, in that order.
pub open spec fn chosen_signed_records(keys: Seq<Seq<u8>>, indices: Seq<u8>, body: Seq<u8>) -> Seq<
    Seq<u8>,
> {
    Seq::new(indices.len(), |k: int| signed_record(indices[k], keys[indices[k] as int], body))
}

/// The bytes of each record of a list.
pub open spec fn records_view(records: Seq<[u8; 66]>) -> Seq<Seq<u8>> {
    records.map_values(|r: [u8; 66]| r@)
}

/// Copies a byte string of exactly `N` bytes into an array.
pub fn to_array<const N: usize>(v: &[u8]) -> (r: [u8; N])
    requires
        v@.len() == N,
    ensures
        r@ == v@,
{
    let mut r = [0u8; N];
    for i in 0..N
        invariant
            v@.len() == N,
            forall|j: int| 0 <= j < i ==> r@[j] == v@[j],
    {
        r[i] = v[i];
    }
    assert(r@ =~= v@);
    r
}

/// Computes the digest of a VAA body: Keccak-256 of its Keccak-256.
pub fn vaa_body_digest(body: &[u8]) -> (r: [u8; 32])
    ensures
        r@ == vaa_digest(body@),
{
    let first = keccak256(body);
    keccak256(first.as_slice())
}

/// Builds a signature record from a guardian index and a 65-byte signature.
pub fn make_record(index: u8, signature: &[u8; 65]) -> (r: [u8; 66])
    ensures
        r@ == signature_record(index, signature@),
{
    let mut r = [0u8; 66];
    r[0] = index;
    for i in 0..65
        invariant
            r@[0] == index,
            forall|j: int| 0 <= j < i ==> r@[j + 1] == signature@[j],
    {
        r[i + 1] = signature[i];
    }
    assert(r@ =~= signature_record(index, signature@));
    r
}

/// Whether a record is valid over `digest` for a guardian set with these
/// addresses: its index names a guardian, and its signature recovers to a key
/// whose address is that guardian's.
pub open spec fn record_valid(addresses: Seq<Seq<u8>>, digest: Seq<u8>, record: Seq<u8>) -> bool {
    &&& (record[0] as int) < addresses.len()
    &&& secp256k1_recovered(record.subrange(1, 66), digest) matches Some(key)
    &&& eth_address_of(key) == addresses[record[0] as int]
}

/// Checks a signature record over `digest` against the guardians' addresses,
/// as a verifier of posted signatures does.
pub fn record_is_valid(addresses: &[[u8; 20]], digest: &[u8; 32], record: &[u8; 66]) -> (r: bool)
    ensures
        r == record_valid(addresses@.map_values(|a: [u8; 20]| a@), digest@, record@),
{
    let index = record[0] as usize;
    if index >= addresses.len() {
        return false;
    }
    let sig_bytes = copy_range(record.as_slice(), 1, 65);
    let signature: [u8; 65] = to_array(sig_bytes.as_slice());
    match secp256k1_recover(&signature, digest) {
        None => false,
        Some(key) => {
            let key_body = copy_range(key.as_slice(), 1, 64);
            let hash = keccak256(key_body.as_slice());
            let tail = copy_range(hash.as_slice(), 12, 20);
            let expected = addresses[index];
            let mut same = true;
            for i in 0..20
                invariant
                    tail@.len() == 20,
                    same <==> forall|j: int| 0 <= j < i ==> tail@[j] == expected@[j],
            {
                if tail[i] != expected[i] {
                    same = false;
                }
            }
            assert(same <==> tail@ =~= expected@);
            same
        },
    }
}

/// A simulated guardian holding a secp256k1 test key.
#[derive(Clone, Copy, Debug)]
pub struct TestGuardian {
    secret: [u8; 32],
}

impl TestGuardian {
    #[verifier::type_invariant]
    spec fn inv(&self) -> bool {
        is_small_secret(self.secret@)
    }

    /// The guardian's secret key.
    pub closed spec fn secret_key(&self) -> Seq<u8> {
        self.secret@
    }

    /// The test guardian `index` of the set generated from `seed`.
    pub fn from_seed(seed: u64, index: u32) -> (g: Self)
        ensures
            g.secret_key() == guardian_secret(seed, index),
    {
        let mut v: Vec<u8> = Vec::new();
        for i in 0..16usize
            invariant
                v@ == Seq::new(i as nat, |j: int| 0u8),
        {
            v.push(0u8);
            assert(v@ =~= Seq::new((i + 1) as nat, |j: int| 0u8));
        }
        push_be_u64(&mut v, seed);
        push_be_u32(&mut v, index);
        v.push(0u8);
        v.push(0u8);
        v.push(0u8);
        v.push(1u8);
        assert(v@ =~= guardian_secret(seed, index));
        let secret: [u8; 32] = to_array(v.as_slice());
        TestGuardian { secret }
    }

    /// The guardian's 20-byte address: the last twenty bytes of the Keccak-256
    /// digest of its uncompressed public key.
    pub fn eth_address(&self) -> (r: [u8; 20])
        ensures
            r@ == eth_address_of(secp256k1_public_key(self.secret_key())),
    {
        proof {
            use_type_invariant(self);
        }
        let public = secp256k1_public(&self.secret);
        let key_body = copy_range(public.as_slice(), 1, 64);
        let digest = keccak256(key_body.as_slice());
        let tail = copy_range(digest.as_slice(), 12, 20);
        to_array(tail.as_slice())
    }

    /// Signs a 32-byte digest as guardian `index`.
    pub fn sign_record(&self, index: u8, digest: &[u8; 32]) -> (r: [u8; 66])
        ensures
            r@ == signature_record(index, secp256k1_signature(self.secret_key(), digest@)),
    {
        proof {
            use_type_invariant(self);
        }
        let signature = secp256k1_sign(&self.secret, digest);
        make_record(index, &signature)
    }
}

impl Default for TestGuardian {
    /// The first guardian of the set generated from seed zero.
    fn default() -> (g: Self)
        ensures
            g.secret_key() == guardian_secret(0, 0),
    {
        TestGuardian::from_seed(0, 0)
    }
}

/// An ordered set of simulated guardians; a guardian's position is its index.
#[derive(Debug)]
pub struct TestGuardianSet {
    guardians: Vec<TestGuardian>,
}

impl TestGuardianSet {
    #[verifier::type_invariant]
    spec fn inv(&self) -> bool {
        self.guardians@.len() <= 255
    }

    /// The guardians' secret keys, by index.
    pub closed spec fn secret_keys(&self) -> Seq<Seq<u8>> {
        self.guardians@.map_values(|g: TestGuardian| g.secret_key())
    }

    /// The set holding one guardian.
    pub fn single(guardian: TestGuardian) -> (s: Self)
        ensures
            s.secret_keys() == seq![guardian.secret_key()],
    {
        let s = TestGuardianSet { guardians: vec![guardian] };
        assert(s.secret_keys() =~= seq![guardian.secret_key()]);
        s
    }

    /// The set of `count` guardians generated from `seed`.
    pub fn generate(count: u8, seed: u64) -> (s: Self)
        ensures
            s.secret_keys().len() == count,
            forall|i: int|
                0 <= i < count ==> #[trigger] s.secret_keys()[i] == guardian_secret(seed, i as u32),
    {
        let mut guardians: Vec<TestGuardian> = Vec::new();
        for i in 0..count
            invariant
                guardians@.len() == i,
                forall|j: int|
                    0 <= j < i ==> #[trigger] guardians@[j].secret_key() == guardian_secret(
                        seed,
                        j as u32,
                    ),
        {
            guardians.push(TestGuardian::from_seed(seed, i as u32));
        }
        TestGuardianSet { guardians }
    }

    /// The number of guardians, at most 255.
    pub fn len(&self) -> (r: usize)
        ensures
            r == self.secret_keys().len(),
            r <= 255,
    {
        proof {
            use_type_invariant(self);
        }
        self.guardians.len()
    }

    /// The guardians' 20-byte addresses, by index.
    pub fn eth_addresses(&self) -> (r: Vec<[u8; 20]>)
        ensures
            r@.len() == self.secret_keys().len(),
            forall|i: int|
                0 <= i < r@.len() ==> #[trigger] r@[i]@ == eth_address_of(
                    secp256k1_public_key(self.secret_keys()[i]),
                ),
    {
        let mut r: Vec<[u8; 20]> = Vec::new();
        for i in 0..self.guardians.len()
            invariant
                r@.len() == i,
                forall|j: int|
                    0 <= j < i ==> #[trigger] r@[j]@ == eth_address_of(
                        secp256k1_public_key(self.secret_keys()[j]),
                    ),
        {
            r.push(self.guardians[i].eth_address());
        }
        r
    }

    /// Signs a VAA body with every guardian, in index order.
    pub fn sign_vaa_body(&self, body: &[u8]) -> (r: Vec<[u8; 66]>)
        ensures
            r@.len() == self.secret_keys().len(),
            forall|i: int|
                0 <= i < r@.len() ==> #[trigger] r@[i]@ == signed_record(
                    i as u8,
                    self.secret_keys()[i],
                    body@,
                ),
            records_view(r@) == all_signed_records(self.secret_keys(), body@),
            r@.len() <= 255,
    {
        proof {
            use_type_invariant(self);
        }
        let digest = vaa_body_digest(body);
        let mut r: Vec<[u8; 66]> = Vec::new();
        for i in 0..self.guardians.len()
            invariant
                self.guardians@.len() <= 255,
                digest@ == vaa_digest(body@),
                r@.len() == i,
                forall|j: int|
                    0 <= j < i ==> #[trigger] r@[j]@ == signed_record(
                        j as u8,
                        self.secret_keys()[j],
                        body@,
                    ),
        {
            r.push(self.guardians[i].sign_record(i as u8, &digest));
        }
        assert(records_view(r@) =~= all_signed_records(self.secret_keys(), body@));
        r
    }

    /// Signs a VAA body with the guardians at `indices`, in the order given.
    pub fn sign_vaa_body_with(&self, body: &[u8], indices: &[u8]) -> (r: Vec<[u8; 66]>)
        requires
            forall|k: int| 0 <= k < indices@.len() ==> indices@[k] < self.secret_keys().len(),
        ensures
            r@.len() == indices@.len(),
            forall|k: int|
                0 <= k < r@.len() ==> #[trigger] r@[k]@ == signed_record(
                    indices@[k],
                    self.secret_keys()[indices@[k] as int],
                    body@,
                ),
            records_view(r@) == chosen_signed_records(self.secret_keys(), indices@, body@),
    {
        let digest = vaa_body_digest(body);
        let mut r: Vec<[u8; 66]> = Vec::new();
        for k in 0..indices.len()
            invariant
                forall|m: int| 0 <= m < indices@.len() ==> indices@[m] < self.secret_keys().len(),
                digest@ == vaa_digest(body@),
                r@.len() == k,
                forall|m: int|
                    0 <= m < k ==> #[trigger] r@[m]@ == signed_record(
                        indices@[m],
                        self.secret_keys()[indices@[m] as int],
                        body@,
                    ),
        {
            let index = indices[k];
            r.push(self.guardians[index as usize].sign_record(index, &digest));
        }
        assert(records_view(r@) =~= chosen_signed_records(self.secret_keys(), indices@, body@));
        r
    }
}

/// The addresses laid end to end.
pub open spec fn concat_addresses(addresses: Seq<[u8; 20]>) -> Seq<u8>
    decreases addresses.len(),
{
    if addresses.len() == 0 {
        seq![]
    } else {
        concat_addresses(addresses.drop_last()) + addresses.last()@
    }
}

/// The guardian-set account format: index, key count, the 20-byte
/// addresses, creation time and expiration time (0, never), the integers
/// little-endian.
pub open spec fn guardian_set_data(index: u32, addresses: Seq<[u8; 20]>) -> Seq<u8> {
    le_u32(index) + le_u32(addresses.len() as u32) + concat_addresses(addresses) + le_u32(0)
        + le_u32(0)
}

/// The data of the guardian-set account at `index` for `guardians`, created
/// at time 0 and never expiring.
pub fn build_guardian_set_data(guardians: &TestGuardianSet, index: u32) -> (r: Vec<u8>)
    ensures
        exists|addresses: Seq<[u8; 20]>|
            #![trigger guardian_set_data(index, addresses)]
            {
                &&& addresses.len() == guardians.secret_keys().len()
                &&& forall|i: int|
                    0 <= i < addresses.len() ==> #[trigger] addresses[i]@ == eth_address_of(
                        secp256k1_public_key(guardians.secret_keys()[i]),
                    )
                &&& r@ == guardian_set_data(index, addresses)
            },
{
    let addresses = guardians.eth_addresses();
    let mut data: Vec<u8> = Vec::new();
    push_le_u32(&mut data, index);
    push_le_u32(&mut data, guardians.len() as u32);
    let ghost head = data@;
    for i in 0..addresses.len()
        invariant
            data@ == head + concat_addresses(addresses@.subrange(0, i as int)),
    {
        push_all(&mut data, addresses[i].as_slice());
        assert(addresses@.subrange(0, i + 1).drop_last() == addresses@.subrange(0, i as int));
    }
    assert(addresses@.subrange(0, addresses@.len() as int) == addresses@);
    push_le_u32(&mut data, 0);
    push_le_u32(&mut data, 0);
    assert(data@ =~= guardian_set_data(index, addresses@));
    data
}

/// Every record a guardian set signs names a guardian of the set: record `i`
/// carries index `i`, below the set's size, followed by guardian `i`'s
/// signature over the body's digest.
pub proof fn lemma_signed_records_name_their_guardians(keys: Seq<Seq<u8>>, body: Seq<u8>)
    requires
        keys.len() <= 255,
    ensures
        forall|i: int|
            0 <= i < keys.len() ==> {
                let record = #[trigger] all_signed_records(keys, body)[i];
                &&& record[0] as int == i
                &&& (record[0] as int) < keys.len()
                &&& record == seq![record[0]] + secp256k1_signature(keys[i], vaa_digest(body))
            },
{
}

} // verus!
