//! Placeholder addresses and their substitution.
//!
//! A resolver names roles it cannot know yet (the payer, the signatures
//! account, the guardian set, freshly generated signers) by reserved
//! addresses. The table of those addresses is injective; substitution maps
//! each placeholder to the address that fills its role.

use vstd::prelude::*;

verus! {

/// Number of generated-signer placeholder slots.
pub const KEYPAIR_SLOTS: usize = 10;

/// Compares two addresses byte by byte.
pub fn same_address(a: &[u8; 32], b: &[u8; 32]) -> (r: bool)
    ensures
        r == (*a == *b),
{
    for i in 0..32
        invariant
            forall|j: int| 0 <= j < i ==> a@[j] == b@[j],
    {
        if a[i] != b[i] {
            return false;
        }
    }
    assert(*a =~= *b);
    true
}

/// A role that a placeholder address stands for.
#[derive(Clone, Copy, Debug, PartialEq, Eq, Structural)]
pub enum Role {
    Payer,
    SignaturesAccount,
    GuardianSet,
    /// One of the generated-signer slots, `0..10`.
    GeneratedSigner(u8),
}

/// The reserved addresses of the resolver protocol.
#[derive(Clone, Copy, Debug)]
pub struct Placeholders {
    payer: [u8; 32],
    signatures: [u8; 32],
    guardian_set: [u8; 32],
    keypairs: [[u8; 32]; 10],
}

/// All entries of the table, payer first, then signatures account, guardian
/// set and the ten signer slots.
pub open spec fn table_entries(
    payer: [u8; 32],
    signatures: [u8; 32],
    guardian_set: [u8; 32],
    keypairs: Seq<[u8; 32]>,
) -> Seq<[u8; 32]> {
    seq![payer, signatures, guardian_set] + keypairs
}

pub open spec fn all_distinct(s: Seq<[u8; 32]>) -> bool {
    forall|i: int, j: int| 0 <= i < s.len() && 0 <= j < s.len() && i != j ==> s[i] != s[j]
}

impl Placeholders {
    /// The table's entries in role order.
    pub closed spec fn entries(&self) -> Seq<[u8; 32]> {
        table_entries(self.payer, self.signatures, self.guardian_set, self.keypairs@)
    }

    /// The address standing for `role`.
    pub open spec fn address_of(&self, role: Role) -> [u8; 32] {
        match role {
            Role::Payer => self.entries()[0],
            Role::SignaturesAccount => self.entries()[1],
            Role::GuardianSet => self.entries()[2],
            Role::GeneratedSigner(k) => self.entries()[3 + k],
        }
    }

    /// The placeholder of generated-signer slot `k`.
    pub open spec fn slot_address(&self, k: int) -> [u8; 32] {
        self.entries()[3 + k]
    }

    /// Whether `a` is one of the reserved addresses.
    pub open spec fn is_placeholder(&self, a: [u8; 32]) -> bool {
        self.entries().contains(a)
    }

    /// Whether `a` is one of the generated-signer placeholders.
    pub open spec fn is_keypair_placeholder(&self, a: [u8; 32]) -> bool {
        exists|k: int| 0 <= k < 10 && self.slot_address(k) == a
    }

    /// The table is injective.
    pub open spec fn wf(&self) -> bool {
        all_distinct(self.entries())
    }

    pub proof fn lemma_entries_len(&self)
        ensures
            self.entries().len() == 13,
    {
    }

    /// The table, when its thirteen addresses are pairwise distinct.
    pub fn new(
        payer: [u8; 32],
        signatures: [u8; 32],
        guardian_set: [u8; 32],
        keypairs: [[u8; 32]; 10],
    ) -> (r: Option<Self>)
        ensures
            r is Some <==> all_distinct(table_entries(payer, signatures, guardian_set, keypairs@)),
            r matches Some(t) ==> t.wf(),
            r matches Some(t) ==> t.entries() == table_entries(
                payer,
                signatures,
                guardian_set,
                keypairs@,
            ),
    {
        let mut all: Vec<[u8; 32]> = vec![payer, signatures, guardian_set];
        for k in 0..10
            invariant
                all@ == seq![payer, signatures, guardian_set] + keypairs@.subrange(0, k as int),
        {
            all.push(keypairs[k]);
            assert(keypairs@.subrange(0, k + 1) == keypairs@.subrange(0, k as int).push(
                keypairs@[k as int],
            ));
        }
        assert(all@ =~= table_entries(payer, signatures, guardian_set, keypairs@));
        let ghost entries = table_entries(payer, signatures, guardian_set, keypairs@);
        let n = all.len();
        for i in 0..n
            invariant
                n == all@.len(),
                all@ == entries,
                entries == table_entries(payer, signatures, guardian_set, keypairs@),
                forall|a: int, b: int| 0 <= a < i && 0 <= b < n && a != b ==> all@[a] != all@[b],
        {
            for j in 0..n
                invariant
                    n == all@.len(),
                    all@ == entries,
                    entries == table_entries(payer, signatures, guardian_set, keypairs@),
                    i < n,
                    forall|a: int, b: int|
                        0 <= a < i && 0 <= b < n && a != b ==> all@[a] != all@[b],
                    forall|b: int| 0 <= b < j && b != i ==> all@[i as int] != all@[b],
            {
                if i != j && same_address(&all[i], &all[j]) {
                    assert(!all_distinct(entries)) by {
                        assert(entries[i as int] == entries[j as int]);
                    }
                    return None;
                }
            }
        }
        Some(Placeholders { payer, signatures, guardian_set, keypairs })
    }

    /// The address standing for the payer.
    pub fn payer(&self) -> (r: [u8; 32])
        ensures
            r == self.address_of(Role::Payer),
    {
        self.payer
    }

    /// The address standing for the signatures account.
    pub fn signatures(&self) -> (r: [u8; 32])
        ensures
            r == self.address_of(Role::SignaturesAccount),
    {
        self.signatures
    }

    /// The address standing for the guardian set account.
    pub fn guardian_set(&self) -> (r: [u8; 32])
        ensures
            r == self.address_of(Role::GuardianSet),
    {
        self.guardian_set
    }

    /// The address standing for generated-signer slot `k`.
    pub fn slot(&self, k: usize) -> (r: [u8; 32])
        requires
            k < 10,
        ensures
            r == self.slot_address(k as int),
    {
        self.keypairs[k]
    }

    /// The role `a` stands for, if it is a placeholder.
    pub fn role_of(&self, a: &[u8; 32]) -> (r: Option<Role>)
        ensures
            r is Some <==> self.is_placeholder(*a),
            r matches Some(role) ==> self.address_of(role) == *a && (role matches Role::GeneratedSigner(
                k,
            ) ==> k < 10),
    {
        if same_address(a, &self.payer) {
            assert(self.entries()[0] == *a);
            return Some(Role::Payer);
        }
        if same_address(a, &self.signatures) {
            assert(self.entries()[1] == *a);
            return Some(Role::SignaturesAccount);
        }
        if same_address(a, &self.guardian_set) {
            assert(self.entries()[2] == *a);
            return Some(Role::GuardianSet);
        }
        for k in 0..10
            invariant
                forall|m: int| 0 <= m < k ==> self.keypairs@[m] != *a,
                self.entries() == table_entries(
                    self.payer,
                    self.signatures,
                    self.guardian_set,
                    self.keypairs@,
                ),
        {
            if same_address(a, &self.keypairs[k]) {
                assert(self.entries()[3 + k] == *a);
                return Some(Role::GeneratedSigner(k as u8));
            }
        }
        assert(!self.entries().contains(*a)) by {
            if self.entries().contains(*a) {
                let i = choose|i: int| 0 <= i < self.entries().len() && self.entries()[i] == *a;
                assert(i >= 3);
                assert(self.keypairs@[i - 3] == *a);
            }
        }
        None
    }
}

/// The first actual address paired with `a` in a generated-signer map.
pub open spec fn lookup(map: Seq<([u8; 32], [u8; 32])>, a: [u8; 32]) -> Option<[u8; 32]>
    decreases map.len(),
{
    if map.len() == 0 {
        None
    } else if map[0].0 == a {
        Some(map[0].1)
    } else {
        lookup(map.drop_first(), a)
    }
}

/// Looks `a` up in a generated-signer map.
pub fn find_generated(map: &Vec<([u8; 32], [u8; 32])>, a: &[u8; 32]) -> (r: Option<[u8; 32]>)
    ensures
        r == lookup(map@, *a),
{
    let n = map.len();
    assert(map@.subrange(0, n as int) == map@);
    for i in 0..n
        invariant
            n == map@.len(),
            lookup(map@, *a) == lookup(map@.subrange(i as int, n as int), *a),
    {
        let ghost rest = map@.subrange(i as int, n as int);
        assert(rest.drop_first() == map@.subrange(i + 1, n as int));
        if same_address(&map[i].0, a) {
            return Some(map[i].1);
        }
    }
    None
}

/// What fills each role at execution time.
#[derive(Clone, Debug)]
pub struct Substitution {
    /// The reserved addresses.
    pub placeholders: Placeholders,
    /// The payer.
    pub payer: [u8; 32],
    /// The signatures account.
    pub signatures: [u8; 32],
    /// The guardian set account.
    pub guardian_set: [u8; 32],
    /// Each referenced signer placeholder with the address generated for it.
    pub generated: Vec<([u8; 32], [u8; 32])>,
}

impl Substitution {
    /// The address that replaces `a`.
    pub open spec fn apply(&self, a: [u8; 32]) -> [u8; 32] {
        if a == self.placeholders.address_of(Role::Payer) {
            self.payer
        } else if a == self.placeholders.address_of(Role::SignaturesAccount) {
            self.signatures
        } else if a == self.placeholders.address_of(Role::GuardianSet) {
            self.guardian_set
        } else if let Some(actual) = lookup(self.generated@, a) {
            actual
        } else {
            a
        }
    }

    /// Every address that can come out of the substitution for a role is a
    /// real address, not a placeholder.
    pub open spec fn fills_with_real_addresses(&self) -> bool {
        &&& !self.placeholders.is_placeholder(self.payer)
        &&& !self.placeholders.is_placeholder(self.signatures)
        &&& !self.placeholders.is_placeholder(self.guardian_set)
        &&& self.generated_are_real()
    }

    /// No generated signer address is a placeholder.
    pub open spec fn generated_are_real(&self) -> bool {
        forall|i: int|
            0 <= i < self.generated@.len() ==> !self.placeholders.is_placeholder(
                #[trigger] self.generated@[i].1,
            )
    }

    /// Every entry of the generated-signer map replaces a signer placeholder.
    pub open spec fn generated_keys_are_slots(&self) -> bool {
        forall|i: int|
            0 <= i < self.generated@.len() ==> self.placeholders.is_keypair_placeholder(
                #[trigger] self.generated@[i].0,
            )
    }

    /// Replaces `a` if it is a placeholder this substitution knows.
    pub fn substitute(&self, a: &[u8; 32]) -> (r: [u8; 32])
        ensures
            r == self.apply(*a),
    {
        if same_address(a, &self.placeholders.payer()) {
            self.payer
        } else if same_address(a, &self.placeholders.signatures()) {
            self.signatures
        } else if same_address(a, &self.placeholders.guardian_set()) {
            self.guardian_set
        } else {
            match find_generated(&self.generated, a) {
                Some(actual) => actual,
                None => *a,
            }
        }
    }
}

/// A found entry of a map is one of its second components.
pub proof fn lemma_lookup_found(map: Seq<([u8; 32], [u8; 32])>, a: [u8; 32])
    requires
        lookup(map, a) is Some,
    ensures
        exists|i: int| 0 <= i < map.len() && map[i].1 == lookup(map, a)->0 && map[i].0 == a,
    decreases map.len(),
{
    if map[0].0 != a {
        lemma_lookup_found(map.drop_first(), a);
        let i = choose|i: int|
            0 <= i < map.drop_first().len() && map.drop_first()[i].1 == lookup(map, a)->0
                && map.drop_first()[i].0 == a;
        assert(map[i + 1] == map.drop_first()[i]);
    }
}

/// Every first component of the map is found.
pub proof fn lemma_lookup_present(map: Seq<([u8; 32], [u8; 32])>, i: int)
    requires
        0 <= i < map.len(),
    ensures
        lookup(map, map[i].0) is Some,
    decreases map.len(),
{
    if map[0].0 != map[i].0 {
        assert(i > 0);
        assert(map.drop_first()[i - 1] == map[i]);
        lemma_lookup_present(map.drop_first(), i - 1);
    }
}

/// Substitution is total: when every role is filled with a real address,
/// and a signer placeholder in `a` has a generated address, the result is
/// never a placeholder.
pub proof fn lemma_substitution_total(s: Substitution, a: [u8; 32])
    requires
        s.placeholders.wf(),
        s.fills_with_real_addresses(),
        s.placeholders.is_keypair_placeholder(a) ==> lookup(s.generated@, a) is Some,
    ensures
        !s.placeholders.is_placeholder(s.apply(a)),
{
    s.placeholders.lemma_entries_len();
    let e = s.placeholders.entries();
    if let Some(actual) = lookup(s.generated@, a) {
        lemma_lookup_found(s.generated@, a);
    }
    if s.placeholders.is_placeholder(a) && a != e[0] && a != e[1] && a != e[2] {
        let i = choose|i: int| 0 <= i < e.len() && e[i] == a;
        assert(s.placeholders.slot_address(i - 3) == a);
    }
}

/// Substitution is idempotent: under the same conditions, and when every
/// entry of the generated map replaces a signer placeholder, substituting a
/// second time changes nothing.
pub proof fn lemma_substitution_idempotent(s: Substitution, a: [u8; 32])
    requires
        s.placeholders.wf(),
        s.fills_with_real_addresses(),
        s.generated_keys_are_slots(),
        s.placeholders.is_keypair_placeholder(a) ==> lookup(s.generated@, a) is Some,
    ensures
        s.apply(s.apply(a)) == s.apply(a),
{
    lemma_substitution_total(s, a);
    s.placeholders.lemma_entries_len();
    let e = s.placeholders.entries();
    let b = s.apply(a);
    assert(!e.contains(b));
    if let Some(x) = lookup(s.generated@, b) {
        lemma_lookup_found(s.generated@, b);
        let i = choose|i: int| 0 <= i < s.generated@.len() && s.generated@[i].0 == b;
        let k = choose|k: int| 0 <= k < 10 && s.placeholders.slot_address(k) == s.generated@[i].0;
        assert(e[3 + k] == b);
    }
}

} // verus!
