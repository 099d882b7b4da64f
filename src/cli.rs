//! What the command-line front end computes: hex input, PDA seeds, and the
//! cluster an RPC URL points at.

use vstd::prelude::*;

verus! {

/// The value of an ASCII hex digit, either case.
pub open spec fn hex_digit(c: u8) -> Option<u8> {
    if 0x30 <= c <= 0x39 {
        Some((c - 0x30) as u8)
    } else if 0x61 <= c <= 0x66 {
        Some((c - 0x61 + 10) as u8)
    } else if 0x41 <= c <= 0x46 {
        Some((c - 0x41 + 10) as u8)
    } else {
        None
    }
}

/// The bytes that hex text encodes, two digits per byte, high digit first;
/// `None` for an odd length or a character that is not a hex digit.
pub open spec fn hex_decoded(text: Seq<u8>) -> Option<Seq<u8>>
    decreases text.len(),
{
    if text.len() == 0 {
        Some(seq![])
    } else if text.len() == 1 {
        None
    } else {
        match (hex_digit(text[0]), hex_digit(text[1]), hex_decoded(text.subrange(2, text.len() as int))) {
            (Some(hi), Some(lo), Some(rest)) => Some(seq![(hi * 16 + lo) as u8] + rest),
            _ => None,
        }
    }
}

/// Relies on hex::decode: pairs of hex digits of either case, high digit
/// first; an odd length or any other character is an error.
#[verifier::external_body]
pub fn decode_hex(text: &[u8]) -> (r: Option<Vec<u8>>)
    ensures
        r is Some <==> hex_decoded(text@) is Some,
        r matches Some(v) ==> hex_decoded(text@) == Some(v@),
{
    hex::decode(text).ok()
}

/// Whether a seed argument is hex: it starts with `0x`.
pub open spec fn is_hex_seed(arg: Seq<u8>) -> bool {
    arg.len() >= 2 && arg[0] == 0x30 && arg[1] == 0x78
}

/// The bytes of a seed argument: the hex after a `0x` prefix, or else the
/// argument's own bytes.
pub open spec fn seed_bytes(arg: Seq<u8>) -> Option<Seq<u8>> {
    if is_hex_seed(arg) {
        hex_decoded(arg.subrange(2, arg.len() as int))
    } else {
        Some(arg)
    }
}

/// Reads a seed argument given as its UTF-8 bytes.
pub fn parse_seed(arg: &[u8]) -> (r: Option<Vec<u8>>)
    ensures
        r is Some <==> seed_bytes(arg@) is Some,
        r matches Some(v) ==> seed_bytes(arg@) == Some(v@),
{
    if arg.len() >= 2 && arg[0] == 0x30u8 && arg[1] == 0x78u8 {
        let mut rest: Vec<u8> = Vec::new();
        for i in 2..arg.len()
            invariant
                2 <= arg@.len(),
                rest@ == arg@.subrange(2, i as int),
        {
            rest.push(arg[i]);
            assert(arg@.subrange(2, i + 1) == arg@.subrange(2, i as int).push(arg@[i as int]));
        }
        decode_hex(rest.as_slice())
    } else {
        let mut own: Vec<u8> = Vec::new();
        for i in 0..arg.len()
            invariant
                own@ == arg@.subrange(0, i as int),
        {
            own.push(arg[i]);
            assert(arg@.subrange(0, i + 1) == arg@.subrange(0, i as int).push(arg@[i as int]));
        }
        assert(arg@.subrange(0, arg@.len() as int) == arg@);
        Some(own)
    }
}

/// The program-derived address of `seeds` under `program`, with its bump,
/// when one exists.
pub uninterp spec fn program_address(seeds: Seq<Seq<u8>>, program: Seq<u8>) -> Option<(Seq<u8>, u8)>;

/// Relies on solana_sdk::pubkey::Pubkey::try_find_program_address: the first
/// bump from 255 down whose hash is off the curve, or `None` (also when the
/// seeds with the bump are more than sixteen, or a seed is over 32 bytes);
/// it does not panic.
#[verifier::external_body]
pub fn find_program_address(seeds: &Vec<Vec<u8>>, program: &[u8; 32]) -> (r: Option<([u8; 32], u8)>)
    ensures
        r matches Some((a, b)) ==> program_address(seeds@.map_values(|s: Vec<u8>| s@), program@)
            == Some((a@, b)),
        r is None ==> program_address(seeds@.map_values(|s: Vec<u8>| s@), program@) is None,
{
    let slices: Vec<&[u8]> = seeds.iter().map(|s| s.as_slice()).collect();
    let program = solana_sdk::pubkey::Pubkey::new_from_array(*program);
    solana_sdk::pubkey::Pubkey::try_find_program_address(&slices, &program).map(|(a, b)| (a.to_bytes(), b))
}

/// Why a PDA could not be derived.
#[derive(Clone, Copy, Debug, PartialEq, Eq, Structural)]
pub enum PdaError {
    /// No seeds were given.
    NoSeeds,
    /// The seed argument at this position is not valid hex after `0x`.
    InvalidHexSeed(usize),
    /// No bump gives an address off the curve, or the seeds are too many or
    /// too long.
    NoAddress,
}

/// Whether every seed argument reads.
pub open spec fn all_seeds_read(args: Seq<Vec<u8>>) -> bool {
    forall|j: int| 0 <= j < args.len() ==> seed_bytes(#[trigger] args[j]@) is Some
}

/// The seeds that the arguments stand for.
pub open spec fn seeds_of(args: Seq<Vec<u8>>) -> Seq<Seq<u8>> {
    args.map_values(|s: Vec<u8>| seed_bytes(s@)->0)
}

/// Derives the PDA of `program` from seed arguments (text, or hex after
/// `0x`).
pub fn derive_pda(program: &[u8; 32], args: &Vec<Vec<u8>>) -> (r: Result<([u8; 32], u8), PdaError>)
    ensures
        (r == Err::<([u8; 32], u8), PdaError>(PdaError::NoSeeds)) <==> args@.len() == 0,
        args@.len() > 0 && !all_seeds_read(args@) ==> r matches Err(PdaError::InvalidHexSeed(_)),
        r matches Err(PdaError::InvalidHexSeed(i)) ==> (i < args@.len() && seed_bytes(
            args@[i as int]@,
        ) is None && forall|j: int| 0 <= j < i ==> seed_bytes(#[trigger] args@[j]@) is Some),
        args@.len() > 0 && all_seeds_read(args@) ==> match program_address(seeds_of(args@), program@) {
            Some((a, b)) => r matches Ok((ra, rb)) && ra@ == a && rb == b,
            None => r == Err::<([u8; 32], u8), PdaError>(PdaError::NoAddress),
        },
{
    if args.len() == 0 {
        return Err(PdaError::NoSeeds);
    }
    let mut seeds: Vec<Vec<u8>> = Vec::new();
    for i in 0..args.len()
        invariant
            seeds@.len() == i,
            forall|j: int| 0 <= j < i ==> seed_bytes(#[trigger] args@[j]@) is Some,
            forall|j: int| 0 <= j < i ==> Some((#[trigger] seeds@[j])@) == seed_bytes(args@[j]@),
    {
        match parse_seed(args[i].as_slice()) {
            Some(s) => seeds.push(s),
            None => return Err(PdaError::InvalidHexSeed(i)),
        }
    }
    assert(seeds@.map_values(|s: Vec<u8>| s@) =~= seeds_of(args@));
    match find_program_address(&seeds, program) {
        Some(found) => Ok(found),
        None => Err(PdaError::NoAddress),
    }
}

/// A cluster with a known core bridge.
#[derive(Clone, Copy, Debug, PartialEq, Eq, Structural)]
pub enum Cluster {
    Mainnet,
    Devnet,
}

/// The UTF-8 bytes of the lowercase form of a string.
pub uninterp spec fn lowercase_utf8(s: Seq<char>) -> Seq<u8>;

/// Relies on str::to_lowercase, whose result depends on the characters
/// alone, and on String::into_bytes, its UTF-8 encoding.
#[verifier::external_body]
fn lowercase_bytes(s: &str) -> (r: Vec<u8>)
    ensures
        r@ == lowercase_utf8(s@),
{
    s.to_lowercase().into_bytes()
}

/// Whether `needle` occurs in `hay`.
pub open spec fn occurs_in(hay: Seq<u8>, needle: Seq<u8>) -> bool {
    exists|i: int| 0 <= i && i + needle.len() <= hay.len() && #[trigger] hay.subrange(i, i + needle.len()) == needle
}

fn occurs(hay: &Vec<u8>, needle: &[u8]) -> (r: bool)
    ensures
        r == occurs_in(hay@, needle@),
{
    let n = needle.len();
    if n > hay.len() {
        assert forall|i: int| 0 <= i && i + n <= hay@.len() implies #[trigger] hay@.subrange(i, i + n) != needle@ by {}
        return false;
    }
    if n == 0 {
        assert(hay@.subrange(0, 0 + needle@.len() as int) =~= needle@);
        return true;
    }
    let len = hay.len();
    let mut i: usize = 0;
    while i <= len - n
        invariant
            n == needle@.len(),
            n > 0,
            n <= len,
            len == hay@.len(),
            forall|k: int| 0 <= k < i ==> #[trigger] hay@.subrange(k, k + n) != needle@,
        decreases len - i,
    {
        let mut same = true;
        for j in 0..n
            invariant
                n == needle@.len(),
                len == hay@.len(),
                i + n <= len,
                same <==> forall|m: int| 0 <= m < j ==> hay@[i + m] == needle@[m],
        {
            if hay[i + j] != needle[j] {
                same = false;
            }
        }
        if same {
            assert(hay@.subrange(i as int, i + n) =~= needle@);
            return true;
        }
        assert(hay@.subrange(i as int, i + n) != needle@) by {
            let m = choose|m: int| 0 <= m < n && hay@[i + m] != needle@[m];
            assert(hay@.subrange(i as int, i + n)[m] != needle@[m]);
        }
        i = i + 1;
    }
    false
}

/// The cluster an RPC URL names: mainnet if its lowercase form mentions
/// "mainnet", else devnet if it mentions "devnet", else none.
pub fn cluster_of_rpc_url(url: &str) -> (r: Option<Cluster>)
    ensures
        r == (if occurs_in(lowercase_utf8(url@), seq![0x6du8, 0x61, 0x69, 0x6e, 0x6e, 0x65, 0x74]) {
            Some(Cluster::Mainnet)
        } else if occurs_in(lowercase_utf8(url@), seq![0x64u8, 0x65, 0x76, 0x6e, 0x65, 0x74]) {
            Some(Cluster::Devnet)
        } else {
            None
        }),
{
    let lower = lowercase_bytes(url);
    let mainnet: [u8; 7] = [0x6d, 0x61, 0x69, 0x6e, 0x6e, 0x65, 0x74];
    let devnet: [u8; 6] = [0x64, 0x65, 0x76, 0x6e, 0x65, 0x74];
    assert(mainnet@ =~= seq![0x6du8, 0x61, 0x69, 0x6e, 0x6e, 0x65, 0x74]);
    assert(devnet@ =~= seq![0x64u8, 0x65, 0x76, 0x6e, 0x65, 0x74]);
    if occurs(&lower, mainnet.as_slice()) {
        Some(Cluster::Mainnet)
    } else if occurs(&lower, devnet.as_slice()) {
        Some(Cluster::Devnet)
    } else {
        None
    }
}

} // verus!
