use vstd::prelude::*;

verus! {

/// The length in bytes of an account address.
pub const PUBKEY_BYTES: usize = 32;

/// An account address: 32 bytes.
#[derive(Debug, Clone, Copy, PartialEq, Eq)]
pub struct Address {
    pub bytes: [u8; 32],
}

impl Address {
    pub fn new_from_array(bytes: [u8; 32]) -> (r: Address)
        ensures
            r.bytes@ == bytes@,
    {
        Address { bytes }
    }

    pub fn to_bytes(&self) -> (r: [u8; 32])
        ensures
            r@ == self.bytes@,
    {
        self.bytes
    }
}

/// Seeds as byte sequences.
pub open spec fn seeds_view(seeds: Seq<Vec<u8>>) -> Seq<Seq<u8>> {
    seeds.map_values(|s: Vec<u8>| s@)
}

/// The seeds followed by the one-byte disambiguation seed `bump`.
pub open spec fn with_bump(seeds: Seq<Seq<u8>>, bump: u8) -> Seq<Seq<u8>> {
    seeds.push(seq![bump])
}

/// The address derived from `seeds` for `program_id`, or `None` where the seeds
/// are too many or too long, or the derived point lies on the curve.
pub uninterp spec fn program_address(seeds: Seq<Seq<u8>>, program_id: Seq<u8>) -> Option<Seq<u8>>;

/// `bump` is the largest seed byte from 255 down to 1 that yields an address,
/// and `addr` is that address.
pub open spec fn is_canonical_bump(seeds: Seq<Seq<u8>>, program_id: Seq<u8>, bump: u8, addr: Seq<u8>) -> bool {
    &&& 1 <= bump
    &&& program_address(with_bump(seeds, bump), program_id) == Some(addr)
    &&& forall|c: u8| bump < c ==> (#[trigger] program_address(with_bump(seeds, c), program_id)) is None
}

/// No seed byte from 255 down to 1 yields an address.
pub open spec fn no_viable_bump(seeds: Seq<Seq<u8>>, program_id: Seq<u8>) -> bool {
    forall|c: u8| 1 <= c ==> (#[trigger] program_address(with_bump(seeds, c), program_id)) is None
}

/// Relies on `Pubkey::create_program_address`: the derived address depends on
/// the seeds and the program id alone, and derivation fails when more than 16
/// seeds, or a seed longer than 32 bytes, are given.
#[verifier::external_body]
pub(crate) fn create_program_address(seeds: &Vec<Vec<u8>>, program_id: &Address) -> (r: Option<Address>)
    ensures
        match r {
            Some(a) => program_address(seeds_view(seeds@), program_id.bytes@) == Some(a.bytes@),
            None => program_address(seeds_view(seeds@), program_id.bytes@) is None,
        },
        seeds@.len() > 16 || (exists|i: int| 0 <= i < seeds@.len() && seeds@[i]@.len() > 32)
            ==> r is None,
{
    let refs: Vec<&[u8]> = seeds.iter().map(|s| s.as_slice()).collect();
    let id = solana_program::pubkey::Pubkey::new_from_array(program_id.bytes);
    solana_program::pubkey::Pubkey::create_program_address(&refs, &id)
        .ok()
        .map(|k| Address { bytes: k.to_bytes() })
}

/// Relies on `Pubkey::try_find_program_address`: it tries the bump seeds 255
/// down to 1 after the given seeds, and returns the first that
/// `create_program_address` accepts, with its address.
#[verifier::external_body]
fn try_find_program_address(seeds: &Vec<Vec<u8>>, program_id: &Address) -> (r: Option<(Address, u8)>)
    ensures
        match r {
            Some((a, b)) => is_canonical_bump(seeds_view(seeds@), program_id.bytes@, b, a.bytes@),
            None => no_viable_bump(seeds_view(seeds@), program_id.bytes@),
        },
{
    let refs: Vec<&[u8]> = seeds.iter().map(|s| s.as_slice()).collect();
    let id = solana_program::pubkey::Pubkey::new_from_array(program_id.bytes);
    solana_program::pubkey::Pubkey::try_find_program_address(&refs, &id)
        .map(|(k, b)| (Address { bytes: k.to_bytes() }, b))
}

/// Compares two addresses byte by byte.
pub fn cmp_pubkeys(a: &Address, b: &Address) -> (r: bool)
    ensures
        r == (a.bytes@ == b.bytes@),
{
    let mut i: usize = 0;
    while i < PUBKEY_BYTES
        invariant
            0 <= i <= 32,
            forall|j: int| 0 <= j < i ==> a.bytes@[j] == b.bytes@[j],
        decreases 32 - i,
    {
        if a.bytes[i] != b.bytes[i] {
            return false;
        }
        i = i + 1;
    }
    assert(a.bytes@ =~= b.bytes@);
    true
}

/// The namespace prefix of record addresses: the bytes of "stamp".
pub open spec fn stamp_prefix() -> Seq<u8> {
    seq![115u8, 116u8, 97u8, 109u8, 112u8]
}

/// The seeds of the record address for `reference`, before the bump seed.
pub open spec fn stamp_seeds(reference: Seq<u8>) -> Seq<Seq<u8>> {
    seq![stamp_prefix(), reference]
}

pub fn prefix_bytes() -> (r: Vec<u8>)
    ensures
        r@ == stamp_prefix(),
{
    let r: Vec<u8> = vec![115u8, 116u8, 97u8, 109u8, 112u8];
    assert(r@ =~= stamp_prefix());
    r
}

/// The seeds of the record address for `reference`, optionally followed by
/// the bump seed.
pub fn record_seeds(reference: &Address, bump: Option<u8>) -> (r: Vec<Vec<u8>>)
    ensures
        match bump {
            Some(b) => seeds_view(r@) == with_bump(stamp_seeds(reference.bytes@), b),
            None => seeds_view(r@) == stamp_seeds(reference.bytes@),
        },
{
    let mut r: Vec<Vec<u8>> = Vec::new();
    r.push(prefix_bytes());
    let mut key: Vec<u8> = Vec::new();
    let mut i: usize = 0;
    while i < PUBKEY_BYTES
        invariant
            0 <= i <= 32,
            key@ == reference.bytes@.subrange(0, i as int),
        decreases 32 - i,
    {
        key.push(reference.bytes[i]);
        i = i + 1;
        assert(key@ =~= reference.bytes@.subrange(0, i as int));
    }
    assert(key@ =~= reference.bytes@);
    r.push(key);
    match bump {
        Some(b) => {
            let last: Vec<u8> = vec![b];
            assert(last@ =~= seq![b]);
            r.push(last);
            assert(seeds_view(r@) =~= with_bump(stamp_seeds(reference.bytes@), b));
        },
        None => {
            assert(seeds_view(r@) =~= stamp_seeds(reference.bytes@));
        },
    }
    r
}

/// Derives the record address for `reference` under `program_id`, with its
/// bump seed; `None` only where no bump seed yields an address.
pub fn find_stanp_program_address(program_id: &Address, reference: &Address) -> (r: Option<(Address, u8)>)
    ensures
        match r {
            Some((a, b)) => is_canonical_bump(stamp_seeds(reference.bytes@), program_id.bytes@, b, a.bytes@),
            None => no_viable_bump(stamp_seeds(reference.bytes@), program_id.bytes@),
        },
{
    let seeds = record_seeds(reference, None);
    try_find_program_address(&seeds, program_id)
}

/// Derivation is deterministic: two derivations from the same seeds and
/// program id that both succeed give the same address and the same bump seed.
pub proof fn lemma_derivation_deterministic(
    seeds: Seq<Seq<u8>>,
    program_id: Seq<u8>,
    b1: u8,
    a1: Seq<u8>,
    b2: u8,
    a2: Seq<u8>,
)
    requires
        is_canonical_bump(seeds, program_id, b1, a1),
        is_canonical_bump(seeds, program_id, b2, a2),
    ensures
        b1 == b2,
        a1 == a2,
{
    if b1 < b2 {
        assert(program_address(with_bump(seeds, b2), program_id) is None);
    }
    if b2 < b1 {
        assert(program_address(with_bump(seeds, b1), program_id) is None);
    }
}

} // verus!
