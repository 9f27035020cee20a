//! The escrow record's custody authority: an address derived from public data
//! ({"escrow", maker, seed, bump} under the program's id) with no private key.

use vstd::prelude::*;
use anchor_lang::prelude::Pubkey;
use crate::keys::{keys_equal, le_bytes, u64_le_bytes};

verus! {

/// Greatest number of seeds that a program address takes.
pub const MAX_SEEDS: usize = 16;

/// Greatest length of one seed.
pub const MAX_SEED_LEN: usize = 32;

/// The program address that `seeds` give under the program `program`, or
/// `None` where the seeds give no valid address.
pub uninterp spec fn program_address(seeds: Seq<Seq<u8>>, program: Seq<u8>) -> Option<Seq<u8>>;

/// The byte strings that a list of seeds holds.
pub open spec fn seeds_view(seeds: Seq<Vec<u8>>) -> Seq<Seq<u8>> {
    seeds.map_values(|s: Vec<u8>| s@)
}

/// Whether the seeds are within the limits that a program address admits.
pub open spec fn seeds_within_limits(seeds: Seq<Seq<u8>>) -> bool {
    seeds.len() <= MAX_SEEDS && forall|i: int| 0 <= i < seeds.len() ==> seeds[i].len() <= MAX_SEED_LEN
}

/// Relies on `Pubkey::create_program_address` of solana-pubkey: the address
/// depends on the seeds and the program id alone, and seeds beyond the limits
/// give an error.
#[verifier::external_body]
fn create_program_address(seeds: &Vec<Vec<u8>>, program_id: &[u8; 32]) -> (r: Option<[u8; 32]>)
    ensures
        match r {
            Some(a) => program_address(seeds_view(seeds@), program_id@) == Some(a@),
            None => program_address(seeds_view(seeds@), program_id@) is None,
        },
        !seeds_within_limits(seeds_view(seeds@)) ==> r is None,
{
    let slices: Vec<&[u8]> = seeds.iter().map(|s| s.as_slice()).collect();
    match Pubkey::create_program_address(&slices, &Pubkey::new_from_array(*program_id)) {
        Ok(k) => Some(k.to_bytes()),
        Err(_) => None,
    }
}

/// The tag that opens the seeds of every escrow record.
pub open spec fn escrow_tag() -> Seq<u8> {
    seq![101u8, 115u8, 99u8, 114u8, 111u8, 119u8]
}

/// The seeds of the escrow record of `maker` made with `seed`, completed by `bump`.
pub open spec fn escrow_seeds(maker: Seq<u8>, seed: u64, bump: u8) -> Seq<Seq<u8>> {
    seq![escrow_tag(), maker, le_bytes(seed as nat, 8), seq![bump]]
}

/// Whether the stored parameters reproduce `address` under `program`.
pub open spec fn derives(maker: Seq<u8>, seed: u64, bump: u8, program: Seq<u8>, address: Seq<u8>) -> bool {
    program_address(escrow_seeds(maker, seed, bump), program) == Some(address)
}

/// The signer seeds of the escrow record's authority.
pub fn escrow_signer_seeds(maker: &[u8; 32], seed: u64, bump: u8) -> (r: Vec<Vec<u8>>)
    ensures
        seeds_view(r@) == escrow_seeds(maker@, seed, bump),
{
    let tag: Vec<u8> = vec![101u8, 115u8, 99u8, 114u8, 111u8, 119u8];
    let mut m: Vec<u8> = Vec::new();
    let mut i: usize = 0;
    while i < 32
        invariant
            i <= 32,
            maker@.len() == 32,
            m@ == maker@.subrange(0, i as int),
        decreases 32 - i,
    {
        m.push(maker[i]);
        assert(m@ =~= maker@.subrange(0, i + 1));
        i = i + 1;
    }
    assert(m@ =~= maker@);
    let le: Vec<u8> = u64_le_bytes(seed);
    let b: Vec<u8> = vec![bump];
    assert(tag@ =~= escrow_tag());
    assert(b@ =~= seq![bump]);
    let ghost parts = seq![tag@, m@, le@, b@];
    let mut r: Vec<Vec<u8>> = Vec::new();
    r.push(tag);
    r.push(m);
    r.push(le);
    r.push(b);
    assert(seeds_view(r@) =~= parts);
    r
}

/// Whether an address derived from the stored parameters is the expected one:
/// a derivation that failed matches nothing.
pub fn authority_matches(derived: Option<[u8; 32]>, expected: &[u8; 32]) -> (r: bool)
    ensures
        r == (derived is Some && derived.unwrap()@ == expected@),
{
    match derived {
        Some(a) => keys_equal(&a, expected),
        None => false,
    }
}

/// Whether the escrow record's stored `maker`, `seed` and `bump` reproduce its
/// address under the program's id.
pub fn verify_escrow_authority(
    maker: &[u8; 32],
    seed: u64,
    bump: u8,
    program_id: &[u8; 32],
    escrow_address: &[u8; 32],
) -> (r: bool)
    ensures
        r == derives(maker@, seed, bump, program_id@, escrow_address@),
{
    let seeds = escrow_signer_seeds(maker, seed, bump);
    let derived = create_program_address(&seeds, program_id);
    authority_matches(derived, escrow_address)
}

} // verus!
