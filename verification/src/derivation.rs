//! Deterministic derivation of addresses from seeds.
//!
//! A derived address is computed from a list of seed byte strings and the
//! address of the program that owns it. Nobody holds a private key for such
//! an address, so presenting the seeds again is the only way to act in its
//! name. Not every seed list yields an address; a one-byte bump is appended
//! and lowered from 255 until one does.
use crate::address::Address;
use anchor_lang::prelude::Pubkey;
use anchor_lang::solana_program::pubkey::PubkeyError;
use vstd::prelude::*;

verus! {

/// The most seeds a derivation takes, the bump included.
pub const MAX_SEEDS: usize = 16;

/// The most bytes one seed may hold.
pub const MAX_SEED_LEN: usize = 32;

/// Why a seed list yields no address.
#[derive(Clone, Copy, Debug, PartialEq, Eq, Structural)]
pub enum SeedError {
    /// There are too many seeds, or one of them is too long.
    MaxSeedLengthExceeded,
    /// The seeds hash to a point of the curve, which has a private key.
    InvalidSeeds,
    /// The owning program may not own derived addresses.
    IllegalOwner,
}

/// The address that `Pubkey::create_program_address` computes from `seeds`
/// for `program`, or `None` where the hash of the seeds lies on the curve.
/// It is a hash of its arguments and of nothing else.
pub uninterp spec fn derived_address(seeds: Seq<Seq<u8>>, program: Seq<u8>) -> Option<Seq<u8>>;

/// There are at most `MAX_SEEDS` seeds, of at most `MAX_SEED_LEN` bytes each.
pub open spec fn seeds_fit(seeds: Seq<Seq<u8>>) -> bool {
    &&& seeds.len() <= MAX_SEEDS
    &&& forall|i: int| 0 <= i < seeds.len() ==> (#[trigger] seeds[i]).len() <= MAX_SEED_LEN
}

/// The seed list with the bump appended as a last seed of one byte.
pub open spec fn with_bump(seeds: Seq<Seq<u8>>, bump: u8) -> Seq<Seq<u8>> {
    seeds.push(seq![bump])
}

/// The address that the seeds yield: none where they do not fit or hash onto
/// the curve.
pub open spec fn address_of(seeds: Seq<Seq<u8>>, program: Seq<u8>) -> Option<Seq<u8>> {
    if seeds_fit(seeds) {
        derived_address(seeds, program)
    } else {
        None
    }
}

/// `bump` is the largest bump from 255 down to 1 with which the seeds yield
/// an address, and `address` is what they yield with it.
pub open spec fn is_found(seeds: Seq<Seq<u8>>, program: Seq<u8>, address: Seq<u8>, bump: u8) -> bool {
    &&& 1 <= bump
    &&& address_of(with_bump(seeds, bump), program) == Some(address)
    &&& forall|b: u8| bump < b ==> (#[trigger] address_of(with_bump(seeds, b), program)) is None
}

/// No bump from 255 down to 1 makes the seeds yield an address.
pub open spec fn none_found(seeds: Seq<Seq<u8>>, program: Seq<u8>) -> bool {
    forall|b: u8| 1 <= b ==> (#[trigger] address_of(with_bump(seeds, b), program)) is None
}

/// Calls `Pubkey::create_program_address`. Too many seeds, or a seed that is
/// too long, give `MaxSeedLengthExceeded`; seeds that hash onto the curve
/// give `InvalidSeeds`; all others give the address that the hash names.
#[verifier::external_body]
fn create_program_address(seeds: &Vec<Vec<u8>>, program_id: &Address) -> (r: Result<Address, SeedError>)
    ensures
        match r {
            Ok(k) => seeds_fit(seeds.deep_view()) && derived_address(seeds.deep_view(), program_id@)
                == Some(k@),
            Err(e) => if seeds_fit(seeds.deep_view()) {
                derived_address(seeds.deep_view(), program_id@) is None && e == SeedError::InvalidSeeds
            } else {
                e == SeedError::MaxSeedLengthExceeded
            },
        },
{
    let parts: Vec<&[u8]> = seeds.iter().map(|s| s.as_slice()).collect();
    match Pubkey::create_program_address(&parts, &Pubkey::new_from_array(program_id.bytes)) {
        Ok(key) => Ok(Address { bytes: key.to_bytes() }),
        Err(PubkeyError::MaxSeedLengthExceeded) => Err(SeedError::MaxSeedLengthExceeded),
        Err(PubkeyError::InvalidSeeds) => Err(SeedError::InvalidSeeds),
        Err(PubkeyError::IllegalOwner) => Err(SeedError::IllegalOwner),
    }
}

/// Calls `Pubkey::try_find_program_address`, which appends a bump to the
/// seeds, starting at 255 and lowering it down to 1, and returns the first
/// address that `Pubkey::create_program_address` yields, with its bump. It
/// returns nothing where no bump yields one, or where the seeds with a bump
/// do not fit.
#[verifier::external_body]
fn try_find_program_address(seeds: &Vec<Vec<u8>>, program_id: &Address) -> (r: Option<(Address, u8)>)
    ensures
        match r {
            Some((k, bump)) => is_found(seeds.deep_view(), program_id@, k@, bump),
            None => none_found(seeds.deep_view(), program_id@),
        },
{
    let parts: Vec<&[u8]> = seeds.iter().map(|s| s.as_slice()).collect();
    match Pubkey::try_find_program_address(&parts, &Pubkey::new_from_array(program_id.bytes)) {
        Some((key, bump)) => Some((Address { bytes: key.to_bytes() }, bump)),
        None => None,
    }
}

/// The address and bump that a search from 255 down finds for the seeds, if
/// any.
pub open spec fn found_address(seeds: Seq<Seq<u8>>, program: Seq<u8>) -> Option<(Address, u8)> {
    if exists|k: Address, bump: u8| is_found(seeds, program, k@, bump) {
        Some(choose|p: (Address, u8)| is_found(seeds, program, p.0@, p.1))
    } else {
        None
    }
}

/// A search finds at most one address and bump.
proof fn lemma_found_unique(seeds: Seq<Seq<u8>>, program: Seq<u8>, k: Address, bump: u8)
    requires
        is_found(seeds, program, k@, bump),
    ensures
        found_address(seeds, program) == Some((k, bump)),
        !none_found(seeds, program),
{
    let p = choose|p: (Address, u8)| is_found(seeds, program, p.0@, p.1);
    assert(is_found(seeds, program, (k, bump).0@, (k, bump).1));
    assert(is_found(seeds, program, p.0@, p.1));
    if p.1 < bump {
        assert(address_of(with_bump(seeds, bump), program) is None);
    }
    if bump < p.1 {
        assert(address_of(with_bump(seeds, p.1), program) is None);
    }
    Address::lemma_view_injective(p.0, k);
}

/// Where no bump works, a search finds nothing.
proof fn lemma_none_found(seeds: Seq<Seq<u8>>, program: Seq<u8>)
    requires
        none_found(seeds, program),
    ensures
        found_address(seeds, program) is None,
{
    if exists|k: Address, bump: u8| is_found(seeds, program, k@, bump) {
        let (k, bump) = choose|k: Address, bump: u8| is_found(seeds, program, k@, bump);
        assert(address_of(with_bump(seeds, bump), program) is None);
    }
}

/// Searches the bump, from 255 down to 1, with which the seeds yield an
/// address for the program, and returns both; `None` where the search is
/// exhausted.
pub fn find_program_address(seeds: &Vec<Vec<u8>>, program_id: &Address) -> (r: Option<(Address, u8)>)
    ensures
        r == found_address(seeds.deep_view(), program_id@),
{
    let r = try_find_program_address(seeds, program_id);
    proof {
        match r {
            Some((k, bump)) => lemma_found_unique(seeds.deep_view(), program_id@, k, bump),
            None => lemma_none_found(seeds.deep_view(), program_id@),
        }
    }
    r
}

/// What deriving an address from the seeds, bump included, gives for the
/// program, without a search: the address, or the reason why there is none.
pub open spec fn rederived_address(seeds: Seq<Seq<u8>>, program: Seq<u8>) -> Result<Address, SeedError> {
    if !seeds_fit(seeds) {
        Err(SeedError::MaxSeedLengthExceeded)
    } else {
        match derived_address(seeds, program) {
            Some(a) => Ok(Address::with_view(a)),
            None => Err(SeedError::InvalidSeeds),
        }
    }
}

/// Derives the address that the seeds, bump included, yield for the
/// program, without a search.
pub fn rederive_program_address(seeds: &Vec<Vec<u8>>, program_id: &Address) -> (r: Result<Address, SeedError>)
    ensures
        r == rederived_address(seeds.deep_view(), program_id@),
{
    let r = create_program_address(seeds, program_id);
    proof {
        if let Ok(k) = r {
            Address::lemma_with_view(k);
        }
    }
    r
}

/// The bump that a search found yields the address again without a search:
/// seeds and bump name the address for good.
pub proof fn lemma_found_rederives(seeds: Seq<Seq<u8>>, program: Seq<u8>)
    requires
        found_address(seeds, program) is Some,
    ensures
        ({
            let (address, bump) = found_address(seeds, program)->Some_0;
            rederived_address(with_bump(seeds, bump), program) == Ok::<Address, SeedError>(address)
        }),
{
    let p = choose|p: (Address, u8)| is_found(seeds, program, p.0@, p.1);
    let (k, bump) = choose|k: Address, bump: u8| is_found(seeds, program, k@, bump);
    assert(is_found(seeds, program, (k, bump).0@, (k, bump).1));
    Address::lemma_with_view(p.0);
}

} // verus!
