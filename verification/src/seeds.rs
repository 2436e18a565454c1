//! The seeds from which the addresses of an escrow are derived.
//!
//! The record lives at the address derived from the word "escrow", the
//! maker's address and the maker's number for the offer, as eight bytes with
//! the lowest first. The vault lives at the address derived from the word
//! "vault" and the record's address. The record's address is also the
//! authority over the vault: it is claimed by presenting the record's seeds
//! with the bump that the record stores.
use crate::address::Address;
use crate::derivation::with_bump;
use crate::state::Escrow;
use vstd::bytes::spec_u64_to_le_bytes;
use vstd::bytes::u64_to_le_bytes;
use vstd::prelude::*;

verus! {

/// The bytes of the word "escrow".
pub open spec fn spec_escrow_tag() -> Seq<u8> {
    seq![101u8, 115u8, 99u8, 114u8, 111u8, 119u8]
}

/// The bytes of the word "vault".
pub open spec fn spec_vault_tag() -> Seq<u8> {
    seq![118u8, 97u8, 117u8, 108u8, 116u8]
}

/// The seeds of the record that `maker` opens under the number `seed`.
pub open spec fn spec_escrow_seeds(maker: Address, seed: u64) -> Seq<Seq<u8>> {
    seq![spec_escrow_tag(), maker@, spec_u64_to_le_bytes(seed)]
}

/// The seeds of the vault that belongs to the record at `escrow`.
pub open spec fn spec_vault_seeds(escrow: Address) -> Seq<Seq<u8>> {
    seq![spec_vault_tag(), escrow@]
}

/// The seeds that claim the authority of the record: its seeds and its bump.
pub open spec fn spec_signer_seeds(record: Escrow) -> Seq<Seq<u8>> {
    with_bump(spec_escrow_seeds(record.maker, record.seed), record.bump)
}

fn escrow_tag() -> (tag: Vec<u8>)
    ensures
        tag@ == spec_escrow_tag(),
{
    let tag: Vec<u8> = vec![101u8, 115u8, 99u8, 114u8, 111u8, 119u8];
    assert(tag@ =~= spec_escrow_tag());
    tag
}

fn vault_tag() -> (tag: Vec<u8>)
    ensures
        tag@ == spec_vault_tag(),
{
    let tag: Vec<u8> = vec![118u8, 97u8, 117u8, 108u8, 116u8];
    assert(tag@ =~= spec_vault_tag());
    tag
}

fn address_bytes(address: &Address) -> (bytes: Vec<u8>)
    ensures
        bytes@ == address@,
{
    let mut bytes: Vec<u8> = Vec::new();
    let mut i: usize = 0;
    while i < 32
        invariant
            i <= 32,
            bytes@ == address@.subrange(0, i as int),
        decreases 32 - i,
    {
        bytes.push(address.bytes[i]);
        assert(bytes@ =~= address@.subrange(0, i + 1));
        i += 1;
    }
    assert(bytes@ =~= address@);
    bytes
}

/// The seeds of the record that `maker` opens under the number `seed`.
pub fn escrow_seeds(maker: &Address, seed: u64) -> (seeds: Vec<Vec<u8>>)
    ensures
        seeds.deep_view() == spec_escrow_seeds(*maker, seed),
{
    let mut seeds: Vec<Vec<u8>> = Vec::new();
    seeds.push(escrow_tag());
    seeds.push(address_bytes(maker));
    seeds.push(u64_to_le_bytes(seed));
    assert(seeds.deep_view() =~~= spec_escrow_seeds(*maker, seed));
    seeds
}

/// The seeds of the vault that belongs to the record at `escrow`.
pub fn vault_seeds(escrow: &Address) -> (seeds: Vec<Vec<u8>>)
    ensures
        seeds.deep_view() == spec_vault_seeds(*escrow),
{
    let mut seeds: Vec<Vec<u8>> = Vec::new();
    seeds.push(vault_tag());
    seeds.push(address_bytes(escrow));
    assert(seeds.deep_view() =~~= spec_vault_seeds(*escrow));
    seeds
}

/// The seeds that claim the authority of the record: its seeds and its bump.
pub fn signer_seeds(record: &Escrow) -> (seeds: Vec<Vec<u8>>)
    ensures
        seeds.deep_view() == spec_signer_seeds(*record),
{
    let mut seeds = escrow_seeds(&record.maker, record.seed);
    let mut last: Vec<u8> = Vec::new();
    last.push(record.bump);
    assert(last@ =~= seq![record.bump]);
    let ghost before = seeds.deep_view();
    seeds.push(last);
    assert(seeds.deep_view() =~~= before.push(seq![record.bump]));
    seeds
}

} // verus!
