//! The escrow record: the persisted description of one pending swap offer.
use crate::address::Address;
use vstd::prelude::*;

verus! {

/// One pending swap offer. It is written once, when the escrow is opened,
/// and never changed; it is destroyed when the offer is taken or refunded.
#[derive(Clone, Copy, Debug, PartialEq, Eq)]
pub struct Escrow {
    /// The number, chosen by the maker, that tells this offer from the
    /// maker's other offers.
    pub seed: u64,
    /// Who opened the offer. Nobody else may have it refunded.
    pub maker: Address,
    /// The asset type that the maker has deposited.
    pub maker_mint: Address,
    /// The asset type that the maker asks for.
    pub taker_mint: Address,
    /// How much of `maker_mint` the maker has deposited.
    pub deposit: u64,
    /// How much of `taker_mint` the maker asks for.
    pub receive: u64,
    /// The bump with which the record's address was derived.
    pub bump: u8,
}

impl Escrow {
    /// The bytes that a stored record takes: a tag of 8 bytes, then the
    /// fields in order.
    pub const LEN: usize = 8 + 8 + 32 + 32 + 32 + 8 + 8 + 1;
}

} // verus!
