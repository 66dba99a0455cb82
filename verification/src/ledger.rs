use vstd::prelude::*;
use crate::address::Address;

verus! {

/// Instruction to the asset ledger: mint `amount` units of the asset `mint`
/// into the account `to`, on the word of `authority`.
#[derive(Clone, Copy, Debug, PartialEq, Eq)]
pub struct MintTo {
    pub mint: Address,
    pub to: Address,
    pub authority: Address,
    pub amount: u64,
}

/// Instruction to the asset ledger: burn `amount` units of the asset `mint`
/// out of the account `from`, on the word of `authority`.
#[derive(Clone, Copy, Debug, PartialEq, Eq)]
pub struct Burn {
    pub mint: Address,
    pub from: Address,
    pub authority: Address,
    pub amount: u64,
}

/// Instruction to the asset ledger: move `amount` units out of the account
/// `from` into the account `to`, on the word of `authority`.
#[derive(Clone, Copy, Debug, PartialEq, Eq)]
pub struct Transfer {
    pub from: Address,
    pub to: Address,
    pub authority: Address,
    pub amount: u64,
}

/// One who made the items of an asset, and the share of a royalty, in
/// percent, that goes to them.
#[derive(Clone, Copy, Debug, PartialEq, Eq)]
pub struct Creator {
    pub address: Address,
    pub verified: bool,
    pub share: u8,
}

/// Instruction to the store of descriptors: create, in the account
/// `metadata`, the descriptor of the items of the asset `mint`.
#[derive(Clone, Debug, PartialEq, Eq)]
pub struct CreateMetadata {
    pub metadata: Address,
    pub mint: Address,
    pub mint_authority: Address,
    pub payer: Address,
    pub update_authority: Address,
    pub name: String,
    pub symbol: String,
    pub uri: String,
    /// Royalty on a resale, in hundredths of a percent.
    pub seller_fee_basis_points: u16,
    pub creators: Option<Vec<Creator>>,
    pub collection: Option<Address>,
    pub is_mutable: bool,
    pub update_authority_is_signer: bool,
}

/// Instruction to the store of descriptors: fix the supply of the asset
/// `mint` at `max_supply`, after which no more of it can be issued.
#[derive(Clone, Copy, Debug, PartialEq, Eq)]
pub struct CreateMasterEdition {
    pub edition: Address,
    pub mint: Address,
    pub update_authority: Address,
    pub mint_authority: Address,
    pub payer: Address,
    pub metadata: Address,
    pub max_supply: Option<u64>,
}

} // verus!
