use vstd::prelude::*;
use crate::address::Address;

verus! {

/// Record of a catalog that was created.
#[derive(Clone, Copy, Debug, PartialEq, Eq)]
pub struct InitializeEvent {
    pub authority: Address,
    pub max_nft_types: u8,
}

/// Record of an item type that was added.
#[derive(Clone, Debug, PartialEq, Eq)]
pub struct AddNFTTypeEvent {
    pub name: String,
    pub symbol: String,
    pub uri: String,
}

/// Record of a reward rate that was set.
#[derive(Clone, Copy, Debug, PartialEq, Eq)]
pub struct SetRewardAmountEvent {
    pub nft_type_index: u8,
    pub reward_amount: u64,
}

/// Record of items that were issued.
#[derive(Clone, Copy, Debug, PartialEq, Eq)]
pub struct MintNFTEvent {
    pub mint: Address,
    pub owner: Address,
    pub nft_type_index: u8,
    pub amount: u64,
}

/// Record of the first credit that was minted into the holding account.
#[derive(Clone, Copy, Debug, PartialEq, Eq)]
pub struct CreateRedeemableTokenEvent {
    pub mint: Address,
    pub amount: u64,
    pub authority: Address,
}

/// Record of items that were redeemed.
#[derive(Clone, Copy, Debug, PartialEq, Eq)]
pub struct RedeemAndBurnNFTEvent {
    pub user: Address,
    pub nft_mint: Address,
    pub amount_burned: u64,
    pub reward_amount: u64,
}

/// Record of further credit that was minted into the holding account.
#[derive(Clone, Copy, Debug, PartialEq, Eq)]
pub struct IncreaseTokenSupplyEvent {
    pub mint: Address,
    pub amount: u64,
    pub authority: Address,
}

/// Record of a catalog that was given more room.
#[derive(Clone, Copy, Debug, PartialEq, Eq)]
pub struct IncreaseMaxNFTTypesEvent {
    pub authority: Address,
    /// The room before the change.
    pub old_max: u8,
    /// The room after the change.
    pub new_max: u8,
}

/// Record of a reward rate that was changed.
#[derive(Clone, Copy, Debug, PartialEq, Eq)]
pub struct EditRewardAmountEvent {
    pub nft_type_index: u8,
    /// The rate before the change; zero where none was set.
    pub old_reward_amount: u64,
    pub new_reward_amount: u64,
}

/// Record of a holder's balances that were read.
#[derive(Clone, Copy, Debug, PartialEq, Eq)]
pub struct UserInfoFetched {
    pub user: Address,
    pub nft_mint: Address,
    pub nft_balance: u64,
    pub redeemable_balance: u64,
}

} // verus!
