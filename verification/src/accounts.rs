use vstd::prelude::*;
use crate::address::Address;
use crate::catalog::NFTConfig;

verus! {

/// What an operation reads of a token account: the units it holds.
#[derive(Clone, Copy, Debug, PartialEq, Eq)]
pub struct TokenAccount {
    pub amount: u64,
}

/// The accounts of `initialize`.
#[derive(Clone, Debug, PartialEq, Eq)]
pub struct Initialize {
    /// The caller, who becomes the owner of the catalog.
    pub authority: Address,
    /// The catalog that is created.
    pub nft_config: NFTConfig,
}

/// The accounts of `add_nft_type`.
#[derive(Clone, Debug, PartialEq, Eq)]
pub struct AddNFTType {
    /// The caller.
    pub authority: Address,
    pub nft_config: NFTConfig,
}

/// The accounts of `set_reward_amount`.
#[derive(Clone, Debug, PartialEq, Eq)]
pub struct SetRewardAmount {
    /// The caller.
    pub authority: Address,
    pub nft_config: NFTConfig,
}

/// The accounts of `edit_reward_amount`.
#[derive(Clone, Debug, PartialEq, Eq)]
pub struct EditRewardAmount {
    /// The caller.
    pub authority: Address,
    pub nft_config: NFTConfig,
}

/// The accounts of `increase_max_nft_types`.
#[derive(Clone, Debug, PartialEq, Eq)]
pub struct IncreaseMaxNFTTypes {
    /// The caller.
    pub authority: Address,
    pub nft_config: NFTConfig,
}

/// The accounts of `increase_token_supply`.
#[derive(Clone, Debug, PartialEq, Eq)]
pub struct IncreaseTokenSupply {
    /// The caller.
    pub authority: Address,
    /// The asset that credit is counted in.
    pub redeemable_mint: Address,
    /// The holding account, out of which rewards are paid.
    pub redeemable_token_account: Address,
    pub nft_config: NFTConfig,
}

/// The accounts of `create_redeemable_token`.
#[derive(Clone, Debug, PartialEq, Eq)]
pub struct CreateRedeemableToken {
    /// The caller.
    pub authority: Address,
    /// The asset that credit is counted in.
    pub redeemable_mint: Address,
    /// The holding account, out of which rewards are paid.
    pub redeemable_token_account: Address,
    pub nft_config: NFTConfig,
}

/// The accounts of `mint_nft`.
#[derive(Clone, Debug, PartialEq, Eq)]
pub struct MintNFT {
    /// The caller, who pays for the new accounts and receives the items.
    pub minter: Address,
    /// The asset of the items that are issued.
    pub mint: Address,
    /// The caller's account for that asset.
    pub token_account: Address,
    /// The account that will hold the descriptor of the items.
    pub metadata: Address,
    /// The account that will hold the limit on their supply.
    pub master_edition: Address,
    pub nft_config: NFTConfig,
}

/// The accounts of `redeem_and_burn_nft`.
#[derive(Clone, Debug, PartialEq, Eq)]
pub struct RedeemAndBurnNFT {
    /// The caller, who holds the items.
    pub user: Address,
    /// The asset of the items that are presented.
    pub nft_mint: Address,
    /// The caller's account for that asset.
    pub nft_token_account: Address,
    /// The asset that credit is counted in.
    pub redeemable_mint: Address,
    /// The holding account, out of which rewards are paid.
    pub redeemable_token_account: Address,
    /// The caller's account for credit.
    pub user_redeemable_token_account: Address,
    /// The principal who answers for the holding account.
    pub authority: Address,
    /// The data of the account that holds the descriptor of the items.
    pub metadata: Vec<u8>,
    pub nft_config: NFTConfig,
}

/// The accounts of `get_user_info`.
#[derive(Clone, Copy, Debug, PartialEq, Eq)]
pub struct GetUserInfo {
    /// The holder.
    pub user: Address,
    /// The asset of the items.
    pub nft_mint: Address,
    /// The holder's account for that asset.
    pub nft_token_account: TokenAccount,
    /// The asset that credit is counted in.
    pub redeemable_mint: Address,
    /// The holder's account for credit.
    pub user_redeemable_token_account: TokenAccount,
}

/// The balances of one holder.
#[derive(Clone, Copy, Debug, PartialEq, Eq)]
pub struct UserInfo {
    pub nft_mint: Address,
    pub nft_balance: u64,
    pub redeemable_balance: u64,
}

} // verus!
