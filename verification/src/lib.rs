//! A catalog of redeemable item types and the rules around it.
//!
//! The owner of a catalog adds item types to it, within the room that the
//! catalog has, and gives each a reward rate. Anyone may issue items of an
//! item type, and redeem them for credit at the rate of their type. Every
//! operation here decides and computes; it leaves the minting, burning and
//! moving of assets to its caller, to whom it hands the instructions for the
//! ledger and the record to publish.

pub mod accounts;
pub mod address;
pub mod catalog;
pub mod error;
pub mod events;
pub mod holder;
pub mod issuance;
pub mod laws;
pub mod ledger;
pub mod redemption;
pub mod registrar;
pub mod supply;

pub use accounts::{
    AddNFTType, CreateRedeemableToken, EditRewardAmount, GetUserInfo, IncreaseMaxNFTTypes,
    IncreaseTokenSupply, Initialize, MintNFT, RedeemAndBurnNFT, SetRewardAmount, TokenAccount,
    UserInfo,
};
pub use address::Address;
pub use catalog::{
    NFTConfig, NFTType, MAX_INITIAL_NFT_TYPES, MAX_NAME_LENGTH, MAX_SYMBOL_LENGTH, MAX_URI_LENGTH,
};
pub use error::ErrorCode;
pub use events::{
    AddNFTTypeEvent, CreateRedeemableTokenEvent, EditRewardAmountEvent, IncreaseMaxNFTTypesEvent,
    IncreaseTokenSupplyEvent, InitializeEvent, MintNFTEvent, RedeemAndBurnNFTEvent,
    SetRewardAmountEvent, UserInfoFetched,
};
pub use holder::get_user_info;
pub use issuance::{mint_nft, Issuance};
pub use ledger::{Burn, CreateMasterEdition, CreateMetadata, Creator, MintTo, Transfer};
pub use redemption::{
    compute_reward, find_nft_type, redeem, redeem_and_burn_nft, redeem_descriptor,
    settlement_result, strip_padding, Descriptor, Redemption,
};
pub use registrar::{
    add_nft_type, edit_reward_amount, increase_max_nft_types, initialize, set_reward_amount,
};
pub use supply::{create_redeemable_token, increase_token_supply};
