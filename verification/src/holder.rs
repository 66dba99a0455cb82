use vstd::prelude::*;
use crate::accounts::{GetUserInfo, UserInfo};
use crate::error::ErrorCode;
use crate::events::UserInfoFetched;

verus! {

/// Reports what a holder has: the items of one asset, and the credit. Never
/// refuses, and changes nothing.
pub fn get_user_info(ctx: &GetUserInfo) -> (r: Result<(UserInfo, UserInfoFetched), ErrorCode>)
    ensures
        r == Ok::<(UserInfo, UserInfoFetched), ErrorCode>(
            (
                (UserInfo {
                    nft_mint: ctx.nft_mint,
                    nft_balance: ctx.nft_token_account.amount,
                    redeemable_balance: ctx.user_redeemable_token_account.amount,
                }),
                (UserInfoFetched {
                    user: ctx.user,
                    nft_mint: ctx.nft_mint,
                    nft_balance: ctx.nft_token_account.amount,
                    redeemable_balance: ctx.user_redeemable_token_account.amount,
                }),
            ),
        ),
{
    let nft_balance: u64 = ctx.nft_token_account.amount;
    let redeemable_balance: u64 = ctx.user_redeemable_token_account.amount;
    let user_info = UserInfo { nft_mint: ctx.nft_mint, nft_balance, redeemable_balance };
    let event = UserInfoFetched {
        user: ctx.user,
        nft_mint: ctx.nft_mint,
        nft_balance,
        redeemable_balance,
    };
    Ok((user_info, event))
}

} // verus!
