use vstd::prelude::*;
use crate::accounts::{CreateRedeemableToken, IncreaseTokenSupply};
use crate::address::Address;
use crate::catalog::NFTConfigView;
use crate::error::ErrorCode;
use crate::events::{CreateRedeemableTokenEvent, IncreaseTokenSupplyEvent};
use crate::ledger::MintTo;

verus! {

/// Why no credit is minted, if none is. The caller is looked at first, then
/// the amount, which may not be zero.
pub open spec fn supply_refusal(config: NFTConfigView, caller: Seq<u8>, amount: u64) -> Option<
    ErrorCode,
> {
    if !config.owned_by(caller) {
        Some(ErrorCode::UnauthorizedAccess)
    } else if amount == 0 {
        Some(ErrorCode::InvalidAmount)
    } else {
        None
    }
}

/// The instruction that mints `amount` units of credit into the holding
/// account, on the word of the owner.
pub open spec fn supply_mint(
    redeemable_mint: Address,
    holding_account: Address,
    authority: Address,
    amount: u64,
) -> MintTo {
    MintTo { mint: redeemable_mint, to: holding_account, authority, amount }
}

/// Mints the first `amount` units of credit into the holding account. The
/// catalog is only read.
pub fn create_redeemable_token(ctx: &CreateRedeemableToken, amount: u64) -> (r: Result<
    (MintTo, CreateRedeemableTokenEvent),
    ErrorCode,
>)
    ensures
        supply_refusal(ctx.nft_config@, ctx.authority@, amount) matches Some(e) ==> r == Err::<
            (MintTo, CreateRedeemableTokenEvent),
            ErrorCode,
        >(e),
        supply_refusal(ctx.nft_config@, ctx.authority@, amount) is None ==> r == Ok::<
            (MintTo, CreateRedeemableTokenEvent),
            ErrorCode,
        >(
            (
                supply_mint(
                    ctx.redeemable_mint,
                    ctx.redeemable_token_account,
                    ctx.authority,
                    amount,
                ),
                (CreateRedeemableTokenEvent {
                    mint: ctx.redeemable_mint,
                    amount,
                    authority: ctx.authority,
                }),
            ),
        ),
{
    if ctx.nft_config.require_authority(&ctx.authority).is_err() {
        return Err(ErrorCode::UnauthorizedAccess);
    }
    if amount == 0 {
        return Err(ErrorCode::InvalidAmount);
    }
    let mint_to = MintTo {
        mint: ctx.redeemable_mint,
        to: ctx.redeemable_token_account,
        authority: ctx.authority,
        amount,
    };
    let event = CreateRedeemableTokenEvent {
        mint: ctx.redeemable_mint,
        amount,
        authority: ctx.authority,
    };
    Ok((mint_to, event))
}

/// Mints `amount` further units of credit into the holding account. The
/// catalog is only read.
pub fn increase_token_supply(ctx: &IncreaseTokenSupply, amount: u64) -> (r: Result<
    (MintTo, IncreaseTokenSupplyEvent),
    ErrorCode,
>)
    ensures
        supply_refusal(ctx.nft_config@, ctx.authority@, amount) matches Some(e) ==> r == Err::<
            (MintTo, IncreaseTokenSupplyEvent),
            ErrorCode,
        >(e),
        supply_refusal(ctx.nft_config@, ctx.authority@, amount) is None ==> r == Ok::<
            (MintTo, IncreaseTokenSupplyEvent),
            ErrorCode,
        >(
            (
                supply_mint(
                    ctx.redeemable_mint,
                    ctx.redeemable_token_account,
                    ctx.authority,
                    amount,
                ),
                (IncreaseTokenSupplyEvent {
                    mint: ctx.redeemable_mint,
                    amount,
                    authority: ctx.authority,
                }),
            ),
        ),
{
    if ctx.nft_config.require_authority(&ctx.authority).is_err() {
        return Err(ErrorCode::UnauthorizedAccess);
    }
    if amount == 0 {
        return Err(ErrorCode::InvalidAmount);
    }
    let mint_to = MintTo {
        mint: ctx.redeemable_mint,
        to: ctx.redeemable_token_account,
        authority: ctx.authority,
        amount,
    };
    let event = IncreaseTokenSupplyEvent {
        mint: ctx.redeemable_mint,
        amount,
        authority: ctx.authority,
    };
    Ok((mint_to, event))
}

} // verus!
