use vstd::prelude::*;
use crate::accounts::MintNFT;
use crate::catalog::NFTConfigView;
use crate::error::ErrorCode;
use crate::events::MintNFTEvent;
use crate::ledger::{CreateMasterEdition, CreateMetadata, MintTo};

verus! {

/// What issuing items asks of the outside, in the order in which it is to be
/// done. Nothing here undoes a step: where the second or the third is
/// refused, the descriptor of the first is left without items, and no such
/// item can ever be redeemed.
#[derive(Clone, Debug, PartialEq, Eq)]
pub struct Issuance {
    /// First: the descriptor of the new items.
    pub descriptor: CreateMetadata,
    /// Second: the limit on their supply.
    pub edition: CreateMasterEdition,
    /// Third: the items themselves.
    pub mint: MintTo,
    /// The record to publish once all three are done.
    pub event: MintNFTEvent,
}

/// Why no items of the item type at `nft_type_index` are issued, if none
/// are. The index is looked at first, then the amount, which may not be
/// zero. Anyone may issue.
pub open spec fn mint_nft_refusal(config: NFTConfigView, nft_type_index: u8, amount: u64) -> Option<
    ErrorCode,
> {
    if nft_type_index >= config.nft_types.len() {
        Some(ErrorCode::InvalidNFTType)
    } else if amount == 0 {
        Some(ErrorCode::InvalidAmount)
    } else {
        None
    }
}

/// The issuance of `amount` items of the item type at `nft_type_index`: a
/// descriptor with the name, symbol and uri of the item type, no royalty, no
/// creators and no collection; a supply fixed at `amount`; and `amount` units
/// minted to the caller, who answers for all of it.
pub open spec fn issuance(ctx: MintNFT, nft_type_index: u8, amount: u64) -> Issuance {
    let item = ctx.nft_config.nft_types@[nft_type_index as int];
    Issuance {
        descriptor: CreateMetadata {
            metadata: ctx.metadata,
            mint: ctx.mint,
            mint_authority: ctx.minter,
            payer: ctx.minter,
            update_authority: ctx.minter,
            name: item.name,
            symbol: item.symbol,
            uri: item.uri,
            seller_fee_basis_points: 0,
            creators: None,
            collection: None,
            is_mutable: true,
            update_authority_is_signer: false,
        },
        edition: CreateMasterEdition {
            edition: ctx.master_edition,
            mint: ctx.mint,
            update_authority: ctx.minter,
            mint_authority: ctx.minter,
            payer: ctx.minter,
            metadata: ctx.metadata,
            max_supply: Some(amount),
        },
        mint: MintTo { mint: ctx.mint, to: ctx.token_account, authority: ctx.minter, amount },
        event: MintNFTEvent { mint: ctx.mint, owner: ctx.minter, nft_type_index, amount },
    }
}

/// Issues `amount` items of the item type at `nft_type_index` to the caller.
/// The catalog is only read.
pub fn mint_nft(ctx: &MintNFT, nft_type_index: u8, amount: u64) -> (r: Result<Issuance, ErrorCode>)
    ensures
        mint_nft_refusal(ctx.nft_config@, nft_type_index, amount) matches Some(e) ==> r == Err::<
            Issuance,
            ErrorCode,
        >(e),
        mint_nft_refusal(ctx.nft_config@, nft_type_index, amount) is None ==> r == Ok::<
            Issuance,
            ErrorCode,
        >(issuance(*ctx, nft_type_index, amount)),
{
    if nft_type_index as usize >= ctx.nft_config.nft_types.len() {
        return Err(ErrorCode::InvalidNFTType);
    }
    if amount == 0 {
        return Err(ErrorCode::InvalidAmount);
    }
    let nft_type = &ctx.nft_config.nft_types[nft_type_index as usize];
    let descriptor = CreateMetadata {
        metadata: ctx.metadata,
        mint: ctx.mint,
        mint_authority: ctx.minter,
        payer: ctx.minter,
        update_authority: ctx.minter,
        name: nft_type.name.clone(),
        symbol: nft_type.symbol.clone(),
        uri: nft_type.uri.clone(),
        seller_fee_basis_points: 0,
        creators: None,
        collection: None,
        is_mutable: true,
        update_authority_is_signer: false,
    };
    let edition = CreateMasterEdition {
        edition: ctx.master_edition,
        mint: ctx.mint,
        update_authority: ctx.minter,
        mint_authority: ctx.minter,
        payer: ctx.minter,
        metadata: ctx.metadata,
        max_supply: Some(amount),
    };
    let mint = MintTo { mint: ctx.mint, to: ctx.token_account, authority: ctx.minter, amount };
    let event = MintNFTEvent { mint: ctx.mint, owner: ctx.minter, nft_type_index, amount };
    Ok(Issuance { descriptor, edition, mint, event })
}

} // verus!
