use vstd::prelude::*;
use crate::accounts::{AddNFTType, EditRewardAmount, IncreaseMaxNFTTypes, Initialize, SetRewardAmount};
use crate::catalog::{NFTConfigView, NFTType, NFTTypeView, MAX_INITIAL_NFT_TYPES};
use crate::error::ErrorCode;
use crate::events::{
    AddNFTTypeEvent, EditRewardAmountEvent, IncreaseMaxNFTTypesEvent, InitializeEvent,
    SetRewardAmountEvent,
};

verus! {

/// Why a catalog with room for `max_nft_types` item types is not created,
/// if it is not: the room must be at least one and at most ten.
pub open spec fn initialize_refusal(max_nft_types: u8) -> Option<ErrorCode> {
    if 1 <= max_nft_types <= MAX_INITIAL_NFT_TYPES {
        None
    } else {
        Some(ErrorCode::InvalidMaxNFTTypes)
    }
}

/// The catalog of `owner` as it is created: no item types yet.
pub open spec fn created(owner: Seq<u8>, max_nft_types: u8) -> NFTConfigView {
    NFTConfigView { authority: owner, max_nft_types, nft_types: Seq::empty() }
}

/// Creates the catalog of the caller, with room for `max_nft_types` item
/// types and none in it.
pub fn initialize(ctx: &mut Initialize, max_nft_types: u8) -> (r: Result<
    InitializeEvent,
    ErrorCode,
>)
    ensures
        final(ctx).authority == old(ctx).authority,
        initialize_refusal(max_nft_types) matches Some(e) ==> r == Err::<InitializeEvent, ErrorCode>(
            e,
        ) && *final(ctx) == *old(ctx),
        initialize_refusal(max_nft_types) is None ==> r == Ok::<InitializeEvent, ErrorCode>(
            (InitializeEvent { authority: old(ctx).authority, max_nft_types }),
        ) && final(ctx).nft_config@ == created(old(ctx).authority@, max_nft_types),
        r is Ok ==> final(ctx).nft_config@.well_formed(),
{
    if !(max_nft_types > 0 && max_nft_types <= MAX_INITIAL_NFT_TYPES) {
        return Err(ErrorCode::InvalidMaxNFTTypes);
    }
    ctx.nft_config.authority = ctx.authority;
    ctx.nft_config.max_nft_types = max_nft_types;
    ctx.nft_config.nft_types = Vec::new();
    proof {
        assert(ctx.nft_config@.nft_types =~= Seq::<NFTTypeView>::empty());
    }
    Ok(InitializeEvent { authority: ctx.authority, max_nft_types })
}

/// Why an item type is not added, if it is not. The caller is looked at
/// first, then the room that is left, then the three strings in turn.
pub open spec fn add_nft_type_refusal(
    config: NFTConfigView,
    caller: Seq<u8>,
    name: Seq<char>,
    symbol: Seq<char>,
    uri: Seq<char>,
) -> Option<ErrorCode> {
    if !config.owned_by(caller) {
        Some(ErrorCode::UnauthorizedAccess)
    } else if config.nft_types.len() >= config.max_nft_types {
        Some(ErrorCode::MaxNFTTypesReached)
    } else if name.len() == 0 {
        Some(ErrorCode::EmptyName)
    } else if symbol.len() == 0 {
        Some(ErrorCode::EmptySymbol)
    } else if uri.len() == 0 {
        Some(ErrorCode::EmptyURI)
    } else {
        None
    }
}

/// The catalog with one more item type at its end, which has no rate yet.
pub open spec fn with_nft_type(
    config: NFTConfigView,
    name: Seq<char>,
    symbol: Seq<char>,
    uri: Seq<char>,
) -> NFTConfigView {
    NFTConfigView {
        nft_types: config.nft_types.push(NFTTypeView { name, symbol, uri, reward_amount: None }),
        ..config
    }
}

/// Adds an item type at the end of the catalog. Its index is the number of
/// item types that the catalog held before.
pub fn add_nft_type(ctx: &mut AddNFTType, name: String, symbol: String, uri: String) -> (r: Result<
    AddNFTTypeEvent,
    ErrorCode,
>)
    ensures
        final(ctx).authority == old(ctx).authority,
        add_nft_type_refusal(old(ctx).nft_config@, old(ctx).authority@, name@, symbol@, uri@)
            matches Some(e) ==> r == Err::<AddNFTTypeEvent, ErrorCode>(e) && *final(ctx) == *old(
            ctx,
        ),
        add_nft_type_refusal(old(ctx).nft_config@, old(ctx).authority@, name@, symbol@, uri@)
            is None ==> r == Ok::<AddNFTTypeEvent, ErrorCode>(
            (AddNFTTypeEvent { name, symbol, uri }),
        ) && final(ctx).nft_config@ == with_nft_type(old(ctx).nft_config@, name@, symbol@, uri@),
        final(ctx).nft_config@ == apply(
            old(ctx).nft_config@,
            (Operation::AddNFTType {
                caller: old(ctx).authority@,
                name: name@,
                symbol: symbol@,
                uri: uri@,
            }),
        ),
        old(ctx).nft_config@.well_formed() ==> final(ctx).nft_config@.well_formed(),
{
    if ctx.nft_config.require_authority(&ctx.authority).is_err() {
        return Err(ErrorCode::UnauthorizedAccess);
    }
    if ctx.nft_config.nft_types.len() >= ctx.nft_config.max_nft_types as usize {
        return Err(ErrorCode::MaxNFTTypesReached);
    }
    if name.as_str().is_empty() {
        return Err(ErrorCode::EmptyName);
    }
    if symbol.as_str().is_empty() {
        return Err(ErrorCode::EmptySymbol);
    }
    if uri.as_str().is_empty() {
        return Err(ErrorCode::EmptyURI);
    }
    ctx.nft_config.nft_types.push(
        NFTType {
            name: name.clone(),
            symbol: symbol.clone(),
            uri: uri.clone(),
            reward_amount: None,
        },
    );
    proof {
        assert(ctx.nft_config@.nft_types =~= with_nft_type(
            old(ctx).nft_config@,
            name@,
            symbol@,
            uri@,
        ).nft_types);
    }
    Ok(AddNFTTypeEvent { name, symbol, uri })
}

/// Why the reward rate of the item type at `nft_type_index` is not written,
/// if it is not. The caller is looked at first, then the index, then the
/// rate, which may not be zero.
pub open spec fn reward_amount_refusal(
    config: NFTConfigView,
    caller: Seq<u8>,
    nft_type_index: u8,
    reward_amount: u64,
) -> Option<ErrorCode> {
    if !config.owned_by(caller) {
        Some(ErrorCode::UnauthorizedAccess)
    } else if nft_type_index >= config.nft_types.len() {
        Some(ErrorCode::InvalidNFTType)
    } else if reward_amount == 0 {
        Some(ErrorCode::InvalidRewardAmount)
    } else {
        None
    }
}

/// The catalog with `reward_amount` as the rate of the item type at
/// `nft_type_index`, and nothing else changed.
pub open spec fn with_reward_amount(
    config: NFTConfigView,
    nft_type_index: u8,
    reward_amount: u64,
) -> NFTConfigView {
    NFTConfigView {
        nft_types: config.nft_types.update(
            nft_type_index as int,
            NFTTypeView {
                reward_amount: Some(reward_amount),
                ..config.nft_types[nft_type_index as int]
            },
        ),
        ..config
    }
}

/// The rate that an audit record shows for an item type before a change:
/// zero where none was set.
pub open spec fn recorded_reward_amount(item: NFTTypeView) -> u64 {
    match item.reward_amount {
        Some(rate) => rate,
        None => 0,
    }
}

/// Sets the reward rate of the item type at `nft_type_index`, whether or not
/// it had one.
pub fn set_reward_amount(ctx: &mut SetRewardAmount, nft_type_index: u8, reward_amount: u64) -> (r:
    Result<SetRewardAmountEvent, ErrorCode>)
    ensures
        final(ctx).authority == old(ctx).authority,
        reward_amount_refusal(
            old(ctx).nft_config@,
            old(ctx).authority@,
            nft_type_index,
            reward_amount,
        ) matches Some(e) ==> r == Err::<SetRewardAmountEvent, ErrorCode>(e) && *final(ctx) == *old(
            ctx,
        ),
        reward_amount_refusal(
            old(ctx).nft_config@,
            old(ctx).authority@,
            nft_type_index,
            reward_amount,
        ) is None ==> r == Ok::<SetRewardAmountEvent, ErrorCode>(
            (SetRewardAmountEvent { nft_type_index, reward_amount }),
        ) && final(ctx).nft_config@ == with_reward_amount(
            old(ctx).nft_config@,
            nft_type_index,
            reward_amount,
        ),
        final(ctx).nft_config@ == apply(
            old(ctx).nft_config@,
            (Operation::SetRewardAmount {
                caller: old(ctx).authority@,
                nft_type_index,
                reward_amount,
            }),
        ),
        old(ctx).nft_config@.well_formed() ==> final(ctx).nft_config@.well_formed(),
{
    if ctx.nft_config.require_authority(&ctx.authority).is_err() {
        return Err(ErrorCode::UnauthorizedAccess);
    }
    if nft_type_index as usize >= ctx.nft_config.nft_types.len() {
        return Err(ErrorCode::InvalidNFTType);
    }
    if reward_amount == 0 {
        return Err(ErrorCode::InvalidRewardAmount);
    }
    ctx.nft_config.nft_types[nft_type_index as usize].reward_amount = Some(reward_amount);
    proof {
        assert(ctx.nft_config@.nft_types =~= with_reward_amount(
            old(ctx).nft_config@,
            nft_type_index,
            reward_amount,
        ).nft_types);
    }
    Ok(SetRewardAmountEvent { nft_type_index, reward_amount })
}

/// Changes the reward rate of the item type at `nft_type_index`, and reports
/// the rate it had before, or zero if it had none.
pub fn edit_reward_amount(
    ctx: &mut EditRewardAmount,
    nft_type_index: u8,
    new_reward_amount: u64,
) -> (r: Result<EditRewardAmountEvent, ErrorCode>)
    ensures
        final(ctx).authority == old(ctx).authority,
        reward_amount_refusal(
            old(ctx).nft_config@,
            old(ctx).authority@,
            nft_type_index,
            new_reward_amount,
        ) matches Some(e) ==> r == Err::<EditRewardAmountEvent, ErrorCode>(e) && *final(ctx)
            == *old(ctx),
        reward_amount_refusal(
            old(ctx).nft_config@,
            old(ctx).authority@,
            nft_type_index,
            new_reward_amount,
        ) is None ==> r == Ok::<EditRewardAmountEvent, ErrorCode>(
            (EditRewardAmountEvent {
                nft_type_index,
                old_reward_amount: recorded_reward_amount(
                    old(ctx).nft_config@.nft_types[nft_type_index as int],
                ),
                new_reward_amount,
            }),
        ) && final(ctx).nft_config@ == with_reward_amount(
            old(ctx).nft_config@,
            nft_type_index,
            new_reward_amount,
        ),
        final(ctx).nft_config@ == apply(
            old(ctx).nft_config@,
            (Operation::EditRewardAmount {
                caller: old(ctx).authority@,
                nft_type_index,
                new_reward_amount,
            }),
        ),
        old(ctx).nft_config@.well_formed() ==> final(ctx).nft_config@.well_formed(),
{
    if ctx.nft_config.require_authority(&ctx.authority).is_err() {
        return Err(ErrorCode::UnauthorizedAccess);
    }
    if nft_type_index as usize >= ctx.nft_config.nft_types.len() {
        return Err(ErrorCode::InvalidNFTType);
    }
    if new_reward_amount == 0 {
        return Err(ErrorCode::InvalidRewardAmount);
    }
    let old_reward_amount: u64 = match ctx.nft_config.nft_types[nft_type_index as usize].reward_amount {
        Some(rate) => rate,
        None => 0,
    };
    ctx.nft_config.nft_types[nft_type_index as usize].reward_amount = Some(new_reward_amount);
    proof {
        assert(ctx.nft_config@.nft_types =~= with_reward_amount(
            old(ctx).nft_config@,
            nft_type_index,
            new_reward_amount,
        ).nft_types);
    }
    Ok(EditRewardAmountEvent { nft_type_index, old_reward_amount, new_reward_amount })
}

/// Why the room of a catalog is not changed to `new_max`, if it is not. The
/// caller is looked at first; the room can only grow.
pub open spec fn increase_max_nft_types_refusal(
    config: NFTConfigView,
    caller: Seq<u8>,
    new_max: u8,
) -> Option<ErrorCode> {
    if !config.owned_by(caller) {
        Some(ErrorCode::UnauthorizedAccess)
    } else if new_max <= config.max_nft_types {
        Some(ErrorCode::InvalidNewMaxNFTTypes)
    } else {
        None
    }
}

/// The catalog with room for `new_max` item types, and nothing else changed.
pub open spec fn with_max_nft_types(config: NFTConfigView, new_max: u8) -> NFTConfigView {
    NFTConfigView { max_nft_types: new_max, ..config }
}

/// Gives the catalog room for `new_max` item types, which must be more than
/// it has room for now.
pub fn increase_max_nft_types(ctx: &mut IncreaseMaxNFTTypes, new_max: u8) -> (r: Result<
    IncreaseMaxNFTTypesEvent,
    ErrorCode,
>)
    ensures
        final(ctx).authority == old(ctx).authority,
        increase_max_nft_types_refusal(old(ctx).nft_config@, old(ctx).authority@, new_max)
            matches Some(e) ==> r == Err::<IncreaseMaxNFTTypesEvent, ErrorCode>(e) && *final(ctx)
            == *old(ctx),
        increase_max_nft_types_refusal(old(ctx).nft_config@, old(ctx).authority@, new_max)
            is None ==> r == Ok::<IncreaseMaxNFTTypesEvent, ErrorCode>(
            (IncreaseMaxNFTTypesEvent {
                authority: old(ctx).authority,
                old_max: old(ctx).nft_config.max_nft_types,
                new_max,
            }),
        ) && final(ctx).nft_config@ == with_max_nft_types(old(ctx).nft_config@, new_max),
        final(ctx).nft_config@ == apply(
            old(ctx).nft_config@,
            (Operation::IncreaseMaxNFTTypes { caller: old(ctx).authority@, new_max }),
        ),
        old(ctx).nft_config@.well_formed() ==> final(ctx).nft_config@.well_formed(),
{
    if ctx.nft_config.require_authority(&ctx.authority).is_err() {
        return Err(ErrorCode::UnauthorizedAccess);
    }
    let old_max: u8 = ctx.nft_config.max_nft_types;
    if new_max <= old_max {
        return Err(ErrorCode::InvalidNewMaxNFTTypes);
    }
    ctx.nft_config.max_nft_types = new_max;
    Ok(IncreaseMaxNFTTypesEvent { authority: ctx.authority, old_max, new_max })
}

/// A change that a caller asks of a catalog.
pub enum Operation {
    AddNFTType { caller: Seq<u8>, name: Seq<char>, symbol: Seq<char>, uri: Seq<char> },
    SetRewardAmount { caller: Seq<u8>, nft_type_index: u8, reward_amount: u64 },
    EditRewardAmount { caller: Seq<u8>, nft_type_index: u8, new_reward_amount: u64 },
    IncreaseMaxNFTTypes { caller: Seq<u8>, new_max: u8 },
}

impl Operation {
    /// Who asks for the change.
    pub open spec fn caller(self) -> Seq<u8> {
        match self {
            Operation::AddNFTType { caller, .. } => caller,
            Operation::SetRewardAmount { caller, .. } => caller,
            Operation::EditRewardAmount { caller, .. } => caller,
            Operation::IncreaseMaxNFTTypes { caller, .. } => caller,
        }
    }
}

/// Why the catalog refuses the change, if it does.
pub open spec fn refusal(config: NFTConfigView, op: Operation) -> Option<ErrorCode> {
    match op {
        Operation::AddNFTType { caller, name, symbol, uri } => add_nft_type_refusal(
            config,
            caller,
            name,
            symbol,
            uri,
        ),
        Operation::SetRewardAmount { caller, nft_type_index, reward_amount } => reward_amount_refusal(
            config,
            caller,
            nft_type_index,
            reward_amount,
        ),
        Operation::EditRewardAmount {
            caller,
            nft_type_index,
            new_reward_amount,
        } => reward_amount_refusal(config, caller, nft_type_index, new_reward_amount),
        Operation::IncreaseMaxNFTTypes { caller, new_max } => increase_max_nft_types_refusal(
            config,
            caller,
            new_max,
        ),
    }
}

/// The catalog after the change was asked for: as it was, where the change
/// is refused.
pub open spec fn apply(config: NFTConfigView, op: Operation) -> NFTConfigView {
    if refusal(config, op) is Some {
        config
    } else {
        match op {
            Operation::AddNFTType { name, symbol, uri, .. } => with_nft_type(
                config,
                name,
                symbol,
                uri,
            ),
            Operation::SetRewardAmount { nft_type_index, reward_amount, .. } => with_reward_amount(
                config,
                nft_type_index,
                reward_amount,
            ),
            Operation::EditRewardAmount {
                nft_type_index,
                new_reward_amount,
                ..
            } => with_reward_amount(config, nft_type_index, new_reward_amount),
            Operation::IncreaseMaxNFTTypes { new_max, .. } => with_max_nft_types(config, new_max),
        }
    }
}

/// The catalog after a series of changes was asked for, one after the other.
pub open spec fn run(config: NFTConfigView, ops: Seq<Operation>) -> NFTConfigView
    decreases ops.len(),
{
    if ops.len() == 0 {
        config
    } else {
        apply(run(config, ops.drop_last()), ops.last())
    }
}

} // verus!
