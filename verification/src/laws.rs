use vstd::prelude::*;
use crate::catalog::{NFTConfigView, NFTTypeView};
use crate::error::ErrorCode;
use crate::redemption::{
    first_match, is_first_match, lemma_first_match_is_unique, redeemed_total, reward_total,
    without_padding,
};
use crate::registrar::{
    add_nft_type_refusal, apply, created, increase_max_nft_types_refusal, initialize_refusal,
    refusal, reward_amount_refusal, run, with_nft_type, with_reward_amount, Operation,
};
use crate::supply::supply_refusal;

verus! {

/// A catalog that is created is well formed: it is empty, and has room.
pub proof fn law_created_is_well_formed(owner: Seq<u8>, max_nft_types: u8)
    requires
        initialize_refusal(max_nft_types) is None,
    ensures
        created(owner, max_nft_types).well_formed(),
        created(owner, max_nft_types).nft_types.len() == 0,
{
}

/// No change that is asked of a well-formed catalog, granted or refused,
/// leaves it with more item types than it has room for, nor otherwise ill
/// formed.
pub proof fn law_operation_keeps_well_formed(config: NFTConfigView, op: Operation)
    requires
        config.well_formed(),
    ensures
        apply(config, op).well_formed(),
        apply(config, op).nft_types.len() <= apply(config, op).max_nft_types,
{
    let after = apply(config, op);
    if refusal(config, op) is None {
        assert forall|i: int| 0 <= i < after.nft_types.len() implies (
        #[trigger] after.nft_types[i]).well_formed() by {
            if i < config.nft_types.len() {
                assert(config.nft_types[i].well_formed());
            }
        }
    }
}

/// However many changes are asked of a well-formed catalog, and in whatever
/// order, it never holds more item types than it has room for.
pub proof fn law_run_keeps_well_formed(config: NFTConfigView, ops: Seq<Operation>)
    requires
        config.well_formed(),
    ensures
        run(config, ops).well_formed(),
        run(config, ops).nft_types.len() <= run(config, ops).max_nft_types,
    decreases ops.len(),
{
    if ops.len() > 0 {
        law_run_keeps_well_formed(config, ops.drop_last());
        law_operation_keeps_well_formed(run(config, ops.drop_last()), ops.last());
    }
}

/// The room of a catalog is changed exactly when its owner asks for more
/// room than it has.
pub proof fn law_room_grows_or_stays(config: NFTConfigView, caller: Seq<u8>, new_max: u8)
    ensures
        increase_max_nft_types_refusal(config, caller, new_max) is None <==> config.owned_by(caller)
            && new_max > config.max_nft_types,
        config.owned_by(caller) && new_max <= config.max_nft_types
            ==> increase_max_nft_types_refusal(config, caller, new_max) == Some(
            ErrorCode::InvalidNewMaxNFTTypes,
        ),
        increase_max_nft_types_refusal(config, caller, new_max) is None ==> apply(
            config,
            (Operation::IncreaseMaxNFTTypes { caller, new_max }),
        ).max_nft_types == new_max,
        increase_max_nft_types_refusal(config, caller, new_max) is Some ==> apply(
            config,
            (Operation::IncreaseMaxNFTTypes { caller, new_max }),
        ) == config,
{
}

/// No change that is asked of a catalog takes room away from it, nor an item
/// type, nor gives it another owner.
pub proof fn law_operation_never_shrinks(config: NFTConfigView, op: Operation)
    ensures
        apply(config, op).max_nft_types >= config.max_nft_types,
        apply(config, op).nft_types.len() >= config.nft_types.len(),
        apply(config, op).authority == config.authority,
{
}

/// Over any series of changes the room of a catalog never shrinks, and
/// neither does the number of its item types.
pub proof fn law_run_never_shrinks(config: NFTConfigView, ops: Seq<Operation>)
    ensures
        run(config, ops).max_nft_types >= config.max_nft_types,
        run(config, ops).nft_types.len() >= config.nft_types.len(),
        run(config, ops).authority == config.authority,
    decreases ops.len(),
{
    if ops.len() > 0 {
        law_run_never_shrinks(config, ops.drop_last());
        law_operation_never_shrinks(run(config, ops.drop_last()), ops.last());
    }
}

/// A catalog that is full refuses its owner another item type, whatever the
/// item type, and stays as it is.
pub proof fn law_full_catalog_refuses(
    config: NFTConfigView,
    caller: Seq<u8>,
    name: Seq<char>,
    symbol: Seq<char>,
    uri: Seq<char>,
)
    requires
        config.owned_by(caller),
        config.nft_types.len() == config.max_nft_types,
    ensures
        add_nft_type_refusal(config, caller, name, symbol, uri) == Some(
            ErrorCode::MaxNFTTypesReached,
        ),
        apply(config, (Operation::AddNFTType { caller, name, symbol, uri })) == config,
{
}

/// A rate of zero is refused to the owner for every item type of the
/// catalog, by setting and by editing alike, and the catalog stays as it is.
pub proof fn law_zero_rate_refused(config: NFTConfigView, caller: Seq<u8>, nft_type_index: u8)
    requires
        config.owned_by(caller),
        nft_type_index < config.nft_types.len(),
    ensures
        reward_amount_refusal(config, caller, nft_type_index, 0) == Some(
            ErrorCode::InvalidRewardAmount,
        ),
        apply(config, (Operation::SetRewardAmount { caller, nft_type_index, reward_amount: 0 }))
            == config,
        apply(
            config,
            (Operation::EditRewardAmount { caller, nft_type_index, new_reward_amount: 0 }),
        ) == config,
{
}

/// A rate that was written is the rate that is read: the item type has
/// exactly that rate afterwards, a redemption of it is paid at that rate, and
/// no other item type has changed.
pub proof fn law_written_rate_is_read(
    config: NFTConfigView,
    caller: Seq<u8>,
    nft_type_index: u8,
    reward_amount: u64,
    amount: u64,
)
    requires
        reward_amount_refusal(config, caller, nft_type_index, reward_amount) is None,
    ensures
        with_reward_amount(config, nft_type_index, reward_amount).nft_types[nft_type_index as int].reward_amount
            == Some(reward_amount),
        reward_amount * amount <= u64::MAX ==> reward_total(
            with_reward_amount(config, nft_type_index, reward_amount).nft_types[nft_type_index as int],
            amount,
        ) == Ok::<u64, ErrorCode>((reward_amount * amount) as u64),
        with_reward_amount(config, nft_type_index, reward_amount).nft_types.len()
            == config.nft_types.len(),
        forall|i: int|
            0 <= i < config.nft_types.len() && i != nft_type_index ==> with_reward_amount(
                config,
                nft_type_index,
                reward_amount,
            ).nft_types[i] == config.nft_types[i],
{
}

/// Items of an item type with a rate are redeemed for the rate times their
/// number, exactly, whenever that product fits in sixty-four bits, and only
/// then.
pub proof fn law_redeem_pays_rate_times_amount(
    nft_types: Seq<NFTTypeView>,
    name: Seq<char>,
    uri: Seq<char>,
    i: int,
    rate: u64,
    amount: u64,
)
    requires
        is_first_match(nft_types, without_padding(name), without_padding(uri), i),
        nft_types[i].reward_amount == Some(rate),
    ensures
        rate * amount <= u64::MAX ==> redeemed_total(nft_types, name, uri, amount) == Ok::<
            u64,
            ErrorCode,
        >((rate * amount) as u64),
        redeemed_total(nft_types, name, uri, amount) is Ok ==> rate * amount <= u64::MAX,
{
    lemma_first_match_is_unique(nft_types, without_padding(name), without_padding(uri), i);
}

/// Items whose name and uri no item type of the catalog has are refused as
/// unknown, whatever the amount.
pub proof fn law_unknown_item_refused(
    nft_types: Seq<NFTTypeView>,
    name: Seq<char>,
    uri: Seq<char>,
    amount: u64,
)
    requires
        forall|i: int|
            0 <= i < nft_types.len() ==> !(#[trigger] nft_types[i]).describes(
                without_padding(name),
                without_padding(uri),
            ),
    ensures
        redeemed_total(nft_types, name, uri, amount) == Err::<u64, ErrorCode>(
            ErrorCode::UnknownNFTType,
        ),
{
    assert(first_match(nft_types, without_padding(name), without_padding(uri)) is None);
}

/// A reward that does not fit in sixty-four bits is refused: there is no
/// total, and so nothing to burn or to transfer.
pub proof fn law_overflow_refused(
    nft_types: Seq<NFTTypeView>,
    name: Seq<char>,
    uri: Seq<char>,
    i: int,
    rate: u64,
    amount: u64,
)
    requires
        is_first_match(nft_types, without_padding(name), without_padding(uri), i),
        nft_types[i].reward_amount == Some(rate),
        rate * amount > u64::MAX,
    ensures
        redeemed_total(nft_types, name, uri, amount) == Err::<u64, ErrorCode>(
            ErrorCode::ArithmeticOverflow,
        ),
{
    lemma_first_match_is_unique(nft_types, without_padding(name), without_padding(uri), i);
}

/// Whoever is not the owner of a catalog is refused every change of it, and
/// the catalog stays as it is.
pub proof fn law_stranger_changes_nothing(config: NFTConfigView, op: Operation)
    requires
        !config.owned_by(op.caller()),
    ensures
        refusal(config, op) == Some(ErrorCode::UnauthorizedAccess),
        apply(config, op) == config,
{
}

/// Whoever is not the owner of a catalog is refused the minting of credit,
/// whatever the amount.
pub proof fn law_stranger_mints_nothing(config: NFTConfigView, caller: Seq<u8>, amount: u64)
    requires
        !config.owned_by(caller),
    ensures
        supply_refusal(config, caller, amount) == Some(ErrorCode::UnauthorizedAccess),
{
}

/// An item type that is added stands at the end of the catalog, under the
/// index that is the number of item types before it, and has no rate; the
/// item types before it are as they were.
pub proof fn law_new_item_type_takes_next_index(
    config: NFTConfigView,
    caller: Seq<u8>,
    name: Seq<char>,
    symbol: Seq<char>,
    uri: Seq<char>,
)
    requires
        add_nft_type_refusal(config, caller, name, symbol, uri) is None,
    ensures
        with_nft_type(config, name, symbol, uri).nft_types.len() == config.nft_types.len() + 1,
        with_nft_type(config, name, symbol, uri).nft_types[config.nft_types.len() as int] == (
        NFTTypeView { name, symbol, uri, reward_amount: None }),
        forall|i: int|
            0 <= i < config.nft_types.len() ==> with_nft_type(
                config,
                name,
                symbol,
                uri,
            ).nft_types[i] == config.nft_types[i],
{
}

/// No change that is asked of a catalog moves an item type to another index
/// or gives it another name, symbol or uri; and a rate that is set may be
/// changed, but is never taken away.
pub proof fn law_item_types_stay(config: NFTConfigView, op: Operation, i: int)
    requires
        0 <= i < config.nft_types.len(),
    ensures
        apply(config, op).nft_types[i].name == config.nft_types[i].name,
        apply(config, op).nft_types[i].symbol == config.nft_types[i].symbol,
        apply(config, op).nft_types[i].uri == config.nft_types[i].uri,
        config.nft_types[i].reward_amount is Some ==> apply(
            config,
            op,
        ).nft_types[i].reward_amount is Some,
{
}

/// Over any series of changes an item type keeps its index, its name, its
/// symbol and its uri, and a rate once it has one.
pub proof fn law_run_item_types_stay(config: NFTConfigView, ops: Seq<Operation>, i: int)
    requires
        0 <= i < config.nft_types.len(),
    ensures
        i < run(config, ops).nft_types.len(),
        run(config, ops).nft_types[i].name == config.nft_types[i].name,
        run(config, ops).nft_types[i].symbol == config.nft_types[i].symbol,
        run(config, ops).nft_types[i].uri == config.nft_types[i].uri,
        config.nft_types[i].reward_amount is Some ==> run(
            config,
            ops,
        ).nft_types[i].reward_amount is Some,
    decreases ops.len(),
{
    if ops.len() > 0 {
        law_run_item_types_stay(config, ops.drop_last(), i);
        law_run_never_shrinks(config, ops.drop_last());
        law_item_types_stay(run(config, ops.drop_last()), ops.last(), i);
    }
}

} // verus!
