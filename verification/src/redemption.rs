use vstd::prelude::*;
use vstd::string::StrSliceExecFns;
use anchor_lang::AccountDeserialize;
use anchor_spl::metadata::MetadataAccount;
use crate::accounts::RedeemAndBurnNFT;
use crate::catalog::{NFTConfig, NFTType, NFTTypeView};
use crate::error::ErrorCode;
use crate::events::RedeemAndBurnNFTEvent;
use crate::ledger::{Burn, Transfer};

verus! {

/// What redeeming items asks of the asset ledger, in the order in which it is
/// to be done. The two instructions belong together: see
/// [`settlement_result`].
#[derive(Clone, Copy, Debug, PartialEq, Eq)]
pub struct Redemption {
    /// First: the items leave the caller's account.
    pub burn: Burn,
    /// Second: the reward leaves the holding account for the caller's.
    pub transfer: Transfer,
    /// The record to publish once both are done.
    pub event: RedeemAndBurnNFTEvent,
}

/// What a descriptor account says of the items of an asset, as far as a
/// redemption reads it: the name and the uri that were copied from their item
/// type when they were issued, each filled up with zero characters to a fixed
/// width.
#[derive(Clone, Debug, PartialEq, Eq)]
pub struct Descriptor {
    pub name: String,
    pub uri: String,
}

impl View for Descriptor {
    type V = (Seq<char>, Seq<char>);

    open spec fn view(&self) -> (Seq<char>, Seq<char>) {
        (self.name@, self.uri@)
    }
}

/// `s` without the zero characters at its end, with which a descriptor fills
/// a string up to its fixed width.
pub open spec fn without_padding(s: Seq<char>) -> Seq<char>
    decreases s.len(),
{
    if s.len() > 0 && s.last() == '\0' {
        without_padding(s.drop_last())
    } else {
        s
    }
}

/// Whether the item type at `i` is the first of `nft_types` with this name
/// and this uri.
pub open spec fn is_first_match(
    nft_types: Seq<NFTTypeView>,
    name: Seq<char>,
    uri: Seq<char>,
    i: int,
) -> bool {
    &&& 0 <= i < nft_types.len()
    &&& nft_types[i].describes(name, uri)
    &&& forall|j: int| 0 <= j < i ==> !(#[trigger] nft_types[j]).describes(name, uri)
}

/// The index of the first item type with this name and this uri, if there is
/// one.
pub open spec fn first_match(nft_types: Seq<NFTTypeView>, name: Seq<char>, uri: Seq<char>) -> Option<
    int,
> {
    if exists|i: int| is_first_match(nft_types, name, uri, i) {
        Some(choose|i: int| is_first_match(nft_types, name, uri, i))
    } else {
        None
    }
}

/// The reward for `amount` items of `item`: its rate times `amount`, where
/// it has a rate and the product fits in sixty-four bits.
pub open spec fn reward_total(item: NFTTypeView, amount: u64) -> Result<u64, ErrorCode> {
    match item.reward_amount {
        None => Err(ErrorCode::RewardAmountNotSet),
        Some(rate) => if rate * amount > u64::MAX {
            Err(ErrorCode::ArithmeticOverflow)
        } else {
            Ok((rate * amount) as u64)
        },
    }
}

/// The reward for `amount` items whose descriptor shows `name` and `uri`:
/// that of the first item type of the catalog that has this name and this
/// uri, once their padding is taken off.
pub open spec fn redeemed_total(
    nft_types: Seq<NFTTypeView>,
    name: Seq<char>,
    uri: Seq<char>,
    amount: u64,
) -> Result<u64, ErrorCode> {
    match first_match(nft_types, without_padding(name), without_padding(uri)) {
        None => Err(ErrorCode::UnknownNFTType),
        Some(i) => reward_total(nft_types[i], amount),
    }
}

/// The settlement of a redemption of `amount` items for `total` units of
/// credit: the items are burnt out of the caller's account on the caller's
/// word, and the credit moves from the holding account to the caller's on
/// the word of the one who answers for the holding account.
pub open spec fn settlement(ctx: RedeemAndBurnNFT, amount: u64, total: u64) -> Redemption {
    Redemption {
        burn: Burn {
            mint: ctx.nft_mint,
            from: ctx.nft_token_account,
            authority: ctx.user,
            amount,
        },
        transfer: Transfer {
            from: ctx.redeemable_token_account,
            to: ctx.user_redeemable_token_account,
            authority: ctx.authority,
            amount: total,
        },
        event: RedeemAndBurnNFTEvent {
            user: ctx.user,
            nft_mint: ctx.nft_mint,
            amount_burned: amount,
            reward_amount: total,
        },
    }
}

/// What comes of presenting `amount` items whose descriptor shows `name`
/// and `uri`.
pub open spec fn redeem_outcome(
    ctx: RedeemAndBurnNFT,
    name: Seq<char>,
    uri: Seq<char>,
    amount: u64,
) -> Result<Redemption, ErrorCode> {
    match redeemed_total(ctx.nft_config@.nft_types, name, uri, amount) {
        Err(e) => Err(e),
        Ok(total) => Ok(settlement(ctx, amount, total)),
    }
}

/// An index that is the first match is the one that [`first_match`] gives:
/// no other index is one.
pub proof fn lemma_first_match_is_unique(
    nft_types: Seq<NFTTypeView>,
    name: Seq<char>,
    uri: Seq<char>,
    i: int,
)
    requires
        is_first_match(nft_types, name, uri, i),
    ensures
        first_match(nft_types, name, uri) == Some(i),
{
    let k = choose|k: int| is_first_match(nft_types, name, uri, k);
    assert(is_first_match(nft_types, name, uri, k));
    if k < i {
        assert(!nft_types[k].describes(name, uri));
    } else if i < k {
        assert(!nft_types[i].describes(name, uri));
    }
}

/// Takes the padding off `s`: the zero characters at its end.
pub fn strip_padding(s: &str) -> (r: String)
    ensures
        r@ == without_padding(s@),
{
    let mut end: usize = s.unicode_len();
    proof {
        assert(s@.subrange(0, end as int) =~= s@);
    }
    while end > 0 && s.get_char(end - 1) == '\0'
        invariant
            end <= s@.len(),
            without_padding(s@) == without_padding(s@.subrange(0, end as int)),
        decreases end,
    {
        proof {
            let t = s@.subrange(0, end as int);
            assert(t.last() == s@[end - 1]);
            assert(t.drop_last() =~= s@.subrange(0, end - 1));
        }
        end -= 1;
    }
    proof {
        let t = s@.subrange(0, end as int);
        if end > 0 {
            assert(t.last() == s@[end - 1]);
        }
        assert(without_padding(t) == t);
    }
    s.substring_char(0, end).to_owned()
}

/// Looks for the first item type of the catalog that has this name and this
/// uri, compared character by character.
pub fn find_nft_type(config: &NFTConfig, name: &String, uri: &String) -> (r: Option<usize>)
    ensures
        r matches Some(i) ==> first_match(config@.nft_types, name@, uri@) == Some(i as int),
        r is None ==> first_match(config@.nft_types, name@, uri@) is None,
{
    let mut i: usize = 0;
    while i < config.nft_types.len()
        invariant
            i <= config.nft_types@.len(),
            forall|j: int| 0 <= j < i ==> !(#[trigger] config@.nft_types[j]).describes(name@, uri@),
        decreases config.nft_types@.len() - i,
    {
        let t: &NFTType = &config.nft_types[i];
        if t.name == *name && t.uri == *uri {
            proof {
                assert(config@.nft_types[i as int] == t@);
                lemma_first_match_is_unique(config@.nft_types, name@, uri@, i as int);
            }
            return Some(i);
        }
        proof {
            assert(config@.nft_types[i as int] == t@);
        }
        i += 1;
    }
    None
}

/// Computes the reward for `amount` items of `item`, and refuses where the
/// item type has no rate or the reward does not fit in sixty-four bits.
pub fn compute_reward(item: &NFTType, amount: u64) -> (r: Result<u64, ErrorCode>)
    ensures
        r == reward_total(item@, amount),
{
    match item.reward_amount {
        None => Err(ErrorCode::RewardAmountNotSet),
        Some(rate) => match rate.checked_mul(amount) {
            None => Err(ErrorCode::ArithmeticOverflow),
            Some(total) => Ok(total),
        },
    }
}

/// Redeems `amount` items whose descriptor shows `name` and `uri`. The
/// catalog is only read, and so is everything else: a refusal leaves nothing
/// behind, and nothing is asked of the ledger.
pub fn redeem(ctx: &RedeemAndBurnNFT, name: &str, uri: &str, amount: u64) -> (r: Result<
    Redemption,
    ErrorCode,
>)
    ensures
        r == redeem_outcome(*ctx, name@, uri@, amount),
{
    let name: String = strip_padding(name);
    let uri: String = strip_padding(uri);
    let index: usize = match find_nft_type(&ctx.nft_config, &name, &uri) {
        None => { return Err(ErrorCode::UnknownNFTType); },
        Some(index) => index,
    };
    let total: u64 = match compute_reward(&ctx.nft_config.nft_types[index], amount) {
        Err(e) => { return Err(e); },
        Ok(total) => total,
    };
    Ok(
        Redemption {
            burn: Burn {
                mint: ctx.nft_mint,
                from: ctx.nft_token_account,
                authority: ctx.user,
                amount,
            },
            transfer: Transfer {
                from: ctx.redeemable_token_account,
                to: ctx.user_redeemable_token_account,
                authority: ctx.authority,
                amount: total,
            },
            event: RedeemAndBurnNFTEvent {
                user: ctx.user,
                nft_mint: ctx.nft_mint,
                amount_burned: amount,
                reward_amount: total,
            },
        },
    )
}

/// The error with which `anchor_spl::metadata::MetadataAccount` refuses to
/// read the data of an account. Nothing is known of what it holds.
#[verifier::external_type_specification]
#[verifier::external_body]
pub struct ExAnchorError(anchor_lang::error::Error);

/// The name and the uri that the descriptor store reads out of the data of a
/// descriptor account, or `None` where it refuses the data.
pub uninterp spec fn metadata_fields(data: Seq<u8>) -> Option<(Seq<char>, Seq<char>)>;

/// Reads the data of a descriptor account with
/// `anchor_spl::metadata::MetadataAccount::try_deserialize`, and hands out
/// the name and the uri that it found, as it found them. What it finds
/// depends on the bytes alone; nothing more is claimed of it.
#[verifier::external_body]
fn read_metadata(data: &[u8]) -> (r: Result<Descriptor, anchor_lang::error::Error>)
    ensures
        r matches Ok(descriptor) ==> metadata_fields(data@) == Some(descriptor@),
        r is Err ==> metadata_fields(data@) is None,
{
    let mut buf: &[u8] = data;
    let metadata = MetadataAccount::try_deserialize(&mut buf)?;
    Ok(Descriptor { name: metadata.name.clone(), uri: metadata.uri.clone() })
}

/// What comes of presenting `amount` items, given what was read out of
/// their descriptor account: `None` where it could not be read.
pub open spec fn redeem_and_burn_outcome(
    ctx: RedeemAndBurnNFT,
    fields: Option<(Seq<char>, Seq<char>)>,
    amount: u64,
) -> Result<Redemption, ErrorCode> {
    match fields {
        None => Err(ErrorCode::InvalidMetadata),
        Some(fields) => redeem_outcome(ctx, fields.0, fields.1, amount),
    }
}

/// What was read out of a descriptor account, as a pair of sequences.
pub open spec fn descriptor_view(descriptor: Option<Descriptor>) -> Option<(Seq<char>, Seq<char>)> {
    match descriptor {
        None => None,
        Some(descriptor) => Some(descriptor@),
    }
}

/// Redeems `amount` items, given what was read out of their descriptor
/// account: refuses where it could not be read, and else goes by its name and
/// its uri.
pub fn redeem_descriptor(ctx: &RedeemAndBurnNFT, descriptor: Option<Descriptor>, amount: u64) -> (r:
    Result<Redemption, ErrorCode>)
    ensures
        r == redeem_and_burn_outcome(*ctx, descriptor_view(descriptor), amount),
{
    match descriptor {
        None => Err(ErrorCode::InvalidMetadata),
        Some(descriptor) => redeem(ctx, descriptor.name.as_str(), descriptor.uri.as_str(), amount),
    }
}

/// Redeems `amount` items of the asset whose descriptor account holds
/// `ctx.metadata`: reads the descriptor, finds the item type that the items
/// were issued from, and computes the reward.
pub fn redeem_and_burn_nft(ctx: &RedeemAndBurnNFT, amount: u64) -> (r: Result<
    Redemption,
    ErrorCode,
>)
    ensures
        r == redeem_and_burn_outcome(*ctx, metadata_fields(ctx.metadata@), amount),
{
    let descriptor: Option<Descriptor> = match read_metadata(ctx.metadata.as_slice()) {
        Err(_) => None,
        Ok(descriptor) => Some(descriptor),
    };
    redeem_descriptor(ctx, descriptor, amount)
}

/// Judges what the ledger has made of the two instructions of a redemption.
/// Both done: settled, `Ok(true)`. Neither done: nothing has happened,
/// `Ok(false)`. One without the other is a state that must not be passed
/// over: it is refused, and left to be set right by hand.
pub fn settlement_result(burned: bool, transferred: bool) -> (r: Result<bool, ErrorCode>)
    ensures
        burned == transferred ==> r == Ok::<bool, ErrorCode>(burned),
        burned != transferred ==> r == Err::<bool, ErrorCode>(ErrorCode::InconsistentSettlement),
{
    if burned == transferred {
        Ok(burned)
    } else {
        Err(ErrorCode::InconsistentSettlement)
    }
}

} // verus!
