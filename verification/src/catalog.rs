use vstd::prelude::*;
use crate::address::Address;
use crate::error::ErrorCode;

verus! {

/// Longest name, in bytes, that the account of a catalog is sized for.
pub const MAX_NAME_LENGTH: usize = 32;

/// Longest symbol, in bytes, that the account of a catalog is sized for.
pub const MAX_SYMBOL_LENGTH: usize = 10;

/// Longest uri, in bytes, that the account of a catalog is sized for.
pub const MAX_URI_LENGTH: usize = 200;

/// Largest number of item types that a catalog can be created with.
pub const MAX_INITIAL_NFT_TYPES: u8 = 10;

/// A kind of redeemable item: the template from which items are issued.
#[derive(Clone, Debug, PartialEq, Eq)]
pub struct NFTType {
    pub name: String,
    pub symbol: String,
    pub uri: String,
    /// Credit granted for each redeemed unit; `None` until a rate is set.
    pub reward_amount: Option<u64>,
}

/// What an [`NFTType`] is, mathematically.
pub struct NFTTypeView {
    pub name: Seq<char>,
    pub symbol: Seq<char>,
    pub uri: Seq<char>,
    pub reward_amount: Option<u64>,
}

impl NFTTypeView {
    /// The three strings are not empty, and a rate that is set is not zero.
    pub open spec fn well_formed(self) -> bool {
        &&& self.name.len() > 0
        &&& self.symbol.len() > 0
        &&& self.uri.len() > 0
        &&& self.reward_amount != Some(0u64)
    }

    /// Whether this is the item type that an item with `name` and `uri` was
    /// issued from.
    pub open spec fn describes(self, name: Seq<char>, uri: Seq<char>) -> bool {
        self.name == name && self.uri == uri
    }
}

impl View for NFTType {
    type V = NFTTypeView;

    open spec fn view(&self) -> NFTTypeView {
        NFTTypeView {
            name: self.name@,
            symbol: self.symbol@,
            uri: self.uri@,
            reward_amount: self.reward_amount,
        }
    }
}

impl NFTType {
    /// Bytes that one item type takes in the account of a catalog: three
    /// strings, each with four bytes for its length, and nine bytes for the
    /// rate.
    pub open spec fn spec_space() -> nat {
        ((4 + MAX_NAME_LENGTH) + (4 + MAX_SYMBOL_LENGTH) + (4 + MAX_URI_LENGTH) + 9) as nat
    }

    /// Bytes that one item type takes in the account of a catalog.
    pub fn space() -> (bytes: usize)
        ensures
            bytes == Self::spec_space(),
            bytes == 263,
    {
        4 + MAX_NAME_LENGTH + 4 + MAX_SYMBOL_LENGTH + 4 + MAX_URI_LENGTH + 9
    }
}

impl Default for NFTType {
    /// An item type with three empty strings and no rate.
    fn default() -> (t: NFTType)
        ensures
            t@.name.len() == 0,
            t@.symbol.len() == 0,
            t@.uri.len() == 0,
            t@.reward_amount is None,
    {
        NFTType { name: String::new(), symbol: String::new(), uri: String::new(), reward_amount: None }
    }
}

/// The catalog: the item types of one owner, in the order in which they
/// were added, and the room there is for them.
#[derive(Clone, Debug, PartialEq, Eq)]
pub struct NFTConfig {
    /// The only principal who may change the catalog.
    pub authority: Address,
    /// Number of item types that the catalog has room for.
    pub max_nft_types: u8,
    /// The item types; an item type is known by its position here.
    pub nft_types: Vec<NFTType>,
}

/// What an [`NFTConfig`] is, mathematically.
pub struct NFTConfigView {
    pub authority: Seq<u8>,
    pub max_nft_types: u8,
    pub nft_types: Seq<NFTTypeView>,
}

impl NFTConfigView {
    /// The invariant of a catalog: it holds no more item types than it has
    /// room for, and each of them is well formed.
    pub open spec fn well_formed(self) -> bool {
        &&& self.nft_types.len() <= self.max_nft_types
        &&& forall|i: int|
            0 <= i < self.nft_types.len() ==> (#[trigger] self.nft_types[i]).well_formed()
    }

    /// Whether `caller` is the owner of the catalog.
    pub open spec fn owned_by(self, caller: Seq<u8>) -> bool {
        caller == self.authority
    }
}

impl View for NFTConfig {
    type V = NFTConfigView;

    open spec fn view(&self) -> NFTConfigView {
        NFTConfigView {
            authority: self.authority@,
            max_nft_types: self.max_nft_types,
            nft_types: Seq::new(self.nft_types@.len(), |i: int| self.nft_types@[i]@),
        }
    }
}

impl NFTConfig {
    /// Bytes of the account that holds a catalog: eight for the tag of the
    /// account, thirty-two for the owner, one for the room, four for the
    /// number of item types, and the bytes of as many item types as a catalog
    /// can be created with.
    pub open spec fn spec_space() -> nat {
        (8 + 32 + 1 + 4 + MAX_INITIAL_NFT_TYPES * NFTType::spec_space()) as nat
    }

    /// Bytes of the account that holds a catalog.
    pub fn space() -> (bytes: usize)
        ensures
            bytes == Self::spec_space(),
            bytes == 2675,
    {
        8 + 32 + 1 + 4 + (MAX_INITIAL_NFT_TYPES as usize) * NFTType::space()
    }

    /// Refuses every caller but the owner of the catalog.
    pub fn require_authority(&self, caller: &Address) -> (r: Result<(), ErrorCode>)
        ensures
            self@.owned_by(caller@) ==> r is Ok,
            !self@.owned_by(caller@) ==> r == Err::<(), ErrorCode>(ErrorCode::UnauthorizedAccess),
    {
        if caller.same_as(&self.authority) {
            Ok(())
        } else {
            Err(ErrorCode::UnauthorizedAccess)
        }
    }
}

} // verus!
