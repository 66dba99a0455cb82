use vstd::prelude::*;

verus! {

/// Every way in which an operation of this library can refuse.
///
/// Each refusal has a kind of its own, so that a caller can tell the user
/// exactly what was wrong.
#[derive(Clone, Copy, Debug, PartialEq, Eq, Structural, Hash)]
pub enum ErrorCode {
    /// An index names no item type of the catalog.
    InvalidNFTType,
    /// The catalog already holds as many item types as it has room for.
    MaxNFTTypesReached,
    /// The item type that was presented for redemption has no reward rate yet.
    RewardAmountNotSet,
    /// The name of a new item type is empty.
    EmptyName,
    /// The symbol of a new item type is empty.
    EmptySymbol,
    /// The uri of a new item type is empty.
    EmptyURI,
    /// A reward rate of zero was asked for.
    InvalidRewardAmount,
    /// An amount of zero was asked for.
    InvalidAmount,
    /// The data of a descriptor account cannot be read as a descriptor.
    InvalidMetadata,
    /// The caller is not the owner of the catalog.
    UnauthorizedAccess,
    /// The new room of the catalog is not larger than the room it has.
    InvalidNewMaxNFTTypes,
    /// A reward does not fit in sixty-four bits.
    ArithmeticOverflow,
    /// A catalog is created with room for no item type, or for more than ten.
    InvalidMaxNFTTypes,
    /// No item type of the catalog has the name and uri that were presented.
    UnknownNFTType,
    /// Of the two halves of a settlement, the burn and the transfer, the
    /// ledger has carried out exactly one.
    InconsistentSettlement,
}

impl ErrorCode {
    /// The words in which each refusal is told to the user.
    pub open spec fn spec_message(self) -> Seq<char> {
        match self {
            ErrorCode::InvalidNFTType => "Invalid NFT type"@,
            ErrorCode::MaxNFTTypesReached => "Maximum number of NFT types reached"@,
            ErrorCode::RewardAmountNotSet => "Reward amount not set for this NFT type"@,
            ErrorCode::EmptyName => "Empty name provided"@,
            ErrorCode::EmptySymbol => "Empty symbol provided"@,
            ErrorCode::EmptyURI => "Empty URI provided"@,
            ErrorCode::InvalidRewardAmount => "Invalid reward amount"@,
            ErrorCode::InvalidAmount => "Invalid amount"@,
            ErrorCode::InvalidMetadata => "Invalid metadata"@,
            ErrorCode::UnauthorizedAccess => "Unauthorized access"@,
            ErrorCode::InvalidNewMaxNFTTypes => "New maximum number of NFT types must be greater than the current maximum"@,
            ErrorCode::ArithmeticOverflow => "Arithmetic overflow"@,
            ErrorCode::InvalidMaxNFTTypes => "Invalid maximum number of NFT types (must be between 1 and 10)"@,
            ErrorCode::UnknownNFTType => "Unknown NFT type"@,
            ErrorCode::InconsistentSettlement => "Inconsistent settlement"@,
        }
    }

    /// The words in which this refusal is told to the user.
    pub fn message(&self) -> (m: &'static str)
        ensures
            m@ == self.spec_message(),
    {
        match self {
            ErrorCode::InvalidNFTType => "Invalid NFT type",
            ErrorCode::MaxNFTTypesReached => "Maximum number of NFT types reached",
            ErrorCode::RewardAmountNotSet => "Reward amount not set for this NFT type",
            ErrorCode::EmptyName => "Empty name provided",
            ErrorCode::EmptySymbol => "Empty symbol provided",
            ErrorCode::EmptyURI => "Empty URI provided",
            ErrorCode::InvalidRewardAmount => "Invalid reward amount",
            ErrorCode::InvalidAmount => "Invalid amount",
            ErrorCode::InvalidMetadata => "Invalid metadata",
            ErrorCode::UnauthorizedAccess => "Unauthorized access",
            ErrorCode::InvalidNewMaxNFTTypes => "New maximum number of NFT types must be greater than the current maximum",
            ErrorCode::ArithmeticOverflow => "Arithmetic overflow",
            ErrorCode::InvalidMaxNFTTypes => "Invalid maximum number of NFT types (must be between 1 and 10)",
            ErrorCode::UnknownNFTType => "Unknown NFT type",
            ErrorCode::InconsistentSettlement => "Inconsistent settlement",
        }
    }
}

} // verus!
