use vstd::prelude::*;

verus! {

/// Why an operation of the collection was refused.
#[derive(Debug, Clone, PartialEq, Eq)]
pub enum ContractError {
    /// the caller lacks the role the operation needs
    Unauthorized,
    /// the item left the creator's inventory already
    Claimed,
    /// the minting window has not opened
    CantMintYet,
    /// the minting window has closed
    MintEnded,
    /// a mint of zero items was requested
    MintZero,
    /// more items were requested than one batch may mint
    MintAmountLargerThanAllowed,
    TokenNotFound { token_id: u128 },
    TokenNotPledged { token_id: u128 },
    TokenPledged { token_id: u128 },
    ContractFrozen,
    ContractPaused,
    /// the supply cap is reached
    MaxTokenSupply,
    /// every pre-allocated item is minted
    MaxTokens,
    RequestTooLarge { size: usize },
    RequestTooSmall { size: usize },
    NotEnoughFunds,
    /// more was sent than the price
    IncorrectFunds,
    TooManyDenoms,
    NoFundsSent,
    /// the coin sent is not of the configured denomination
    WrongToken,
    /// an item named in a batch does not exist
    DontExists,
    /// nothing was pre-allocated
    CantMintNothing,
    /// the inventory total would overflow
    CantUpdateTotal,
    MigrationSameVersion { version: String },
    /// the id a store would use holds an item or a tombstone already
    TokenExists { token_id: u128 },
    /// an approval or grant would expire at once
    Expired,
    /// a row of trait values does not match the template's trait names
    AttributeCountMismatch { expected: usize, found: usize },
}

} // verus!
