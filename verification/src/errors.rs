use vstd::prelude::*;

verus! {

/// Failure taxonomy of the validation gate. Every rejected operation yields
/// exactly one of these kinds, identifying the precise violated invariant;
/// none of them is retryable, each reflects a caller input or state violation.
#[derive(Clone, Copy, Debug, PartialEq, Eq, Structural)]
pub enum TokenError {
    /// Amount must be greater than 0.
    InvalidAmount,
    /// Not enough tokens in the source account.
    InsufficientFunds,
    /// The signer does not own the source account.
    InvalidOwner,
    /// Source and destination accounts have different mints.
    MintMismatch,
    /// Minting would exceed the maximum representable supply.
    SupplyOverflow,
    /// The caller is not the relevant authority for the mint.
    Unauthorized,
    /// Account not initialized.
    AccountNotInitialized,
    /// Cannot transfer to the same account.
    InvalidTransfer,
    /// Mint authority cannot be changed.
    MintAuthorityImmutable,
    /// Decimals must be between 0 and 9.
    InvalidDecimals,
    /// The token account is frozen.
    AccountFrozen,
    /// Invalid authority type.
    InvalidAuthorityType,
    /// Authority already set.
    AuthorityAlreadySet,
    /// Cannot burn more tokens than available.
    BurnAmountExceedsBalance,
    /// Program account mismatch.
    ProgramAccountMismatch,
    /// Metadata name cannot be empty.
    InvalidName,
    /// Metadata symbol cannot be empty.
    InvalidSymbol,
    /// Metadata URI too long (max 200 bytes).
    UriTooLong,
    /// Cannot close an account with a remaining balance.
    AccountNotEmpty,
    /// Batch operation limit exceeded (max 10 entries).
    BatchLimitExceeded,
    /// Invalid mint configuration.
    InvalidMintConfig,
}

} // verus!
