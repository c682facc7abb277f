use vstd::prelude::*;

verus! {

/// Every way an instruction of the gateway can fail.
#[derive(Clone, Copy, Debug, PartialEq, Eq, Structural)]
pub enum ErrorCode {
    /// The gateway is paused: no payment is accepted.
    Paused,
    /// The signer is not the identity that the record names.
    Unauthorized,
    /// The asset paid in is not the merchant's settlement token.
    InvalidToken,
    /// A fee rate above 10000 basis points.
    InvalidFee,
    /// A token payment without a mint.
    MissingMint,
    /// A token payment without one of its three token accounts.
    MissingAccount,
    /// The merchant destination is not the merchant's settlement wallet.
    InvalidMerchantWallet,
    /// The fee destination is not the configured fee wallet.
    InvalidFeeWallet,
    /// A token account of another mint, or a payer token account of another owner.
    InvalidTokenAccount,
    /// The payer holds less than the gross amount.
    InsufficientBalance,
    /// A payment of zero.
    InvalidAmount,
    /// The fee split does not fit the amount.
    CalculationError,
    /// A merchant name of more than 32 bytes.
    NameTooLong,
    /// A payment with this payer and identifier was already recorded.
    DuplicatePayment,
    /// A record that is created once exists already.
    AccountAlreadyInUse,
    /// The record that an instruction reads does not exist.
    AccountNotInitialized,
}

} // verus!
