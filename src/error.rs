use vstd::prelude::*;

verus! {

/// Every way a request against the escrow ledger can fail.
///
/// Any error aborts the whole request: no lockbox is changed and no transfer
/// is emitted.
#[derive(Clone, Copy, Debug, PartialEq, Eq, Structural)]
pub enum ContractError {
    /// The referenced lockbox id does not exist.
    NotFound {},
    /// The caller is not entitled to the operation, or the lockbox's funding
    /// configuration is self-contradictory.
    Unauthorized {},
    /// The expiration schedule has already fired.
    LockBoxExpired {},
    /// A claim was attempted before the expiration schedule fired.
    LockBoxNotExpired {},
    /// A native deposit was attempted on a token-funded lockbox.
    CW20TokensRequired {},
    /// The contract's own balance cannot cover a native payout.
    InsufficientFunds {},
    /// The lockbox has been revoked.
    LockBoxReset {},
    /// Funding mode missing or ambiguous, or a deposit of the wrong currency.
    DenomNotSupported {},
    /// A claim was attempted before the lockbox was fully funded.
    DepositClaimImbalance {},
    /// The claimant has already been paid.
    AlreadyClaimed {},
    /// A message for a token ledger could not be encoded.
    Std {},
    /// An amount left the range of a 128-bit unsigned integer: a deposit
    /// above the outstanding total, or claim amounts whose sum overflows.
    ArithmeticFault {},
}

} // verus!
