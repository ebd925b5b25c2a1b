use vstd::prelude::*;

verus! {

/// Reasons a stablecoin instruction is refused. New variants go at the end so that
/// existing error numbers never shift.
#[derive(Clone, Copy, Debug, PartialEq, Eq, Structural)]
pub enum StablecoinError {
    UnsupportedDecimals,
    ZeroSupplyCap,
    SupplyCapTooLarge,
    InvalidSymbol,
    InvalidName,
    InvalidUri,
    MathOverflow,
    MintNotRentExempt,
    Unauthorized,
    ZeroAmount,
    InvalidAuthority,
    ZeroAllowance,
    AllowanceExceeded,
    SupplyCapExceeded,
    WalletNotAllowed,
    ProtocolPaused,
    CounterInvariantViolation,
    TokenAccountMintMismatch,
    PolicyStateMismatch,
    NoPendingAdmin,
    NoConfigChange,
    SupplyCapBelowSupply,
    InvalidPendingAdmin,
    PauseStateDrift,
    PauseStateUnchanged,
}

} // verus!
