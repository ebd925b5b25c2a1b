use vstd::prelude::*;
use vstd::std_specs::convert::FromSpecImpl;

use crate::math::MathError;

verus! {

/// Reasons a pool instruction is refused. New variants go at the end so that existing
/// error numbers never shift.
#[derive(Clone, Copy, Debug, PartialEq, Eq, Structural)]
pub enum AmmError {
    IdenticalMints,
    InvalidMintOrder,
    FeeTooHigh,
    DecimalsMismatch,
    UnsupportedMintExtension,
    InvalidStablecoinConfig,
    ProtocolPaused,
    WalletNotAllowed,
    SlippageExceeded,
    VaultBalanceInvariant,
    LpSupplyInvariant,
    LockedLiquidityInvariant,
    ChildAccountInUse,
    DuplicateAccount,
    TokenAccountMintMismatch,
    InvalidTokenOwner,
    ConstantProductViolation,
    ZeroAmount,
    InvalidFee,
    InsufficientLiquidity,
    InsufficientInitialLiquidity,
    ZeroOutput,
    InvalidLiquidityState,
    ValueOutOfRange,
    MathOverflow,
}

/// Each arithmetic refusal keeps its name as a pool error.
pub open spec fn amm_error_of(error: MathError) -> AmmError {
    match error {
        MathError::ZeroAmount => AmmError::ZeroAmount,
        MathError::InvalidFee => AmmError::InvalidFee,
        MathError::InsufficientLiquidity => AmmError::InsufficientLiquidity,
        MathError::InsufficientInitialLiquidity => AmmError::InsufficientInitialLiquidity,
        MathError::ZeroOutput => AmmError::ZeroOutput,
        MathError::InvalidLiquidityState => AmmError::InvalidLiquidityState,
        MathError::ValueOutOfRange => AmmError::ValueOutOfRange,
        MathError::MathOverflow => AmmError::MathOverflow,
    }
}

impl From<MathError> for AmmError {
    fn from(error: MathError) -> (converted: Self) {
        match error {
            MathError::ZeroAmount => Self::ZeroAmount,
            MathError::InvalidFee => Self::InvalidFee,
            MathError::InsufficientLiquidity => Self::InsufficientLiquidity,
            MathError::InsufficientInitialLiquidity => Self::InsufficientInitialLiquidity,
            MathError::ZeroOutput => Self::ZeroOutput,
            MathError::InvalidLiquidityState => Self::InvalidLiquidityState,
            MathError::ValueOutOfRange => Self::ValueOutOfRange,
            MathError::MathOverflow => Self::MathOverflow,
        }
    }
}

impl FromSpecImpl<MathError> for AmmError {
    open spec fn obeys_from_spec() -> bool {
        true
    }

    open spec fn from_spec(error: MathError) -> AmmError {
        amm_error_of(error)
    }
}

} // verus!
