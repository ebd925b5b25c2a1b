use vstd::prelude::*;

verus! {

/// Largest supply cap any stablecoin may be configured with; every amount the pool
/// accepts or produces stays at or below it, which keeps all `u128` intermediates exact.
pub const MAX_SUPPLY_CAP: u64 = 100_000_000_000_000_000;

/// Decimals every stablecoin mint (and every pool LP mint) carries.
pub const STABLECOIN_DECIMALS: u8 = 6;

/// Longest accepted metadata name, in bytes.
pub const MAX_NAME_LEN: usize = 32;

/// Longest accepted metadata URI, in bytes.
pub const MAX_URI_LEN: usize = 200;

/// LP tokens minted on the first deposit and locked forever in the pool.
pub const MINIMUM_LIQUIDITY: u64 = 1_000;

/// Highest swap fee a pool may be created with, in basis points.
pub const MAX_FEE_BPS: u16 = 100;

/// Basis-point denominator of the swap fee.
pub const FEE_DENOMINATOR: u128 = 10_000;

} // verus!
