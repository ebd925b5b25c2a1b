//! Verified core of a permissioned stablecoin issuer and a constant-product pool.
pub mod amm;
pub mod constants;
pub mod funding;
pub mod math;
pub mod pubkey;
pub mod quote_laws;
pub mod stablecoin;
pub mod token2022;
