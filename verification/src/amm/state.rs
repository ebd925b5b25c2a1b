use vstd::prelude::*;

use crate::pubkey::Pubkey;

verus! {

/// One pool per ordered mint pair, holding both vaults, the LP mint and the locked LP.
#[derive(Clone, Copy, Debug, PartialEq, Eq)]
pub struct Pool {
    pub mint_a: Pubkey,
    pub mint_b: Pubkey,
    pub vault_a: Pubkey,
    pub vault_b: Pubkey,
    pub lp_mint: Pubkey,
    pub locked_lp: Pubkey,
    pub reserve_a: u64,
    pub reserve_b: u64,
    pub lp_supply: u64,
    pub fee_bps: u16,
    pub decimals: u8,
    pub bump: u8,
    pub vault_a_bump: u8,
    pub vault_b_bump: u8,
    pub lp_mint_bump: u8,
    pub locked_lp_bump: u8,
}

#[derive(Clone, Copy, Debug, PartialEq, Eq, Structural)]
pub enum SwapDirection {
    AtoB,
    BtoA,
}

} // verus!
