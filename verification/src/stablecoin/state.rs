use vstd::prelude::*;

use crate::pubkey::Pubkey;

verus! {

/// Whether a token account may hold and move the stablecoin.
#[derive(Clone, Copy, Debug, PartialEq, Eq, Structural)]
pub enum PolicyStatus {
    Allowed,
    Blocked,
}

impl PolicyStatus {
    pub fn is_blocked(self) -> (blocked: bool)
        ensures
            blocked == (self == PolicyStatus::Blocked),
    {
        match self {
            PolicyStatus::Allowed => false,
            PolicyStatus::Blocked => true,
        }
    }
}

/// Per-mint configuration, held at the config address of the mint.
#[derive(Clone, Copy, Debug, PartialEq, Eq)]
pub struct MintConfig {
    pub admin: Pubkey,
    pub pending_admin: Option<Pubkey>,
    pub compliance_authority: Pubkey,
    pub mint: Pubkey,
    pub symbol: [u8; 8],
    pub decimals: u8,
    pub supply_cap: u64,
    pub total_minted: u128,
    pub total_burned: u128,
    pub paused: bool,
    pub bump: u8,
    pub mint_bump: u8,
}

/// A minter's fixed allowance and what it has issued so far.
#[derive(Clone, Copy, Debug, PartialEq, Eq)]
pub struct MinterRole {
    pub config: Pubkey,
    pub authority: Pubkey,
    pub allowance: u64,
    pub minted: u64,
    pub bump: u8,
}

/// The compliance decision recorded for one token account of one mint.
#[derive(Clone, Copy, Debug, PartialEq, Eq)]
pub struct WalletPolicy {
    pub mint: Pubkey,
    pub token_account: Pubkey,
    pub owner: Pubkey,
    pub status: PolicyStatus,
    pub updated_at: i64,
    pub updated_by: Pubkey,
    pub bump: u8,
}

/// What the programs read of a mint.
#[derive(Clone, Copy, Debug, PartialEq, Eq)]
pub struct MintAccount {
    pub key: Pubkey,
    pub decimals: u8,
    pub supply: u64,
    pub mint_authority: Option<Pubkey>,
    pub freeze_authority: Option<Pubkey>,
}

/// What the programs read of a token account.
#[derive(Clone, Copy, Debug, PartialEq, Eq)]
pub struct TokenAccount {
    pub key: Pubkey,
    pub mint: Pubkey,
    pub owner: Pubkey,
    pub amount: u64,
}

} // verus!
