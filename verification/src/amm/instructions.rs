//! The decisions of each pool instruction: which accounts are acceptable, what is
//! quoted, and what the pool stores afterwards. Token movements happen between a plan
//! and the checks made on the reloaded accounts.
use vstd::prelude::*;

use crate::amm::errors::{amm_error_of, AmmError};
use crate::amm::events::{LiquidityAdded, LiquidityRemoved, PoolInitialized, SwapExecuted};
use crate::amm::state::{Pool, SwapDirection};
use crate::constants::{MAX_FEE_BPS, MINIMUM_LIQUIDITY, STABLECOIN_DECIMALS};
use crate::math::{
    add_liquidity_result, initial_liquidity_result, quote_add_liquidity, quote_initial_liquidity,
    quote_remove_liquidity, quote_swap, remove_liquidity_result, swap_result,
};
use crate::pubkey::{key_precedes, Pubkey};
use crate::quote_laws::law_swap_never_decreases_k;
use crate::stablecoin::state::{MintAccount, MintConfig, PolicyStatus, TokenAccount};

verus! {

// ---------------------------------------------------------------------------
// Shared checks
// ---------------------------------------------------------------------------

/// Neither stablecoin of the pair is paused.
pub fn ensure_unpaused(config_a: &MintConfig, config_b: &MintConfig) -> (result: Result<(), AmmError>)
    ensures
        result == (if config_a.paused || config_b.paused {
            Err::<(), AmmError>(AmmError::ProtocolPaused)
        } else {
            Ok(())
        }),
{
    if config_a.paused || config_b.paused {
        return Err(AmmError::ProtocolPaused);
    }
    Ok(())
}

/// Stored reserves are backed by the vaults; donated surplus above them is ignored.
pub open spec fn is_solvent(pool: Pool, vault_a: u64, vault_b: u64) -> bool {
    vault_a >= pool.reserve_a && vault_b >= pool.reserve_b
}

/// Vaults may hold donated surplus, so solvency is one-sided: stored reserves must be
/// backed, while any excess is ignored by the pool.
pub fn ensure_solvent(pool: &Pool, vault_a: u64, vault_b: u64) -> (result: Result<(), AmmError>)
    ensures
        result == (if is_solvent(*pool, vault_a, vault_b) {
            Ok(())
        } else {
            Err::<(), AmmError>(AmmError::VaultBalanceInvariant)
        }),
{
    if !(vault_a >= pool.reserve_a && vault_b >= pool.reserve_b) {
        return Err(AmmError::VaultBalanceInvariant);
    }
    Ok(())
}

pub open spec fn seeded_result(pool: Pool, lp_supply: u64, locked_lp: u64) -> Result<(), AmmError> {
    if !(pool.reserve_a > 0 && pool.reserve_b > 0 && lp_supply >= MINIMUM_LIQUIDITY) {
        Err(AmmError::InvalidLiquidityState)
    } else if !(locked_lp >= MINIMUM_LIQUIDITY && locked_lp <= lp_supply) {
        Err(AmmError::LockedLiquidityInvariant)
    } else {
        Ok(())
    }
}

/// The pool holds liquidity, and the locked LP balance lies between the minted minimum
/// and the live supply (anyone can send LP tokens to the locked account, so it is bounded
/// rather than fixed).
pub fn ensure_seeded(pool: &Pool, lp_supply: u64, locked_lp: u64) -> (result: Result<(), AmmError>)
    ensures
        result == seeded_result(*pool, lp_supply, locked_lp),
{
    if !(pool.reserve_a > 0 && pool.reserve_b > 0 && lp_supply >= MINIMUM_LIQUIDITY) {
        return Err(AmmError::InvalidLiquidityState);
    }
    if !(locked_lp >= MINIMUM_LIQUIDITY && locked_lp <= lp_supply) {
        return Err(AmmError::LockedLiquidityInvariant);
    }
    Ok(())
}

/// The live LP supply after an operation is exactly the one it planned.
pub fn confirm_lp_supply(expected: u64, live_supply: u64) -> (result: Result<(), AmmError>)
    ensures
        result == (if live_supply == expected {
            Ok(())
        } else {
            Err::<(), AmmError>(AmmError::LpSupplyInvariant)
        }),
{
    if live_supply != expected {
        return Err(AmmError::LpSupplyInvariant);
    }
    Ok(())
}

pub open spec fn trader_accounts_result(
    pool: Pool,
    config_a: MintConfig,
    config_b: MintConfig,
    user: Pubkey,
    user_a: TokenAccount,
    user_b: TokenAccount,
    user_lp: Option<TokenAccount>,
    policy_a: PolicyStatus,
    policy_b: PolicyStatus,
) -> Result<(), AmmError> {
    if config_a.mint@ != pool.mint_a@ || config_b.mint@ != pool.mint_b@ {
        Err(AmmError::InvalidStablecoinConfig)
    } else if user_a.key@ == pool.vault_a@ {
        Err(AmmError::DuplicateAccount)
    } else if user_a.mint@ != pool.mint_a@ {
        Err(AmmError::TokenAccountMintMismatch)
    } else if user_a.owner@ != user@ {
        Err(AmmError::InvalidTokenOwner)
    } else if user_b.key@ == pool.vault_b@ {
        Err(AmmError::DuplicateAccount)
    } else if user_b.mint@ != pool.mint_b@ {
        Err(AmmError::TokenAccountMintMismatch)
    } else if user_b.owner@ != user@ {
        Err(AmmError::InvalidTokenOwner)
    } else if user_lp matches Some(lp) && lp.key@ == pool.locked_lp@ {
        Err(AmmError::DuplicateAccount)
    } else if user_lp matches Some(lp) && lp.mint@ != pool.lp_mint@ {
        Err(AmmError::TokenAccountMintMismatch)
    } else if user_lp matches Some(lp) && lp.owner@ != user@ {
        Err(AmmError::InvalidTokenOwner)
    } else if policy_a != PolicyStatus::Allowed || policy_b != PolicyStatus::Allowed {
        Err(AmmError::WalletNotAllowed)
    } else {
        Ok(())
    }
}

/// The account rules every value-moving pool instruction applies to its caller: the
/// stablecoin configs describe the pool's mints, the user's token accounts are the user's
/// own, of the right mints and not the pool's, and both are allowed by their wallet policy.
pub fn check_trader_accounts(
    pool: &Pool,
    config_a: &MintConfig,
    config_b: &MintConfig,
    user: &Pubkey,
    user_a: &TokenAccount,
    user_b: &TokenAccount,
    user_lp: Option<&TokenAccount>,
    policy_a: PolicyStatus,
    policy_b: PolicyStatus,
) -> (result: Result<(), AmmError>)
    ensures
        result == trader_accounts_result(
            *pool,
            *config_a,
            *config_b,
            *user,
            *user_a,
            *user_b,
            match user_lp {
                Some(lp) => Some(*lp),
                None => None,
            },
            policy_a,
            policy_b,
        ),
{
    if !config_a.mint.same_as(&pool.mint_a) || !config_b.mint.same_as(&pool.mint_b) {
        return Err(AmmError::InvalidStablecoinConfig);
    }
    if user_a.key.same_as(&pool.vault_a) {
        return Err(AmmError::DuplicateAccount);
    }
    if !user_a.mint.same_as(&pool.mint_a) {
        return Err(AmmError::TokenAccountMintMismatch);
    }
    if !user_a.owner.same_as(user) {
        return Err(AmmError::InvalidTokenOwner);
    }
    if user_b.key.same_as(&pool.vault_b) {
        return Err(AmmError::DuplicateAccount);
    }
    if !user_b.mint.same_as(&pool.mint_b) {
        return Err(AmmError::TokenAccountMintMismatch);
    }
    if !user_b.owner.same_as(user) {
        return Err(AmmError::InvalidTokenOwner);
    }
    if let Some(lp) = user_lp {
        if lp.key.same_as(&pool.locked_lp) {
            return Err(AmmError::DuplicateAccount);
        }
        if !lp.mint.same_as(&pool.lp_mint) {
            return Err(AmmError::TokenAccountMintMismatch);
        }
        if !lp.owner.same_as(user) {
            return Err(AmmError::InvalidTokenOwner);
        }
    }
    if policy_a.is_blocked() || policy_b.is_blocked() {
        return Err(AmmError::WalletNotAllowed);
    }
    Ok(())
}

// ---------------------------------------------------------------------------
// initialize_pool
// ---------------------------------------------------------------------------

pub open spec fn pool_creation_result(
    mint_a: Pubkey,
    mint_b: Pubkey,
    config_a: MintConfig,
    config_b: MintConfig,
    fee_bps: u16,
    decimals_a: u8,
    decimals_b: u8,
) -> Result<(), AmmError> {
    if config_a.mint@ != mint_a@ || config_b.mint@ != mint_b@ {
        Err(AmmError::InvalidStablecoinConfig)
    } else if mint_a@ == mint_b@ {
        Err(AmmError::IdenticalMints)
    } else if !key_precedes(mint_a@, mint_b@) {
        Err(AmmError::InvalidMintOrder)
    } else if fee_bps > MAX_FEE_BPS {
        Err(AmmError::FeeTooHigh)
    } else if !(decimals_a == decimals_b && decimals_a == STABLECOIN_DECIMALS) {
        Err(AmmError::DecimalsMismatch)
    } else {
        Ok(())
    }
}

/// A pool pairs two distinct stablecoin mints given in ascending bytewise order, both with
/// the protocol decimals, at a fee no higher than the maximum.
pub fn validate_pool_creation(
    mint_a: &Pubkey,
    mint_b: &Pubkey,
    config_a: &MintConfig,
    config_b: &MintConfig,
    fee_bps: u16,
    decimals_a: u8,
    decimals_b: u8,
) -> (result: Result<(), AmmError>)
    ensures
        result == pool_creation_result(
            *mint_a,
            *mint_b,
            *config_a,
            *config_b,
            fee_bps,
            decimals_a,
            decimals_b,
        ),
{
    if !config_a.mint.same_as(mint_a) || !config_b.mint.same_as(mint_b) {
        return Err(AmmError::InvalidStablecoinConfig);
    }
    if mint_a.same_as(mint_b) {
        return Err(AmmError::IdenticalMints);
    }
    if !mint_a.precedes(mint_b) {
        return Err(AmmError::InvalidMintOrder);
    }
    if fee_bps > MAX_FEE_BPS {
        return Err(AmmError::FeeTooHigh);
    }
    if !(decimals_a == decimals_b && decimals_a == STABLECOIN_DECIMALS) {
        return Err(AmmError::DecimalsMismatch);
    }
    Ok(())
}

/// The canonical child accounts of a pool and the bumps they were derived with.
#[derive(Clone, Copy, Debug, PartialEq, Eq)]
pub struct PoolAccounts {
    pub pool: Pubkey,
    pub vault_a: Pubkey,
    pub vault_b: Pubkey,
    pub lp_mint: Pubkey,
    pub locked_lp: Pubkey,
    pub bump: u8,
    pub vault_a_bump: u8,
    pub vault_b_bump: u8,
    pub lp_mint_bump: u8,
    pub locked_lp_bump: u8,
}

pub open spec fn fresh_pool(
    mint_a: Pubkey,
    mint_b: Pubkey,
    accounts: PoolAccounts,
    fee_bps: u16,
    decimals: u8,
) -> Pool {
    Pool {
        mint_a,
        mint_b,
        vault_a: accounts.vault_a,
        vault_b: accounts.vault_b,
        lp_mint: accounts.lp_mint,
        locked_lp: accounts.locked_lp,
        reserve_a: 0,
        reserve_b: 0,
        lp_supply: 0,
        fee_bps,
        decimals,
        bump: accounts.bump,
        vault_a_bump: accounts.vault_a_bump,
        vault_b_bump: accounts.vault_b_bump,
        lp_mint_bump: accounts.lp_mint_bump,
        locked_lp_bump: accounts.locked_lp_bump,
    }
}

/// A new pool starts empty: no reserves and no LP supply.
pub fn new_pool(
    mint_a: &Pubkey,
    mint_b: &Pubkey,
    accounts: &PoolAccounts,
    fee_bps: u16,
    decimals: u8,
) -> (result: (Pool, PoolInitialized))
    ensures
        result.0 == fresh_pool(*mint_a, *mint_b, *accounts, fee_bps, decimals),
        result.1 == (PoolInitialized {
            pool: accounts.pool,
            mint_a: *mint_a,
            mint_b: *mint_b,
            lp_mint: accounts.lp_mint,
            fee_bps,
            decimals,
        }),
{
    (
        Pool {
            mint_a: *mint_a,
            mint_b: *mint_b,
            vault_a: accounts.vault_a,
            vault_b: accounts.vault_b,
            lp_mint: accounts.lp_mint,
            locked_lp: accounts.locked_lp,
            reserve_a: 0,
            reserve_b: 0,
            lp_supply: 0,
            fee_bps,
            decimals,
            bump: accounts.bump,
            vault_a_bump: accounts.vault_a_bump,
            vault_b_bump: accounts.vault_b_bump,
            lp_mint_bump: accounts.lp_mint_bump,
            locked_lp_bump: accounts.locked_lp_bump,
        },
        PoolInitialized {
            pool: accounts.pool,
            mint_a: *mint_a,
            mint_b: *mint_b,
            lp_mint: accounts.lp_mint,
            fee_bps,
            decimals,
        },
    )
}

pub open spec fn child_account_result(
    lamports: u64,
    data_len: usize,
    system_owned: bool,
    rent_minimum: u64,
) -> Result<u64, AmmError> {
    if data_len != 0 || !system_owned {
        Err(AmmError::ChildAccountInUse)
    } else if lamports >= rent_minimum {
        Ok(0)
    } else {
        Ok((rent_minimum - lamports) as u64)
    }
}

/// A pool child address may already hold lamports sent ahead of its creation; it is
/// refused only when it is occupied, holding data or belonging to another program.
/// Otherwise the result is what the payer adds to reach `rent_minimum`.
pub fn child_account_top_up(
    lamports: u64,
    data_len: usize,
    system_owned: bool,
    rent_minimum: u64,
) -> (result: Result<u64, AmmError>)
    ensures
        result == child_account_result(lamports, data_len, system_owned, rent_minimum),
        result matches Ok(top_up) ==> lamports + top_up >= rent_minimum,
{
    if data_len != 0 || !system_owned {
        return Err(AmmError::ChildAccountInUse);
    }
    Ok(crate::funding::rent_top_up(lamports, rent_minimum))
}

pub open spec fn pool_children_result(
    pool: Pool,
    pool_key: Pubkey,
    vault_a: TokenAccount,
    vault_b: TokenAccount,
    lp_mint: MintAccount,
    locked_lp: Option<TokenAccount>,
) -> Result<(), AmmError> {
    if vault_a.mint@ != pool.mint_a@ || vault_b.mint@ != pool.mint_b@ {
        Err(AmmError::TokenAccountMintMismatch)
    } else if vault_a.owner@ != pool_key@ || vault_b.owner@ != pool_key@ {
        Err(AmmError::InvalidTokenOwner)
    } else if lp_mint.decimals != pool.decimals {
        Err(AmmError::DecimalsMismatch)
    } else if !(lp_mint.mint_authority matches Some(authority) && authority@ == pool_key@)
        || lp_mint.freeze_authority is Some {
        Err(AmmError::InvalidLiquidityState)
    } else if locked_lp matches Some(locked) && locked.mint@ != pool.lp_mint@ {
        Err(AmmError::TokenAccountMintMismatch)
    } else if locked_lp matches Some(locked) && locked.owner@ != pool_key@ {
        Err(AmmError::InvalidTokenOwner)
    } else {
        Ok(())
    }
}

/// The live contents of the pool's child accounts: both vaults hold the pool's mints and
/// belong to the pool, the LP mint has the pool's decimals, the pool as its only mint
/// authority and no freeze authority, and the locked LP account holds LP tokens for the
/// pool. A corrupted child cannot then be used to move value.
pub fn check_pool_children(
    pool: &Pool,
    pool_key: &Pubkey,
    vault_a: &TokenAccount,
    vault_b: &TokenAccount,
    lp_mint: &MintAccount,
    locked_lp: Option<&TokenAccount>,
) -> (result: Result<(), AmmError>)
    ensures
        result == pool_children_result(
            *pool,
            *pool_key,
            *vault_a,
            *vault_b,
            *lp_mint,
            match locked_lp {
                Some(locked) => Some(*locked),
                None => None,
            },
        ),
{
    if !vault_a.mint.same_as(&pool.mint_a) || !vault_b.mint.same_as(&pool.mint_b) {
        return Err(AmmError::TokenAccountMintMismatch);
    }
    if !vault_a.owner.same_as(pool_key) || !vault_b.owner.same_as(pool_key) {
        return Err(AmmError::InvalidTokenOwner);
    }
    if lp_mint.decimals != pool.decimals {
        return Err(AmmError::DecimalsMismatch);
    }
    let pool_mints = match &lp_mint.mint_authority {
        Some(authority) => authority.same_as(pool_key),
        None => false,
    };
    if !pool_mints || lp_mint.freeze_authority.is_some() {
        return Err(AmmError::InvalidLiquidityState);
    }
    if let Some(locked) = locked_lp {
        if !locked.mint.same_as(&pool.lp_mint) {
            return Err(AmmError::TokenAccountMintMismatch);
        }
        if !locked.owner.same_as(pool_key) {
            return Err(AmmError::InvalidTokenOwner);
        }
    }
    Ok(())
}

// ---------------------------------------------------------------------------
// swap
// ---------------------------------------------------------------------------

/// What a swap moves and what the pool stores afterwards.
#[derive(Clone, Copy, Debug, PartialEq, Eq)]
pub struct SwapPlan {
    pub amount_out: u64,
    pub pool: Pool,
    pub event: SwapExecuted,
}

/// The reserves a swap trades from and into, in that order.
pub open spec fn directed_reserves(pool: Pool, direction: SwapDirection) -> (u64, u64) {
    match direction {
        SwapDirection::AtoB => (pool.reserve_a, pool.reserve_b),
        SwapDirection::BtoA => (pool.reserve_b, pool.reserve_a),
    }
}

pub open spec fn swap_plan_result(
    pool: Pool,
    pool_key: Pubkey,
    user: Pubkey,
    config_a: MintConfig,
    config_b: MintConfig,
    vault_a: u64,
    vault_b: u64,
    direction: SwapDirection,
    amount_in: u64,
    min_amount_out: u64,
) -> Result<SwapPlan, AmmError> {
    let (reserve_in, reserve_out) = directed_reserves(pool, direction);
    if amount_in == 0 {
        Err(AmmError::ZeroAmount)
    } else if config_a.paused || config_b.paused {
        Err(AmmError::ProtocolPaused)
    } else if !is_solvent(pool, vault_a, vault_b) {
        Err(AmmError::VaultBalanceInvariant)
    } else {
        match swap_result(amount_in, reserve_in, reserve_out, pool.fee_bps) {
            Err(error) => Err(amm_error_of(error)),
            Ok(quote) => if quote.amount_out < min_amount_out {
                Err(AmmError::SlippageExceeded)
            } else {
                let (reserve_a, reserve_b) = match direction {
                    SwapDirection::AtoB => (quote.new_reserve_in, quote.new_reserve_out),
                    SwapDirection::BtoA => (quote.new_reserve_out, quote.new_reserve_in),
                };
                Ok(
                    SwapPlan {
                        amount_out: quote.amount_out,
                        pool: Pool { reserve_a, reserve_b, ..pool },
                        event: SwapExecuted {
                            pool: pool_key,
                            user,
                            direction,
                            amount_in,
                            amount_out: quote.amount_out,
                            reserve_a,
                            reserve_b,
                        },
                    },
                )
            },
        }
    }
}

/// Plans a swap of `amount_in` in the given direction, refusing an output below
/// `min_amount_out`. `vault_a` and `vault_b` are the live vault balances.
pub fn plan_swap(
    pool: &Pool,
    pool_key: &Pubkey,
    user: &Pubkey,
    config_a: &MintConfig,
    config_b: &MintConfig,
    vault_a: u64,
    vault_b: u64,
    direction: SwapDirection,
    amount_in: u64,
    min_amount_out: u64,
) -> (result: Result<SwapPlan, AmmError>)
    ensures
        result == swap_plan_result(
            *pool,
            *pool_key,
            *user,
            *config_a,
            *config_b,
            vault_a,
            vault_b,
            direction,
            amount_in,
            min_amount_out,
        ),
{
    if amount_in == 0 {
        return Err(AmmError::ZeroAmount);
    }
    ensure_unpaused(config_a, config_b)?;
    ensure_solvent(pool, vault_a, vault_b)?;

    let (reserve_in, reserve_out) = match direction {
        SwapDirection::AtoB => (pool.reserve_a, pool.reserve_b),
        SwapDirection::BtoA => (pool.reserve_b, pool.reserve_a),
    };
    assert((reserve_in as int) * (reserve_out as int) <= u128::MAX) by (nonlinear_arith)
        requires
            reserve_in <= u64::MAX,
            reserve_out <= u64::MAX,
    ;
    let old_k = (reserve_in as u128).checked_mul(reserve_out as u128).ok_or(
        AmmError::MathOverflow,
    )?;

    let quote = match quote_swap(amount_in, reserve_in, reserve_out, pool.fee_bps) {
        Ok(quote) => quote,
        Err(error) => return Err(AmmError::from(error)),
    };
    if quote.amount_out < min_amount_out {
        return Err(AmmError::SlippageExceeded);
    }

    let (reserve_a, reserve_b) = match direction {
        SwapDirection::AtoB => (quote.new_reserve_in, quote.new_reserve_out),
        SwapDirection::BtoA => (quote.new_reserve_out, quote.new_reserve_in),
    };
    proof {
        law_swap_never_decreases_k(amount_in, reserve_in, reserve_out, pool.fee_bps);
    }
    assert((quote.new_reserve_in as int) * (quote.new_reserve_out as int) <= u128::MAX)
        by (nonlinear_arith)
        requires
            quote.new_reserve_in <= u64::MAX,
            quote.new_reserve_out <= u64::MAX,
    ;
    let new_k = (quote.new_reserve_in as u128).checked_mul(quote.new_reserve_out as u128).ok_or(
        AmmError::MathOverflow,
    )?;
    if new_k < old_k {
        return Err(AmmError::ConstantProductViolation);
    }

    let mut updated = *pool;
    updated.reserve_a = reserve_a;
    updated.reserve_b = reserve_b;
    Ok(
        SwapPlan {
            amount_out: quote.amount_out,
            pool: updated,
            event: SwapExecuted {
                pool: *pool_key,
                user: *user,
                direction,
                amount_in,
                amount_out: quote.amount_out,
                reserve_a,
                reserve_b,
            },
        },
    )
}

// ---------------------------------------------------------------------------
// remove_liquidity
// ---------------------------------------------------------------------------

/// What a withdrawal pays out and what the pool stores afterwards.
#[derive(Clone, Copy, Debug, PartialEq, Eq)]
pub struct RemovePlan {
    pub amount_a: u64,
    pub amount_b: u64,
    pub pool: Pool,
    pub event: LiquidityRemoved,
}

pub open spec fn remove_plan_result(
    pool: Pool,
    pool_key: Pubkey,
    user: Pubkey,
    config_a: MintConfig,
    config_b: MintConfig,
    vault_a: u64,
    vault_b: u64,
    lp_supply: u64,
    locked_lp: u64,
    lp_amount: u64,
    min_a_out: u64,
    min_b_out: u64,
) -> Result<RemovePlan, AmmError> {
    if lp_amount == 0 {
        Err(AmmError::ZeroAmount)
    } else if config_a.paused || config_b.paused {
        Err(AmmError::ProtocolPaused)
    } else if !is_solvent(pool, vault_a, vault_b) {
        Err(AmmError::VaultBalanceInvariant)
    } else if seeded_result(pool, lp_supply, locked_lp) is Err {
        Err(seeded_result(pool, lp_supply, locked_lp)->Err_0)
    } else {
        match remove_liquidity_result(lp_amount, pool.reserve_a, pool.reserve_b, lp_supply) {
            Err(error) => Err(amm_error_of(error)),
            Ok(quote) => if quote.amount_a < min_a_out || quote.amount_b < min_b_out {
                Err(AmmError::SlippageExceeded)
            } else {
                Ok(
                    RemovePlan {
                        amount_a: quote.amount_a,
                        amount_b: quote.amount_b,
                        pool: Pool {
                            reserve_a: quote.new_reserve_a,
                            reserve_b: quote.new_reserve_b,
                            lp_supply: quote.new_lp_supply,
                            ..pool
                        },
                        event: LiquidityRemoved {
                            pool: pool_key,
                            user,
                            lp_burned: lp_amount,
                            amount_a: quote.amount_a,
                            amount_b: quote.amount_b,
                            reserve_a: quote.new_reserve_a,
                            reserve_b: quote.new_reserve_b,
                            lp_supply: quote.new_lp_supply,
                        },
                    },
                )
            },
        }
    }
}


/// Plans burning `lp_amount` LP tokens for the proportional share of both reserves,
/// refusing amounts below the given minimums. `lp_supply` is the live LP mint supply,
/// which is authoritative, and `locked_lp` the balance of the locked account.
pub fn plan_remove_liquidity(
    pool: &Pool,
    pool_key: &Pubkey,
    user: &Pubkey,
    config_a: &MintConfig,
    config_b: &MintConfig,
    vault_a: u64,
    vault_b: u64,
    lp_supply: u64,
    locked_lp: u64,
    lp_amount: u64,
    min_a_out: u64,
    min_b_out: u64,
) -> (result: Result<RemovePlan, AmmError>)
    ensures
        result == remove_plan_result(
            *pool,
            *pool_key,
            *user,
            *config_a,
            *config_b,
            vault_a,
            vault_b,
            lp_supply,
            locked_lp,
            lp_amount,
            min_a_out,
            min_b_out,
        ),
{
    if lp_amount == 0 {
        return Err(AmmError::ZeroAmount);
    }
    ensure_unpaused(config_a, config_b)?;
    ensure_solvent(pool, vault_a, vault_b)?;
    ensure_seeded(pool, lp_supply, locked_lp)?;

    let quote = match quote_remove_liquidity(lp_amount, pool.reserve_a, pool.reserve_b, lp_supply) {
        Ok(quote) => quote,
        Err(error) => return Err(AmmError::from(error)),
    };
    if quote.amount_a < min_a_out || quote.amount_b < min_b_out {
        return Err(AmmError::SlippageExceeded);
    }

    let mut updated = *pool;
    updated.reserve_a = quote.new_reserve_a;
    updated.reserve_b = quote.new_reserve_b;
    updated.lp_supply = quote.new_lp_supply;
    Ok(
        RemovePlan {
            amount_a: quote.amount_a,
            amount_b: quote.amount_b,
            pool: updated,
            event: LiquidityRemoved {
                pool: *pool_key,
                user: *user,
                lp_burned: lp_amount,
                amount_a: quote.amount_a,
                amount_b: quote.amount_b,
                reserve_a: quote.new_reserve_a,
                reserve_b: quote.new_reserve_b,
                lp_supply: quote.new_lp_supply,
            },
        },
    )
}

// ---------------------------------------------------------------------------
// add_liquidity
// ---------------------------------------------------------------------------

/// What a deposit takes, what it mints (to the user and into the locked account) and
/// what the pool stores afterwards.
#[derive(Clone, Copy, Debug, PartialEq, Eq)]
pub struct AddPlan {
    pub amount_a: u64,
    pub amount_b: u64,
    pub lp_to_user: u64,
    pub lp_to_lock: u64,
    pub pool: Pool,
    pub event: LiquidityAdded,
}

pub open spec fn added_plan(
    pool: Pool,
    pool_key: Pubkey,
    user: Pubkey,
    amount_a: u64,
    amount_b: u64,
    lp_to_user: u64,
    lp_to_lock: u64,
    reserve_a: u64,
    reserve_b: u64,
    lp_supply: u64,
) -> AddPlan {
    AddPlan {
        amount_a,
        amount_b,
        lp_to_user,
        lp_to_lock,
        pool: Pool { reserve_a, reserve_b, lp_supply, ..pool },
        event: LiquidityAdded {
            pool: pool_key,
            user,
            amount_a,
            amount_b,
            lp_minted: lp_to_user,
            reserve_a,
            reserve_b,
            lp_supply,
        },
    }
}

pub open spec fn add_plan_result(
    pool: Pool,
    pool_key: Pubkey,
    user: Pubkey,
    config_a: MintConfig,
    config_b: MintConfig,
    vault_a: u64,
    vault_b: u64,
    lp_supply: u64,
    locked_lp: u64,
    amount_a_desired: u64,
    amount_b_desired: u64,
    amount_a_min: u64,
    amount_b_min: u64,
    min_lp_out: u64,
) -> Result<AddPlan, AmmError> {
    if amount_a_desired == 0 || amount_b_desired == 0 {
        Err(AmmError::ZeroAmount)
    } else if config_a.paused || config_b.paused {
        Err(AmmError::ProtocolPaused)
    } else if !is_solvent(pool, vault_a, vault_b) {
        Err(AmmError::VaultBalanceInvariant)
    } else if lp_supply == 0 {
        if pool.reserve_a != 0 || pool.reserve_b != 0 {
            Err(AmmError::InvalidLiquidityState)
        } else {
            match initial_liquidity_result(amount_a_desired, amount_b_desired) {
                Err(error) => Err(amm_error_of(error)),
                Ok(quote) => if amount_a_desired < amount_a_min || amount_b_desired < amount_b_min
                    || quote.lp_to_user < min_lp_out {
                    Err(AmmError::SlippageExceeded)
                } else {
                    Ok(
                        added_plan(
                            pool,
                            pool_key,
                            user,
                            amount_a_desired,
                            amount_b_desired,
                            quote.lp_to_user,
                            quote.lp_to_lock,
                            amount_a_desired,
                            amount_b_desired,
                            (quote.lp_to_user + quote.lp_to_lock) as u64,
                        ),
                    )
                },
            }
        }
    } else if seeded_result(pool, lp_supply, locked_lp) is Err {
        Err(seeded_result(pool, lp_supply, locked_lp)->Err_0)
    } else {
        match add_liquidity_result(
            amount_a_desired,
            amount_b_desired,
            pool.reserve_a,
            pool.reserve_b,
            lp_supply,
        ) {
            Err(error) => Err(amm_error_of(error)),
            Ok(quote) => if quote.amount_a < amount_a_min || quote.amount_b < amount_b_min
                || quote.lp_minted < min_lp_out {
                Err(AmmError::SlippageExceeded)
            } else {
                Ok(
                    added_plan(
                        pool,
                        pool_key,
                        user,
                        quote.amount_a,
                        quote.amount_b,
                        quote.lp_minted,
                        0,
                        quote.new_reserve_a,
                        quote.new_reserve_b,
                        quote.new_lp_supply,
                    ),
                )
            },
        }
    }
}

/// Plans a deposit. Into an empty pool it takes both desired amounts, mints `sqrt(a · b)`
/// LP and locks the minimum of it; otherwise it takes the ratio-matching amounts and mints
/// the smaller proportional share. Each bound (`amount_a_min`, `amount_b_min`,
/// `min_lp_out`) refuses the deposit when the quote falls below it.
pub fn plan_add_liquidity(
    pool: &Pool,
    pool_key: &Pubkey,
    user: &Pubkey,
    config_a: &MintConfig,
    config_b: &MintConfig,
    vault_a: u64,
    vault_b: u64,
    lp_supply: u64,
    locked_lp: u64,
    amount_a_desired: u64,
    amount_b_desired: u64,
    amount_a_min: u64,
    amount_b_min: u64,
    min_lp_out: u64,
) -> (result: Result<AddPlan, AmmError>)
    ensures
        result == add_plan_result(
            *pool,
            *pool_key,
            *user,
            *config_a,
            *config_b,
            vault_a,
            vault_b,
            lp_supply,
            locked_lp,
            amount_a_desired,
            amount_b_desired,
            amount_a_min,
            amount_b_min,
            min_lp_out,
        ),
{
    if amount_a_desired == 0 || amount_b_desired == 0 {
        return Err(AmmError::ZeroAmount);
    }
    ensure_unpaused(config_a, config_b)?;
    ensure_solvent(pool, vault_a, vault_b)?;

    let (amount_a, amount_b, lp_to_user, lp_to_lock, reserve_a, reserve_b, new_lp_supply) =
        if lp_supply == 0 {
        if pool.reserve_a != 0 || pool.reserve_b != 0 {
            return Err(AmmError::InvalidLiquidityState);
        }
        let quote = match quote_initial_liquidity(amount_a_desired, amount_b_desired) {
            Ok(quote) => quote,
            Err(error) => return Err(AmmError::from(error)),
        };
        if amount_a_desired < amount_a_min || amount_b_desired < amount_b_min || quote.lp_to_user
            < min_lp_out {
            return Err(AmmError::SlippageExceeded);
        }
        proof {
            crate::quote_laws::law_initial_liquidity_locks_the_minimum(
                amount_a_desired,
                amount_b_desired,
            );
        }
        assert(quote.lp_to_user + quote.lp_to_lock <= u64::MAX);
        (
            amount_a_desired,
            amount_b_desired,
            quote.lp_to_user,
            quote.lp_to_lock,
            amount_a_desired,
            amount_b_desired,
            quote.lp_to_user + quote.lp_to_lock,
        )
    } else {
        ensure_seeded(pool, lp_supply, locked_lp)?;
        let quote = match quote_add_liquidity(
            amount_a_desired,
            amount_b_desired,
            pool.reserve_a,
            pool.reserve_b,
            lp_supply,
        ) {
            Ok(quote) => quote,
            Err(error) => return Err(AmmError::from(error)),
        };
        if quote.amount_a < amount_a_min || quote.amount_b < amount_b_min || quote.lp_minted
            < min_lp_out {
            return Err(AmmError::SlippageExceeded);
        }
        (
            quote.amount_a,
            quote.amount_b,
            quote.lp_minted,
            0,
            quote.new_reserve_a,
            quote.new_reserve_b,
            quote.new_lp_supply,
        )
    };

    let mut updated = *pool;
    updated.reserve_a = reserve_a;
    updated.reserve_b = reserve_b;
    updated.lp_supply = new_lp_supply;
    Ok(
        AddPlan {
            amount_a,
            amount_b,
            lp_to_user,
            lp_to_lock,
            pool: updated,
            event: LiquidityAdded {
                pool: *pool_key,
                user: *user,
                amount_a,
                amount_b,
                lp_minted: lp_to_user,
                reserve_a,
                reserve_b,
                lp_supply: new_lp_supply,
            },
        },
    )
}

} // verus!
