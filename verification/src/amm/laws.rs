//! Properties that span the pool instructions.
use vstd::prelude::*;

use crate::amm::errors::AmmError;
use crate::amm::instructions::{
    add_plan_result, directed_reserves, is_solvent, pool_creation_result, remove_plan_result,
    swap_plan_result, SwapPlan,
};
use crate::amm::state::{Pool, SwapDirection};
use crate::constants::MINIMUM_LIQUIDITY;
use crate::pubkey::{key_precedes, Pubkey};
use crate::quote_laws::{
    law_deposit_keeps_value_per_share, law_swap_never_decreases_k, law_swap_output_below_reserve,
    law_withdrawal_keeps_value_per_share, law_withdrawals_within_proportional_share,
};
use crate::stablecoin::state::MintConfig;

verus! {

/// Bytewise order is strict: no two addresses precede each other.
pub proof fn lemma_key_order_is_asymmetric(a: Seq<u8>, b: Seq<u8>)
    requires
        key_precedes(a, b),
    ensures
        !key_precedes(b, a),
{
    let i = choose|i: int|
        0 <= i < a.len() && i < b.len() && a.subrange(0, i) =~= b.subrange(0, i) && #[trigger] a[i]
            < b[i];
    if key_precedes(b, a) {
        let j = choose|j: int|
            0 <= j < b.len() && j < a.len() && b.subrange(0, j) =~= a.subrange(0, j) && #[trigger] b[j]
                < a[j];
        if j < i {
            assert(a.subrange(0, i)[j] == b.subrange(0, i)[j]);
        } else if i < j {
            assert(b.subrange(0, j)[i] == a.subrange(0, j)[i]);
        }
    }
}

/// A mint pair admits a pool in one order only, so each pair has at most one pool.
pub proof fn law_one_pool_order_per_pair(
    mint_a: Pubkey,
    mint_b: Pubkey,
    config_a: MintConfig,
    config_b: MintConfig,
    fee_bps: u16,
    decimals: u8,
)
    requires
        pool_creation_result(mint_a, mint_b, config_a, config_b, fee_bps, decimals, decimals) is Ok,
    ensures
        pool_creation_result(mint_b, mint_a, config_b, config_a, fee_bps, decimals, decimals)
            == Err::<(), AmmError>(AmmError::InvalidMintOrder),
{
    lemma_key_order_is_asymmetric(mint_a@, mint_b@);
}

/// The constant product of a pool's reserves.
pub open spec fn constant_product(pool: Pool) -> int {
    pool.reserve_a * pool.reserve_b
}

/// A planned swap never decreases `k`, moves the reserves by exactly the traded amounts,
/// and leaves every other pool field as it was.
pub proof fn law_swap_plan_never_decreases_k(
    pool: Pool,
    pool_key: Pubkey,
    user: Pubkey,
    config_a: MintConfig,
    config_b: MintConfig,
    vault_a: u64,
    vault_b: u64,
    direction: SwapDirection,
    amount_in: u64,
    min_amount_out: u64,
)
    requires
        swap_plan_result(
            pool,
            pool_key,
            user,
            config_a,
            config_b,
            vault_a,
            vault_b,
            direction,
            amount_in,
            min_amount_out,
        ) is Ok,
    ensures
        ({
            let plan = swap_plan_result(
                pool,
                pool_key,
                user,
                config_a,
                config_b,
                vault_a,
                vault_b,
                direction,
                amount_in,
                min_amount_out,
            )->Ok_0;
            &&& constant_product(plan.pool) >= constant_product(pool)
            &&& plan.amount_out >= min_amount_out
            &&& plan.pool.lp_supply == pool.lp_supply
            &&& plan.pool.fee_bps == pool.fee_bps
            &&& direction == SwapDirection::AtoB ==> plan.pool.reserve_a == pool.reserve_a
                + amount_in && plan.pool.reserve_b == pool.reserve_b - plan.amount_out
            &&& direction == SwapDirection::BtoA ==> plan.pool.reserve_b == pool.reserve_b
                + amount_in && plan.pool.reserve_a == pool.reserve_a - plan.amount_out
        }),
{
    let (reserve_in, reserve_out) = directed_reserves(pool, direction);
    law_swap_never_decreases_k(amount_in, reserve_in, reserve_out, pool.fee_bps);
    law_swap_output_below_reserve(amount_in, reserve_in, reserve_out, pool.fee_bps);
    assert(pool.reserve_a * pool.reserve_b == pool.reserve_b * pool.reserve_a) by (nonlinear_arith);
    let plan = swap_plan_result(
        pool,
        pool_key,
        user,
        config_a,
        config_b,
        vault_a,
        vault_b,
        direction,
        amount_in,
        min_amount_out,
    )->Ok_0;
    assert(plan.pool.reserve_a * plan.pool.reserve_b == plan.pool.reserve_b * plan.pool.reserve_a)
        by (nonlinear_arith);
}

/// A planned swap keeps the vaults backing the reserves once the input arrives and the
/// output leaves.
pub proof fn law_swap_keeps_vaults_solvent(
    pool: Pool,
    pool_key: Pubkey,
    user: Pubkey,
    config_a: MintConfig,
    config_b: MintConfig,
    vault_a: u64,
    vault_b: u64,
    direction: SwapDirection,
    amount_in: u64,
    min_amount_out: u64,
)
    requires
        swap_plan_result(
            pool,
            pool_key,
            user,
            config_a,
            config_b,
            vault_a,
            vault_b,
            direction,
            amount_in,
            min_amount_out,
        ) is Ok,
    ensures
        ({
            let plan = swap_plan_result(
                pool,
                pool_key,
                user,
                config_a,
                config_b,
                vault_a,
                vault_b,
                direction,
                amount_in,
                min_amount_out,
            )->Ok_0;
            direction == SwapDirection::AtoB ==> vault_b >= plan.amount_out
                && plan.pool.reserve_a <= vault_a + amount_in && plan.pool.reserve_b <= vault_b
                - plan.amount_out
        }),
        ({
            let plan = swap_plan_result(
                pool,
                pool_key,
                user,
                config_a,
                config_b,
                vault_a,
                vault_b,
                direction,
                amount_in,
                min_amount_out,
            )->Ok_0;
            direction == SwapDirection::BtoA ==> vault_a >= plan.amount_out
                && plan.pool.reserve_b <= vault_b + amount_in && plan.pool.reserve_a <= vault_a
                - plan.amount_out
        }),
{
    let (reserve_in, reserve_out) = directed_reserves(pool, direction);
    law_swap_output_below_reserve(amount_in, reserve_in, reserve_out, pool.fee_bps);
}

/// A planned withdrawal pays no more than the proportional share, keeps the vaults backing
/// the reserves once the amounts leave, leaves at least the locked minimum of LP supply,
/// and never lowers the value per LP token: `k_new · L_old² ≥ k_old · L_new²`.
pub proof fn law_withdrawal_plan_is_fair_and_solvent(
    pool: Pool,
    pool_key: Pubkey,
    user: Pubkey,
    config_a: MintConfig,
    config_b: MintConfig,
    vault_a: u64,
    vault_b: u64,
    lp_supply: u64,
    locked_lp: u64,
    lp_amount: u64,
    min_a_out: u64,
    min_b_out: u64,
)
    requires
        remove_plan_result(
            pool,
            pool_key,
            user,
            config_a,
            config_b,
            vault_a,
            vault_b,
            lp_supply,
            locked_lp,
            lp_amount,
            min_a_out,
            min_b_out,
        ) is Ok,
    ensures
        ({
            let plan = remove_plan_result(
                pool,
                pool_key,
                user,
                config_a,
                config_b,
                vault_a,
                vault_b,
                lp_supply,
                locked_lp,
                lp_amount,
                min_a_out,
                min_b_out,
            )->Ok_0;
            &&& plan.amount_a >= min_a_out && plan.amount_b >= min_b_out
            &&& plan.amount_a * lp_supply <= lp_amount * pool.reserve_a
            &&& plan.amount_b * lp_supply <= lp_amount * pool.reserve_b
            &&& vault_a >= plan.amount_a && vault_b >= plan.amount_b
            &&& is_solvent(plan.pool, (vault_a - plan.amount_a) as u64, (vault_b - plan.amount_b) as u64)
            &&& plan.pool.lp_supply == lp_supply - lp_amount
            &&& plan.pool.lp_supply >= MINIMUM_LIQUIDITY
            &&& constant_product(plan.pool) * (lp_supply * lp_supply) >= constant_product(pool) * (
            plan.pool.lp_supply * plan.pool.lp_supply)
        }),
{
    law_withdrawals_within_proportional_share(lp_amount, pool.reserve_a, pool.reserve_b, lp_supply);
    law_withdrawal_keeps_value_per_share(lp_amount, pool.reserve_a, pool.reserve_b, lp_supply);
}

/// A planned later deposit takes no more than offered, keeps the vaults backing the
/// reserves once the amounts arrive, and never lowers the value per LP token:
/// `k_new · L_old² ≥ k_old · L_new²`.
pub proof fn law_deposit_plan_is_fair_and_solvent(
    pool: Pool,
    pool_key: Pubkey,
    user: Pubkey,
    config_a: MintConfig,
    config_b: MintConfig,
    vault_a: u64,
    vault_b: u64,
    lp_supply: u64,
    locked_lp: u64,
    amount_a_desired: u64,
    amount_b_desired: u64,
    amount_a_min: u64,
    amount_b_min: u64,
    min_lp_out: u64,
)
    requires
        lp_supply > 0,
        add_plan_result(
            pool,
            pool_key,
            user,
            config_a,
            config_b,
            vault_a,
            vault_b,
            lp_supply,
            locked_lp,
            amount_a_desired,
            amount_b_desired,
            amount_a_min,
            amount_b_min,
            min_lp_out,
        ) is Ok,
    ensures
        ({
            let plan = add_plan_result(
                pool,
                pool_key,
                user,
                config_a,
                config_b,
                vault_a,
                vault_b,
                lp_supply,
                locked_lp,
                amount_a_desired,
                amount_b_desired,
                amount_a_min,
                amount_b_min,
                min_lp_out,
            )->Ok_0;
            &&& amount_a_min <= plan.amount_a <= amount_a_desired
            &&& amount_b_min <= plan.amount_b <= amount_b_desired
            &&& plan.lp_to_user >= min_lp_out
            &&& plan.lp_to_lock == 0
            &&& plan.pool.lp_supply == lp_supply + plan.lp_to_user
            &&& plan.pool.reserve_a <= vault_a + plan.amount_a
            &&& plan.pool.reserve_b <= vault_b + plan.amount_b
            &&& constant_product(plan.pool) * (lp_supply * lp_supply) >= constant_product(pool) * (
            plan.pool.lp_supply * plan.pool.lp_supply)
        }),
{
    crate::quote_laws::law_deposits_never_exceed_desired(
        amount_a_desired,
        amount_b_desired,
        pool.reserve_a,
        pool.reserve_b,
        lp_supply,
    );
    law_deposit_keeps_value_per_share(
        amount_a_desired,
        amount_b_desired,
        pool.reserve_a,
        pool.reserve_b,
        lp_supply,
    );
}

/// The first deposit into an empty pool mints `sqrt(a · b)` LP, locks exactly the minimum
/// of it, and takes both offered amounts in full as the reserves.
pub proof fn law_first_deposit_locks_the_minimum(
    pool: Pool,
    pool_key: Pubkey,
    user: Pubkey,
    config_a: MintConfig,
    config_b: MintConfig,
    vault_a: u64,
    vault_b: u64,
    locked_lp: u64,
    amount_a_desired: u64,
    amount_b_desired: u64,
    amount_a_min: u64,
    amount_b_min: u64,
    min_lp_out: u64,
)
    requires
        add_plan_result(
            pool,
            pool_key,
            user,
            config_a,
            config_b,
            vault_a,
            vault_b,
            0,
            locked_lp,
            amount_a_desired,
            amount_b_desired,
            amount_a_min,
            amount_b_min,
            min_lp_out,
        ) is Ok,
    ensures
        ({
            let plan = add_plan_result(
                pool,
                pool_key,
                user,
                config_a,
                config_b,
                vault_a,
                vault_b,
                0,
                locked_lp,
                amount_a_desired,
                amount_b_desired,
                amount_a_min,
                amount_b_min,
                min_lp_out,
            )->Ok_0;
            &&& plan.lp_to_lock == MINIMUM_LIQUIDITY
            &&& plan.pool.lp_supply == plan.lp_to_user + plan.lp_to_lock
            &&& plan.pool.lp_supply == crate::math::floor_sqrt(amount_a_desired * amount_b_desired)
            &&& plan.amount_a == amount_a_desired && plan.amount_b == amount_b_desired
            &&& plan.pool.reserve_a == amount_a_desired && plan.pool.reserve_b == amount_b_desired
        }),
{
    crate::quote_laws::law_initial_liquidity_locks_the_minimum(amount_a_desired, amount_b_desired);
}

/// The pool's stored LP supply is never read: deposits and withdrawals are planned from the
/// live LP mint supply alone, and a swap carries the stored value through untouched, so LP
/// tokens burned outside the program cannot desynchronise the pool.
pub proof fn law_plans_read_only_the_live_lp_supply(
    pool: Pool,
    stored: u64,
    pool_key: Pubkey,
    user: Pubkey,
    config_a: MintConfig,
    config_b: MintConfig,
    vault_a: u64,
    vault_b: u64,
    lp_supply: u64,
    locked_lp: u64,
    lp_amount: u64,
    min_a_out: u64,
    min_b_out: u64,
    amount_a_desired: u64,
    amount_b_desired: u64,
    amount_a_min: u64,
    amount_b_min: u64,
    min_lp_out: u64,
    direction: SwapDirection,
    amount_in: u64,
    min_amount_out: u64,
)
    ensures
        remove_plan_result(
            Pool { lp_supply: stored, ..pool },
            pool_key,
            user,
            config_a,
            config_b,
            vault_a,
            vault_b,
            lp_supply,
            locked_lp,
            lp_amount,
            min_a_out,
            min_b_out,
        ) == remove_plan_result(
            pool,
            pool_key,
            user,
            config_a,
            config_b,
            vault_a,
            vault_b,
            lp_supply,
            locked_lp,
            lp_amount,
            min_a_out,
            min_b_out,
        ),
        add_plan_result(
            Pool { lp_supply: stored, ..pool },
            pool_key,
            user,
            config_a,
            config_b,
            vault_a,
            vault_b,
            lp_supply,
            locked_lp,
            amount_a_desired,
            amount_b_desired,
            amount_a_min,
            amount_b_min,
            min_lp_out,
        ) == add_plan_result(
            pool,
            pool_key,
            user,
            config_a,
            config_b,
            vault_a,
            vault_b,
            lp_supply,
            locked_lp,
            amount_a_desired,
            amount_b_desired,
            amount_a_min,
            amount_b_min,
            min_lp_out,
        ),
        swap_plan_result(
            Pool { lp_supply: stored, ..pool },
            pool_key,
            user,
            config_a,
            config_b,
            vault_a,
            vault_b,
            direction,
            amount_in,
            min_amount_out,
        ) == (match swap_plan_result(
            pool,
            pool_key,
            user,
            config_a,
            config_b,
            vault_a,
            vault_b,
            direction,
            amount_in,
            min_amount_out,
        ) {
            Ok(plan) => Ok(SwapPlan { pool: Pool { lp_supply: stored, ..plan.pool }, ..plan }),
            Err(error) => Err(error),
        }),
{
}

} // verus!
