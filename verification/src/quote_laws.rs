//! Properties of the quotes that hold for every input, proved over their exact results.
use vstd::prelude::*;
use vstd::arithmetic::div_mod::{lemma_fundamental_div_mod, lemma_mod_pos_bound};

use crate::constants::{FEE_DENOMINATOR, MAX_FEE_BPS, MAX_SUPPLY_CAP, MINIMUM_LIQUIDITY};
use crate::math::{
    add_liquidity_result, ceil_quotient, deposit_amounts, floor_sqrt, initial_liquidity_result,
    is_floor_sqrt, lemma_ceil_quotient_bound, lemma_swap_output_keeps_k, remove_liquidity_result,
    swap_output, swap_result, MathError,
};

verus! {

proof fn floor_div_facts(n: int, d: int)
    requires
        n >= 0,
        d > 0,
    ensures
        0 <= n / d,
        (n / d) * d <= n,
        n < (n / d + 1) * d,
{
    lemma_fundamental_div_mod(n, d);
    lemma_mod_pos_bound(n, d);
    assert(0 <= n / d && (n / d) * d <= n && n < (n / d + 1) * d) by (nonlinear_arith)
        requires
            n == d * (n / d) + n % d,
            0 <= n % d < d,
            n >= 0,
    ;
}

/// `ceil_div` never rounds down, and it exceeds the floor quotient by at most one.
pub proof fn law_ceil_div_rounds_up(numerator: u128, denominator: u128)
    requires
        denominator > 0,
    ensures
        ceil_quotient(numerator as int, denominator as int) * denominator >= numerator,
        ceil_quotient(numerator as int, denominator as int) == numerator / denominator
            || ceil_quotient(numerator as int, denominator as int) == numerator / denominator + 1,
        numerator % denominator == 0 ==> ceil_quotient(numerator as int, denominator as int)
            == numerator / denominator,
{
    lemma_ceil_quotient_bound(numerator as int, denominator as int, 0);
}

/// A successful swap pays out strictly less than the output reserve, and the new
/// reserves are the old ones moved by exactly the traded amounts.
pub proof fn law_swap_output_below_reserve(
    amount_in: u64,
    reserve_in: u64,
    reserve_out: u64,
    fee_bps: u16,
)
    requires
        swap_result(amount_in, reserve_in, reserve_out, fee_bps) is Ok,
    ensures
        ({
            let quote = swap_result(amount_in, reserve_in, reserve_out, fee_bps)->Ok_0;
            &&& quote.amount_out < reserve_out
            &&& quote.new_reserve_out == reserve_out - quote.amount_out
            &&& quote.new_reserve_in == reserve_in + amount_in
        }),
{
    lemma_swap_output_keeps_k(
        amount_in as int,
        reserve_in as int,
        reserve_out as int,
        10_000 - fee_bps,
    );
}

/// A successful swap never decreases the constant product `k`.
pub proof fn law_swap_never_decreases_k(
    amount_in: u64,
    reserve_in: u64,
    reserve_out: u64,
    fee_bps: u16,
)
    requires
        swap_result(amount_in, reserve_in, reserve_out, fee_bps) is Ok,
    ensures
        ({
            let quote = swap_result(amount_in, reserve_in, reserve_out, fee_bps)->Ok_0;
            quote.new_reserve_in * quote.new_reserve_out >= reserve_in * reserve_out
        }),
{
    lemma_swap_output_keeps_k(
        amount_in as int,
        reserve_in as int,
        reserve_out as int,
        10_000 - fee_bps,
    );
}

/// A larger swap never receives a better price than the smaller swap's exact, unrounded
/// price `(smaller · f · reserve_out) / (reserve_in · 10000 + smaller · f) / smaller`, where
/// `f = 10000 − fee_bps`; hence `out_large / larger < (out_small + 1) / smaller`.
pub proof fn law_larger_swaps_never_get_a_better_price(
    smaller: u64,
    larger: u64,
    reserve_in: u64,
    reserve_out: u64,
    fee_bps: u16,
)
    requires
        smaller < larger,
        swap_result(smaller, reserve_in, reserve_out, fee_bps) is Ok,
        swap_result(larger, reserve_in, reserve_out, fee_bps) is Ok,
    ensures
        ({
            let small = swap_result(smaller, reserve_in, reserve_out, fee_bps)->Ok_0;
            let large = swap_result(larger, reserve_in, reserve_out, fee_bps)->Ok_0;
            let fee_free = FEE_DENOMINATOR - fee_bps;
            &&& large.amount_out * smaller * (reserve_in * FEE_DENOMINATOR + smaller * fee_free)
                <= larger * (smaller * fee_free * reserve_out)
            &&& large.amount_out * smaller < (small.amount_out + 1) * larger
        }),
{
    let m: int = 10_000 - fee_bps;
    let r = reserve_out as int;
    let s = reserve_in * 10_000;
    let a1 = smaller as int;
    let a2 = larger as int;
    let d1 = s + a1 * m;
    let d2 = s + a2 * m;
    let n1 = a1 * m * r;
    let n2 = a2 * m * r;
    assert(a1 * m >= 1 && a2 * m >= a1 * m) by (nonlinear_arith)
        requires
            1 <= a1 < a2,
            m >= 1,
    ;
    assert(n1 >= 0 && n2 >= 0) by (nonlinear_arith)
        requires
            a1 * m >= 1,
            a2 * m >= 1,
            r >= 1,
            n1 == a1 * m * r,
            n2 == a2 * m * r,
    ;
    floor_div_facts(n1, d1);
    floor_div_facts(n2, d2);
    let o1 = n1 / d1;
    let o2 = n2 / d2;
    lemma_swap_output_keeps_k(a1, reserve_in as int, r, m);
    lemma_swap_output_keeps_k(a2, reserve_in as int, r, m);
    assert(o1 == swap_output(a1, reserve_in as int, r, fee_bps as int));
    assert(o2 == swap_output(a2, reserve_in as int, r, fee_bps as int));
    assert(a1 * o2 * d1 <= a1 * o2 * d2) by (nonlinear_arith)
        requires
            d1 <= d2,
            a1 >= 0,
            o2 >= 0,
    ;
    assert(a1 * (o2 * d2) <= a1 * n2) by (nonlinear_arith)
        requires
            o2 * d2 <= n2,
            a1 >= 0,
    ;
    assert(a1 * n2 == a2 * n1) by (nonlinear_arith)
        requires
            n1 == a1 * m * r,
            n2 == a2 * m * r,
    ;
    assert(a2 * n1 < a2 * ((o1 + 1) * d1)) by (nonlinear_arith)
        requires
            n1 < (o1 + 1) * d1,
            a2 >= 1,
    ;
    assert(o2 * a1 * d1 <= a2 * n1) by (nonlinear_arith)
        requires
            a1 * o2 * d1 <= a1 * o2 * d2,
            a1 * (o2 * d2) <= a1 * n2,
            a1 * n2 == a2 * n1,
    ;
    assert(o2 * a1 < (o1 + 1) * a2) by (nonlinear_arith)
        requires
            a1 * o2 * d1 <= a1 * o2 * d2,
            a1 * (o2 * d2) <= a1 * n2,
            a1 * n2 == a2 * n1,
            a2 * n1 < a2 * ((o1 + 1) * d1),
            d1 > 0,
    ;
}

/// Swapping and immediately swapping the output back never returns more than was put in.
pub proof fn law_round_trip_never_profits(
    amount_in: u64,
    reserve_in: u64,
    reserve_out: u64,
    fee_bps: u16,
)
    requires
        swap_result(amount_in, reserve_in, reserve_out, fee_bps) is Ok,
        ({
            let forward = swap_result(amount_in, reserve_in, reserve_out, fee_bps)->Ok_0;
            swap_result(
                forward.amount_out,
                forward.new_reserve_out,
                forward.new_reserve_in,
                fee_bps,
            ) is Ok
        }),
    ensures
        ({
            let forward = swap_result(amount_in, reserve_in, reserve_out, fee_bps)->Ok_0;
            let back = swap_result(
                forward.amount_out,
                forward.new_reserve_out,
                forward.new_reserve_in,
                fee_bps,
            )->Ok_0;
            back.amount_out <= amount_in
        }),
{
    let forward = swap_result(amount_in, reserve_in, reserve_out, fee_bps)->Ok_0;
    let m: int = 10_000 - fee_bps;
    let a = amount_in as int;
    let ri = reserve_in as int;
    let ro = reserve_out as int;
    lemma_swap_output_keeps_k(a, ri, ro, m);
    let o1 = forward.amount_out as int;
    // o1 · (ri + a) <= a · ro, the forward leg's fee-free bound.
    assert(o1 * (ri + a) <= a * ro);
    let back_in = o1;
    let back_reserve_in = ro - o1;
    let back_reserve_out = ri + a;
    let d2 = back_reserve_in * 10_000 + back_in * m;
    let n2 = back_in * m * back_reserve_out;
    assert(d2 > 0 && n2 >= 0) by (nonlinear_arith)
        requires
            back_reserve_in >= 1,
            back_in >= 1,
            m >= 1,
            back_reserve_out >= 1,
            d2 == back_reserve_in * 10_000 + back_in * m,
            n2 == back_in * m * back_reserve_out,
    ;
    floor_div_facts(n2, d2);
    let o2 = n2 / d2;
    assert(o2 == swap_output(back_in, back_reserve_in, back_reserve_out, fee_bps as int));
    // n2 <= a · d2 because o1 · (m · ri + 10000 · a) <= 10000 · a · ro.
    assert(o1 * (m * ri + 10_000 * a) <= 10_000 * (a * ro)) by (nonlinear_arith)
        requires
            o1 * (ri + a) <= a * ro,
            1 <= m <= 10_000,
            o1 >= 0,
            ri >= 0,
            a >= 0,
    ;
    assert(n2 <= a * d2) by (nonlinear_arith)
        requires
            o1 * (m * ri + 10_000 * a) <= 10_000 * (a * ro),
            n2 == o1 * m * (ri + a),
            d2 == (ro - o1) * 10_000 + o1 * m,
    ;
    assert(o2 <= a) by (nonlinear_arith)
        requires
            o2 * d2 <= n2,
            n2 <= a * d2,
            d2 > 0,
    ;
}

/// The first deposit mints exactly `floor(sqrt(a · b))` LP tokens and locks exactly the minimum.
pub proof fn law_initial_liquidity_locks_the_minimum(amount_a: u64, amount_b: u64)
    requires
        initial_liquidity_result(amount_a, amount_b) is Ok,
    ensures
        ({
            let quote = initial_liquidity_result(amount_a, amount_b)->Ok_0;
            &&& quote.lp_to_lock == MINIMUM_LIQUIDITY
            &&& quote.lp_to_user + quote.lp_to_lock == floor_sqrt(amount_a * amount_b)
            &&& quote.lp_to_user + quote.lp_to_lock <= MAX_SUPPLY_CAP
            &&& is_floor_sqrt(amount_a * amount_b, quote.lp_to_user + quote.lp_to_lock)
        }),
{
    let n = amount_a * amount_b;
    assert(n >= 0) by (nonlinear_arith)
        requires
            amount_a >= 0,
            amount_b >= 0,
            n == amount_a * amount_b,
    ;
    crate::math::lemma_floor_sqrt_exists(n);
    let root = floor_sqrt(n);
    if root > MAX_SUPPLY_CAP {
        crate::math::lemma_square_monotonic(MAX_SUPPLY_CAP + 1, root);
        assert(n <= MAX_SUPPLY_CAP * MAX_SUPPLY_CAP) by (nonlinear_arith)
            requires
                n == amount_a * amount_b,
                0 <= amount_a <= MAX_SUPPLY_CAP,
                0 <= amount_b <= MAX_SUPPLY_CAP,
        ;
        assert((MAX_SUPPLY_CAP + 1) * (MAX_SUPPLY_CAP + 1) > MAX_SUPPLY_CAP * MAX_SUPPLY_CAP)
            by (nonlinear_arith);
    }
}

/// A later deposit never takes more than the depositor offered of either side.
pub proof fn law_deposits_never_exceed_desired(
    amount_a_desired: u64,
    amount_b_desired: u64,
    reserve_a: u64,
    reserve_b: u64,
    lp_supply: u64,
)
    requires
        add_liquidity_result(amount_a_desired, amount_b_desired, reserve_a, reserve_b, lp_supply)
            is Ok,
    ensures
        ({
            let quote = add_liquidity_result(
                amount_a_desired,
                amount_b_desired,
                reserve_a,
                reserve_b,
                lp_supply,
            )->Ok_0;
            quote.amount_a <= amount_a_desired && quote.amount_b <= amount_b_desired
        }),
{
    lemma_ceil_quotient_bound(
        amount_a_desired * reserve_b,
        reserve_a as int,
        amount_b_desired as int,
    );
    lemma_ceil_quotient_bound(
        amount_b_desired * reserve_a,
        reserve_b as int,
        amount_a_desired as int,
    );
    assert(amount_a_desired * reserve_b >= 0 && amount_b_desired * reserve_a >= 0)
        by (nonlinear_arith);
}

/// Minted LP never exceeds the proportional share of either deposited side, and the
/// new reserves and supply are the old ones plus exactly the quoted amounts.
pub proof fn law_minted_lp_within_each_share(
    amount_a_desired: u64,
    amount_b_desired: u64,
    reserve_a: u64,
    reserve_b: u64,
    lp_supply: u64,
)
    requires
        add_liquidity_result(amount_a_desired, amount_b_desired, reserve_a, reserve_b, lp_supply)
            is Ok,
    ensures
        ({
            let quote = add_liquidity_result(
                amount_a_desired,
                amount_b_desired,
                reserve_a,
                reserve_b,
                lp_supply,
            )->Ok_0;
            &&& quote.lp_minted <= (quote.amount_a * lp_supply) / (reserve_a as int)
            &&& quote.lp_minted <= (quote.amount_b * lp_supply) / (reserve_b as int)
            &&& quote.new_reserve_a == reserve_a + quote.amount_a
            &&& quote.new_reserve_b == reserve_b + quote.amount_b
            &&& quote.new_lp_supply == lp_supply + quote.lp_minted
        }),
{
}

/// Depositing and then withdrawing the minted LP never returns more than was deposited.
pub proof fn law_deposit_then_withdraw_never_profits(
    amount_a_desired: u64,
    amount_b_desired: u64,
    reserve_a: u64,
    reserve_b: u64,
    lp_supply: u64,
)
    requires
        add_liquidity_result(amount_a_desired, amount_b_desired, reserve_a, reserve_b, lp_supply)
            is Ok,
        ({
            let added = add_liquidity_result(
                amount_a_desired,
                amount_b_desired,
                reserve_a,
                reserve_b,
                lp_supply,
            )->Ok_0;
            remove_liquidity_result(
                added.lp_minted,
                added.new_reserve_a,
                added.new_reserve_b,
                added.new_lp_supply,
            ) is Ok
        }),
    ensures
        ({
            let added = add_liquidity_result(
                amount_a_desired,
                amount_b_desired,
                reserve_a,
                reserve_b,
                lp_supply,
            )->Ok_0;
            let removed = remove_liquidity_result(
                added.lp_minted,
                added.new_reserve_a,
                added.new_reserve_b,
                added.new_lp_supply,
            )->Ok_0;
            removed.amount_a <= added.amount_a && removed.amount_b <= added.amount_b
        }),
{
    let added = add_liquidity_result(
        amount_a_desired,
        amount_b_desired,
        reserve_a,
        reserve_b,
        lp_supply,
    )->Ok_0;
    let lp = added.lp_minted as int;
    let l = lp_supply as int;
    withdraw_of_deposit_bound(lp, added.amount_a as int, reserve_a as int, l);
    withdraw_of_deposit_bound(lp, added.amount_b as int, reserve_b as int, l);
}

/// `lp ≤ amount · l / reserve` implies `lp · (reserve + amount) / (l + lp) ≤ amount`.
proof fn withdraw_of_deposit_bound(lp: int, amount: int, reserve: int, l: int)
    requires
        lp >= 1,
        amount >= 0,
        reserve >= 1,
        l >= 0,
        lp <= (amount * l) / reserve,
    ensures
        (lp * (reserve + amount)) / (l + lp) <= amount,
{
    assert(amount * l >= 0) by (nonlinear_arith)
        requires
            amount >= 0,
            l >= 0,
    ;
    floor_div_facts(amount * l, reserve);
    assert(lp * reserve <= amount * l) by (nonlinear_arith)
        requires
            lp <= (amount * l) / reserve,
            ((amount * l) / reserve) * reserve <= amount * l,
            reserve >= 1,
    ;
    assert(lp * (reserve + amount) >= 0) by (nonlinear_arith)
        requires
            lp >= 1,
            reserve + amount >= 1,
    ;
    floor_div_facts(lp * (reserve + amount), l + lp);
    let q = (lp * (reserve + amount)) / (l + lp);
    assert(q <= amount) by (nonlinear_arith)
        requires
            q * (l + lp) <= lp * (reserve + amount),
            lp * reserve <= amount * l,
            l + lp >= 1,
    ;
}

/// A withdrawal never pays more than the proportional share of either reserve, and the
/// new reserves and supply are the old ones minus exactly the quoted amounts.
pub proof fn law_withdrawals_within_proportional_share(
    lp_amount: u64,
    reserve_a: u64,
    reserve_b: u64,
    lp_supply: u64,
)
    requires
        remove_liquidity_result(lp_amount, reserve_a, reserve_b, lp_supply) is Ok,
    ensures
        ({
            let quote = remove_liquidity_result(lp_amount, reserve_a, reserve_b, lp_supply)->Ok_0;
            &&& quote.amount_a * lp_supply <= lp_amount * reserve_a
            &&& quote.amount_b * lp_supply <= lp_amount * reserve_b
            &&& quote.new_reserve_a == reserve_a - quote.amount_a
            &&& quote.new_reserve_b == reserve_b - quote.amount_b
            &&& quote.new_lp_supply == lp_supply - lp_amount
        }),
{
    assert(lp_amount * reserve_a >= 0 && lp_amount * reserve_b >= 0) by (nonlinear_arith);
    floor_div_facts(lp_amount * reserve_a, lp_supply as int);
    floor_div_facts(lp_amount * reserve_b, lp_supply as int);
    assert(lp_amount * reserve_a <= lp_supply * reserve_a && lp_amount * reserve_b <= lp_supply
        * reserve_b) by (nonlinear_arith)
        requires
            lp_amount <= lp_supply,
    ;
    share_not_above_reserve(lp_amount as int, reserve_a as int, lp_supply as int);
    share_not_above_reserve(lp_amount as int, reserve_b as int, lp_supply as int);
}

proof fn share_not_above_reserve(x: int, r: int, l: int)
    requires
        0 <= x <= l,
        l > 0,
        r >= 0,
    ensures
        (x * r) / l <= r,
{
    assert(0 <= x * r <= l * r) by (nonlinear_arith)
        requires
            0 <= x <= l,
            r >= 0,
    ;
    floor_div_facts(x * r, l);
    let q = (x * r) / l;
    assert(q <= r) by (nonlinear_arith)
        requires
            q * l <= x * r,
            x * r <= l * r,
            l > 0,
    ;
}

/// Withdrawing everything above the locked minimum succeeds whenever each side pays out
/// something, and it leaves exactly the minimum LP supply.
pub proof fn law_full_withdrawal_leaves_the_minimum(
    reserve_a: u64,
    reserve_b: u64,
    lp_supply: u64,
)
    requires
        MINIMUM_LIQUIDITY < lp_supply <= MAX_SUPPLY_CAP,
        1 <= reserve_a <= MAX_SUPPLY_CAP,
        1 <= reserve_b <= MAX_SUPPLY_CAP,
        (lp_supply - MINIMUM_LIQUIDITY) * reserve_a >= lp_supply,
        (lp_supply - MINIMUM_LIQUIDITY) * reserve_b >= lp_supply,
    ensures
        remove_liquidity_result(
            (lp_supply - MINIMUM_LIQUIDITY) as u64,
            reserve_a,
            reserve_b,
            lp_supply,
        ) is Ok,
        remove_liquidity_result(
            (lp_supply - MINIMUM_LIQUIDITY) as u64,
            reserve_a,
            reserve_b,
            lp_supply,
        )->Ok_0.new_lp_supply == MINIMUM_LIQUIDITY,
{
    let x = lp_supply - MINIMUM_LIQUIDITY;
    floor_div_facts(x * reserve_a, lp_supply as int);
    floor_div_facts(x * reserve_b, lp_supply as int);
    assert((x * reserve_a) / (lp_supply as int) >= 1) by (nonlinear_arith)
        requires
            x * reserve_a >= lp_supply,
            lp_supply > 0,
            x * reserve_a < ((x * reserve_a) / (lp_supply as int) + 1) * lp_supply,
    ;
    assert((x * reserve_b) / (lp_supply as int) >= 1) by (nonlinear_arith)
        requires
            x * reserve_b >= lp_supply,
            lp_supply > 0,
            x * reserve_b < ((x * reserve_b) / (lp_supply as int) + 1) * lp_supply,
    ;
}

/// No quote ever reports an arithmetic overflow: every intermediate of in-range inputs
/// fits, and out-of-range inputs are refused before any arithmetic.
pub proof fn law_quotes_never_overflow(
    amount: u64,
    amount_other: u64,
    reserve_a: u64,
    reserve_b: u64,
    lp_supply: u64,
    fee_bps: u16,
)
    ensures
        swap_result(amount, reserve_a, reserve_b, fee_bps) != Err::<
            crate::math::SwapQuote,
            MathError,
        >(MathError::MathOverflow),
        initial_liquidity_result(reserve_a, reserve_b) != Err::<
            crate::math::InitialLiquidityQuote,
            MathError,
        >(MathError::MathOverflow),
        add_liquidity_result(amount, amount_other, reserve_a, reserve_b, lp_supply) != Err::<
            crate::math::AddLiquidityQuote,
            MathError,
        >(MathError::MathOverflow),
        remove_liquidity_result(amount, reserve_a, reserve_b, lp_supply) != Err::<
            crate::math::RemoveLiquidityQuote,
            MathError,
        >(MathError::MathOverflow),
{
}

/// A withdrawal never lowers the pool's value per LP token:
/// `k_new · L_old² ≥ k_old · L_new²`.
pub proof fn law_withdrawal_keeps_value_per_share(
    lp_amount: u64,
    reserve_a: u64,
    reserve_b: u64,
    lp_supply: u64,
)
    requires
        remove_liquidity_result(lp_amount, reserve_a, reserve_b, lp_supply) is Ok,
    ensures
        ({
            let quote = remove_liquidity_result(lp_amount, reserve_a, reserve_b, lp_supply)->Ok_0;
            quote.new_reserve_a * quote.new_reserve_b * (lp_supply * lp_supply) >= reserve_a
                * reserve_b * (quote.new_lp_supply * quote.new_lp_supply)
        }),
{
    let quote = remove_liquidity_result(lp_amount, reserve_a, reserve_b, lp_supply)->Ok_0;
    law_withdrawals_within_proportional_share(lp_amount, reserve_a, reserve_b, lp_supply);
    let l = lp_supply as int;
    let l2 = quote.new_lp_supply as int;
    // Each new reserve is at least its old reserve scaled by the remaining supply.
    assert(quote.new_reserve_a * l >= reserve_a * l2) by (nonlinear_arith)
        requires
            quote.amount_a * l <= lp_amount * reserve_a,
            quote.new_reserve_a == reserve_a - quote.amount_a,
            l2 == l - lp_amount,
    ;
    assert(quote.new_reserve_b * l >= reserve_b * l2) by (nonlinear_arith)
        requires
            quote.amount_b * l <= lp_amount * reserve_b,
            quote.new_reserve_b == reserve_b - quote.amount_b,
            l2 == l - lp_amount,
    ;
    scaled_product_bound(
        quote.new_reserve_a as int,
        quote.new_reserve_b as int,
        reserve_a as int,
        reserve_b as int,
        l,
        l2,
    );
}

/// From `x' · l ≥ x · l2` and `y' · l ≥ y · l2` (all non-negative) follows
/// `x' · y' · l² ≥ x · y · l2²`.
proof fn scaled_product_bound(x2: int, y2: int, x: int, y: int, l: int, l2: int)
    requires
        x2 >= 0,
        y2 >= 0,
        x >= 0,
        y >= 0,
        l >= 0,
        l2 >= 0,
        x2 * l >= x * l2,
        y2 * l >= y * l2,
    ensures
        x2 * y2 * (l * l) >= x * y * (l2 * l2),
{
    assert((x2 * l) * (y2 * l) >= (x * l2) * (y * l2)) by (nonlinear_arith)
        requires
            x2 * l >= x * l2,
            y2 * l >= y * l2,
            x * l2 >= 0,
            y * l2 >= 0,
    ;
    assert((x2 * l) * (y2 * l) == x2 * y2 * (l * l)) by (nonlinear_arith);
    assert((x * l2) * (y * l2) == x * y * (l2 * l2)) by (nonlinear_arith);
}

/// A later deposit never lowers the pool's value per LP token:
/// `k_new · L_old² ≥ k_old · L_new²`.
pub proof fn law_deposit_keeps_value_per_share(
    amount_a_desired: u64,
    amount_b_desired: u64,
    reserve_a: u64,
    reserve_b: u64,
    lp_supply: u64,
)
    requires
        add_liquidity_result(amount_a_desired, amount_b_desired, reserve_a, reserve_b, lp_supply)
            is Ok,
    ensures
        ({
            let quote = add_liquidity_result(
                amount_a_desired,
                amount_b_desired,
                reserve_a,
                reserve_b,
                lp_supply,
            )->Ok_0;
            quote.new_reserve_a * quote.new_reserve_b * (lp_supply * lp_supply) >= reserve_a
                * reserve_b * (quote.new_lp_supply * quote.new_lp_supply)
        }),
{
    let quote = add_liquidity_result(
        amount_a_desired,
        amount_b_desired,
        reserve_a,
        reserve_b,
        lp_supply,
    )->Ok_0;
    let l = lp_supply as int;
    let lp = quote.lp_minted as int;
    let (amount_a, amount_b) = deposit_amounts(
        amount_a_desired as int,
        amount_b_desired as int,
        reserve_a as int,
        reserve_b as int,
    );
    deposit_share_bound(lp, amount_a, reserve_a as int, l);
    deposit_share_bound(lp, amount_b, reserve_b as int, l);
    scaled_product_bound(
        quote.new_reserve_a as int,
        quote.new_reserve_b as int,
        reserve_a as int,
        reserve_b as int,
        l,
        l + lp,
    );
}

/// `lp ≤ amount · l / reserve` implies `(reserve + amount) · l ≥ reserve · (l + lp)`.
proof fn deposit_share_bound(lp: int, amount: int, reserve: int, l: int)
    requires
        lp >= 0,
        amount >= 0,
        reserve >= 1,
        l >= 0,
        lp <= (amount * l) / reserve,
    ensures
        (reserve + amount) * l >= reserve * (l + lp),
{
    assert(amount * l >= 0) by (nonlinear_arith)
        requires
            amount >= 0,
            l >= 0,
    ;
    floor_div_facts(amount * l, reserve);
    assert(lp * reserve <= amount * l) by (nonlinear_arith)
        requires
            lp <= (amount * l) / reserve,
            ((amount * l) / reserve) * reserve <= amount * l,
            reserve >= 1,
    ;
    assert((reserve + amount) * l >= reserve * (l + lp)) by (nonlinear_arith)
        requires
            lp * reserve <= amount * l,
    ;
}

/// A swap of in-range amounts, whose input reserve stays within the cap, succeeds whenever
/// it pays out something: it returns exactly
/// `out = ⌊amount_in · (10000 − fee_bps) · reserve_out / (reserve_in · 10000 + amount_in · (10000 − fee_bps))⌋`
/// and moves each reserve by exactly the traded amount. No other quantity, such as the
/// product of the reserves, is held to the cap.
pub proof fn law_swap_succeeds_within_the_cap(
    amount_in: u64,
    reserve_in: u64,
    reserve_out: u64,
    fee_bps: u16,
)
    requires
        0 < amount_in <= MAX_SUPPLY_CAP,
        0 < reserve_in <= MAX_SUPPLY_CAP,
        0 < reserve_out <= MAX_SUPPLY_CAP,
        fee_bps <= MAX_FEE_BPS,
        reserve_in + amount_in <= MAX_SUPPLY_CAP,
    ensures
        ({
            let with_fee = amount_in * (10_000 - fee_bps);
            let out = (with_fee * reserve_out) / (reserve_in * 10_000 + with_fee);
            out > 0 ==> (swap_result(amount_in, reserve_in, reserve_out, fee_bps) matches Ok(quote)
                && quote.amount_out == out && quote.new_reserve_in == reserve_in + amount_in
                && quote.new_reserve_out == reserve_out - out)
        }),
{
    lemma_swap_output_keeps_k(
        amount_in as int,
        reserve_in as int,
        reserve_out as int,
        10_000 - fee_bps,
    );
}

/// A later deposit of in-range amounts into an in-range pool succeeds whenever it mints
/// something and every resulting amount stays within the cap. It takes all of one side and
/// the other side's ratio-matching amount rounded up: `b = ⌈a_desired · reserve_b / reserve_a⌉`
/// when that is at most `b_desired`, else `a = ⌈b_desired · reserve_a / reserve_b⌉` with all
/// of `b_desired`; it mints `lp = min(⌊a · L / reserve_a⌋, ⌊b · L / reserve_b⌋)`, and the
/// reserves and supply grow by exactly those amounts. No intermediate product is held to
/// the cap.
pub proof fn law_later_deposit_succeeds_within_the_cap(
    amount_a_desired: u64,
    amount_b_desired: u64,
    reserve_a: u64,
    reserve_b: u64,
    lp_supply: u64,
)
    requires
        0 < amount_a_desired <= MAX_SUPPLY_CAP,
        0 < amount_b_desired <= MAX_SUPPLY_CAP,
        0 < reserve_a <= MAX_SUPPLY_CAP,
        0 < reserve_b <= MAX_SUPPLY_CAP,
        MINIMUM_LIQUIDITY <= lp_supply <= MAX_SUPPLY_CAP,
    ensures
        ({
            let ra = reserve_a as int;
            let rb = reserve_b as int;
            let l = lp_supply as int;
            let b_num = amount_a_desired * rb;
            let b_matching = if b_num % ra == 0 {
                b_num / ra
            } else {
                b_num / ra + 1
            };
            let a_num = amount_b_desired * ra;
            let a_matching = if a_num % rb == 0 {
                a_num / rb
            } else {
                a_num / rb + 1
            };
            let a = if b_matching <= amount_b_desired {
                amount_a_desired as int
            } else {
                a_matching
            };
            let b = if b_matching <= amount_b_desired {
                b_matching
            } else {
                amount_b_desired as int
            };
            let share_a = (a * l) / ra;
            let share_b = (b * l) / rb;
            let lp = if share_a <= share_b {
                share_a
            } else {
                share_b
            };
            (lp > 0 && lp <= MAX_SUPPLY_CAP && ra + a <= MAX_SUPPLY_CAP && rb + b <= MAX_SUPPLY_CAP
                && l + lp <= MAX_SUPPLY_CAP) ==> (add_liquidity_result(
                amount_a_desired,
                amount_b_desired,
                reserve_a,
                reserve_b,
                lp_supply,
            ) matches Ok(quote) && quote.amount_a == a && quote.amount_b == b && quote.lp_minted
                == lp && quote.new_reserve_a == ra + a && quote.new_reserve_b == rb + b
                && quote.new_lp_supply == l + lp)
        }),
{
    let ra = reserve_a as int;
    let rb = reserve_b as int;
    assert(amount_a_desired * reserve_b >= 0 && amount_b_desired * reserve_a >= 0)
        by (nonlinear_arith);
    floor_div_facts(amount_a_desired * rb, ra);
    floor_div_facts(amount_b_desired * ra, rb);
    let (a, b) = deposit_amounts(amount_a_desired as int, amount_b_desired as int, ra, rb);
    assert(a >= 0 && b >= 0);
    assert(a * lp_supply >= 0 && b * lp_supply >= 0) by (nonlinear_arith)
        requires
            a >= 0,
            b >= 0,
    ;
    floor_div_facts(a * lp_supply, ra);
    floor_div_facts(b * lp_supply, rb);
}

/// The first deposit of two in-range amounts succeeds whenever the floor square root of
/// their product exceeds the locked minimum: with `root² ≤ a · b < (root + 1)²`, the
/// depositor receives exactly `root − MINIMUM_LIQUIDITY` and exactly `MINIMUM_LIQUIDITY`
/// is locked.
pub proof fn law_first_deposit_succeeds_above_the_minimum(amount_a: u64, amount_b: u64, root: int)
    requires
        0 < amount_a <= MAX_SUPPLY_CAP,
        0 < amount_b <= MAX_SUPPLY_CAP,
        0 <= root,
        root * root <= amount_a * amount_b < (root + 1) * (root + 1),
        root > MINIMUM_LIQUIDITY,
    ensures
        initial_liquidity_result(amount_a, amount_b) matches Ok(quote) && quote.lp_to_user == root
            - MINIMUM_LIQUIDITY && quote.lp_to_lock == MINIMUM_LIQUIDITY,
{
    crate::math::lemma_floor_sqrt_unique(amount_a * amount_b, root);
    if root > MAX_SUPPLY_CAP {
        crate::math::lemma_square_monotonic(MAX_SUPPLY_CAP + 1, root);
        assert(amount_a * amount_b <= MAX_SUPPLY_CAP * MAX_SUPPLY_CAP) by (nonlinear_arith)
            requires
                0 <= amount_a <= MAX_SUPPLY_CAP,
                0 <= amount_b <= MAX_SUPPLY_CAP,
        ;
        assert((MAX_SUPPLY_CAP + 1) * (MAX_SUPPLY_CAP + 1) > MAX_SUPPLY_CAP * MAX_SUPPLY_CAP)
            by (nonlinear_arith);
    }
}

/// A withdrawal from an in-range pool that leaves at least the locked minimum succeeds
/// whenever both sides pay out something: it pays exactly `⌊lp_amount · reserve / L⌋` of
/// each side, and the reserves and supply shrink by exactly those amounts.
pub proof fn law_withdrawal_succeeds_above_the_minimum(
    lp_amount: u64,
    reserve_a: u64,
    reserve_b: u64,
    lp_supply: u64,
)
    requires
        0 < lp_amount,
        0 < reserve_a <= MAX_SUPPLY_CAP,
        0 < reserve_b <= MAX_SUPPLY_CAP,
        lp_supply <= MAX_SUPPLY_CAP,
        lp_amount + MINIMUM_LIQUIDITY <= lp_supply,
    ensures
        ({
            let a = (lp_amount * reserve_a) / (lp_supply as int);
            let b = (lp_amount * reserve_b) / (lp_supply as int);
            (a > 0 && b > 0) ==> (remove_liquidity_result(
                lp_amount,
                reserve_a,
                reserve_b,
                lp_supply,
            ) matches Ok(quote) && quote.amount_a == a && quote.amount_b == b
                && quote.new_reserve_a == reserve_a - a && quote.new_reserve_b == reserve_b - b
                && quote.new_lp_supply == lp_supply - lp_amount)
        }),
{
    share_not_above_reserve(lp_amount as int, reserve_a as int, lp_supply as int);
    share_not_above_reserve(lp_amount as int, reserve_b as int, lp_supply as int);
}

} // verus!
