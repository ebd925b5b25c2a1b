use stablecoin_amm::constants::{FEE_DENOMINATOR, MAX_FEE_BPS, MAX_SUPPLY_CAP, MINIMUM_LIQUIDITY};
use stablecoin_amm::math::{
    ceil_div, integer_sqrt, narrow, quote_add_liquidity, quote_initial_liquidity,
    quote_remove_liquidity, quote_swap, widen, InitialLiquidityQuote, MathError,
    RemoveLiquidityQuote, SwapQuote,
};

#[test]
fn integer_sqrt_examples() {
    for (value, expected) in [
        (0u128, 0u128),
        (1, 1),
        (2, 1),
        (3, 1),
        (4, 2),
        (15, 3),
        (16, 4),
        (u128::from(u64::MAX), 4_294_967_295),
    ] {
        assert_eq!(
            integer_sqrt(value).expect("sqrt must succeed"),
            expected,
            "sqrt({value})"
        );
    }
}

#[test]
fn integer_sqrt_covers_the_u128_maximum() {
    assert_eq!(
        integer_sqrt(u128::MAX).expect("sqrt must succeed"),
        u128::from(u64::MAX)
    );

    let largest_square = u128::from(u64::MAX)
        .checked_mul(u128::from(u64::MAX))
        .expect("square of u64::MAX fits in u128");
    assert_eq!(
        integer_sqrt(largest_square).expect("sqrt must succeed"),
        u128::from(u64::MAX)
    );
}

#[test]
fn ceil_div_examples() {
    assert_eq!(ceil_div(10, 5).expect("exact division"), 2);
    assert_eq!(ceil_div(11, 5).expect("rounded division"), 3);
    assert_eq!(ceil_div(0, 5).expect("zero numerator"), 0);
    assert_eq!(ceil_div(u128::MAX, u128::MAX).expect("maximum operands"), 1);
    assert_eq!(ceil_div(1, 0), Err(MathError::ZeroAmount));
}

#[test]
fn swap_quote_example() {
    let quote = quote_swap(1_000, 1_000_000, 1_000_000, 30).expect("swap must succeed");
    assert_eq!(
        quote,
        SwapQuote {
            amount_out: 996,
            new_reserve_in: 1_001_000,
            new_reserve_out: 999_004,
        }
    );
}

#[test]
fn zero_fee_swap_charges_nothing() {
    let quote = quote_swap(1_000, 1_000_000, 1_000_000, 0).expect("swap must succeed");
    assert_eq!(quote.amount_out, 999);
}

#[test]
fn swap_boundary_errors() {
    assert_eq!(
        quote_swap(0, 1_000_000, 1_000_000, 30),
        Err(MathError::ZeroAmount)
    );
    assert_eq!(
        quote_swap(1_000, 0, 1_000_000, 30),
        Err(MathError::InsufficientLiquidity)
    );
    assert_eq!(
        quote_swap(1_000, 1_000_000, 0, 30),
        Err(MathError::InsufficientLiquidity)
    );
    assert_eq!(
        quote_swap(1_000, 1_000_000, 1_000_000, MAX_FEE_BPS + 1),
        Err(MathError::InvalidFee)
    );
    assert_eq!(
        quote_swap(MAX_SUPPLY_CAP + 1, 1_000_000, 1_000_000, 30),
        Err(MathError::ValueOutOfRange)
    );
    assert_eq!(
        quote_swap(1, 1_000_000_000, 1_000, 30),
        Err(MathError::ZeroOutput)
    );
    assert_eq!(
        quote_swap(MAX_SUPPLY_CAP, MAX_SUPPLY_CAP, 1_000_000, 30),
        Err(MathError::ValueOutOfRange)
    );
}

#[test]
fn swap_accepts_the_maximum_fee() {
    let quote = quote_swap(1_000, 1_000_000, 1_000_000, MAX_FEE_BPS).expect("swap must succeed");
    assert_eq!(quote.amount_out, 989);
}

#[test]
fn initial_liquidity_example() {
    let quote = quote_initial_liquidity(1_000_000, 4_000_000).expect("initial must succeed");
    assert_eq!(
        quote,
        InitialLiquidityQuote {
            lp_to_user: 2_000_000 - MINIMUM_LIQUIDITY,
            lp_to_lock: MINIMUM_LIQUIDITY,
        }
    );
}

#[test]
fn initial_liquidity_boundary_errors() {
    assert_eq!(
        quote_initial_liquidity(0, 1_000_000),
        Err(MathError::ZeroAmount)
    );
    assert_eq!(
        quote_initial_liquidity(1_000_000, 0),
        Err(MathError::ZeroAmount)
    );
    assert_eq!(
        quote_initial_liquidity(MINIMUM_LIQUIDITY, MINIMUM_LIQUIDITY),
        Err(MathError::InsufficientInitialLiquidity)
    );
    assert_eq!(
        quote_initial_liquidity(MAX_SUPPLY_CAP + 1, 1),
        Err(MathError::ValueOutOfRange)
    );

    let smallest = quote_initial_liquidity(MINIMUM_LIQUIDITY + 1, MINIMUM_LIQUIDITY + 1)
        .expect("one unit above the lock must succeed");
    assert_eq!(smallest.lp_to_user, 1);
}

#[test]
fn initial_liquidity_at_the_supply_cap() {
    let quote = quote_initial_liquidity(MAX_SUPPLY_CAP, MAX_SUPPLY_CAP).expect("cap must succeed");
    assert_eq!(quote.lp_to_user, MAX_SUPPLY_CAP - MINIMUM_LIQUIDITY);
}

#[test]
fn add_liquidity_uses_the_b_optimal_branch() {
    let quote = quote_add_liquidity(100_000, 250_000, 1_000_000, 2_000_000, 1_414_213)
        .expect("add must succeed");
    assert_eq!(quote.amount_a, 100_000);
    assert_eq!(quote.amount_b, 200_000);
    assert_eq!(quote.lp_minted, 141_421);
    assert_eq!(quote.new_reserve_a, 1_100_000);
    assert_eq!(quote.new_reserve_b, 2_200_000);
    assert_eq!(quote.new_lp_supply, 1_555_634);
}

#[test]
fn add_liquidity_uses_the_a_optimal_branch() {
    let quote = quote_add_liquidity(100_000, 150_000, 1_000_000, 2_000_000, 1_414_213)
        .expect("add must succeed");
    assert_eq!(quote.amount_a, 75_000);
    assert_eq!(quote.amount_b, 150_000);
}

#[test]
fn add_liquidity_rounds_the_required_deposit_up() {
    let quote = quote_add_liquidity(1, 1_000, 3, 4, 1_000).expect("uneven ratio must round up");
    assert_eq!(quote.amount_a, 1);
    assert_eq!(quote.amount_b, 2);
}

#[test]
fn add_liquidity_boundary_errors() {
    assert_eq!(
        quote_add_liquidity(0, 1_000, 1_000_000, 1_000_000, 1_000_000),
        Err(MathError::ZeroAmount)
    );
    assert_eq!(
        quote_add_liquidity(1_000, 0, 1_000_000, 1_000_000, 1_000_000),
        Err(MathError::ZeroAmount)
    );
    assert_eq!(
        quote_add_liquidity(1_000, 1_000, 0, 1_000_000, 1_000_000),
        Err(MathError::InsufficientLiquidity)
    );
    assert_eq!(
        quote_add_liquidity(1_000, 1_000, 1_000_000, 0, 1_000_000),
        Err(MathError::InsufficientLiquidity)
    );
    assert_eq!(
        quote_add_liquidity(1_000, 1_000, 1_000_000, 1_000_000, MINIMUM_LIQUIDITY - 1),
        Err(MathError::InvalidLiquidityState)
    );
    assert_eq!(
        quote_add_liquidity(1, 1, 1_000_000_000, 1_000_000_000, 1_000),
        Err(MathError::ZeroOutput)
    );
    assert_eq!(
        quote_add_liquidity(MAX_SUPPLY_CAP + 1, 1_000, 1_000_000, 1_000_000, 1_000_000),
        Err(MathError::ValueOutOfRange)
    );
    assert_eq!(
        quote_add_liquidity(
            MAX_SUPPLY_CAP,
            MAX_SUPPLY_CAP,
            MAX_SUPPLY_CAP,
            MAX_SUPPLY_CAP,
            MAX_SUPPLY_CAP
        ),
        Err(MathError::ValueOutOfRange)
    );
}

#[test]
fn remove_liquidity_example() {
    let quote = quote_remove_liquidity(500_000, 1_000_000, 2_000_000, 1_000_000).expect("remove");
    assert_eq!(
        quote,
        RemoveLiquidityQuote {
            amount_a: 500_000,
            amount_b: 1_000_000,
            new_reserve_a: 500_000,
            new_reserve_b: 1_000_000,
            new_lp_supply: 500_000,
        }
    );
}

#[test]
fn remove_liquidity_boundary_errors() {
    assert_eq!(
        quote_remove_liquidity(0, 1_000_000, 1_000_000, 1_000_000),
        Err(MathError::ZeroAmount)
    );
    assert_eq!(
        quote_remove_liquidity(1_000, 0, 1_000_000, 1_000_000),
        Err(MathError::InsufficientLiquidity)
    );
    assert_eq!(
        quote_remove_liquidity(1_000, 1_000_000, 0, 1_000_000),
        Err(MathError::InsufficientLiquidity)
    );
    assert_eq!(
        quote_remove_liquidity(500, 1_000_000, 1_000_000, MINIMUM_LIQUIDITY - 1),
        Err(MathError::InvalidLiquidityState)
    );
    assert_eq!(
        quote_remove_liquidity(1_000_001, 1_000_000, 1_000_000, 1_000_000),
        Err(MathError::InsufficientLiquidity)
    );
    assert_eq!(
        quote_remove_liquidity(999_500, 1_000_000, 1_000_000, 1_000_000),
        Err(MathError::InsufficientLiquidity)
    );
    assert_eq!(
        quote_remove_liquidity(1, 1_000, 1_000, 1_000_000),
        Err(MathError::ZeroOutput)
    );
}

#[test]
fn removing_everything_removable_leaves_the_locked_minimum() {
    let quote = quote_remove_liquidity(
        1_000_000 - MINIMUM_LIQUIDITY,
        1_000_000,
        2_000_000,
        1_000_000,
    )
    .expect("remove must succeed");
    assert_eq!(quote.new_lp_supply, MINIMUM_LIQUIDITY);
}

#[test]
fn supply_cap_bounds_keep_every_intermediate_inside_u128() {
    let cap = u128::from(MAX_SUPPLY_CAP);

    let swap_numerator = cap
        .checked_mul(FEE_DENOMINATOR)
        .and_then(|scaled| scaled.checked_mul(cap));
    assert!(
        swap_numerator.is_some(),
        "swap numerator overflows u128 at MAX_SUPPLY_CAP"
    );

    let post_swap_reserve = cap.checked_mul(2).expect("doubled cap fits in u128");
    assert!(
        post_swap_reserve.checked_mul(post_swap_reserve).is_some(),
        "constant-product check overflows u128 at MAX_SUPPLY_CAP"
    );

    assert!(
        cap.checked_mul(cap).is_some(),
        "liquidity products overflow u128 at MAX_SUPPLY_CAP"
    );
}

// ---------------------------------------------------------------------------
// Concrete instances of the proved properties
// ---------------------------------------------------------------------------

#[test]
fn widen_and_narrow_stop_at_the_supply_cap() {
    assert_eq!(widen(MAX_SUPPLY_CAP), Ok(u128::from(MAX_SUPPLY_CAP)));
    assert_eq!(widen(MAX_SUPPLY_CAP + 1), Err(MathError::ValueOutOfRange));
    assert_eq!(narrow(u128::from(MAX_SUPPLY_CAP)), Ok(MAX_SUPPLY_CAP));
    assert_eq!(narrow(u128::from(MAX_SUPPLY_CAP) + 1), Err(MathError::ValueOutOfRange));
    assert_eq!(narrow(u128::MAX), Err(MathError::ValueOutOfRange));
}

#[test]
fn integer_sqrt_of_a_large_non_square_is_its_floor_root() {
    let value = 1_000_000_000_000_000_000_000u128 + 12_345;
    let root = integer_sqrt(value).expect("sqrt must succeed");
    assert!(root * root <= value);
    assert!((root + 1) * (root + 1) > value);
    assert_eq!(root, 31_622_776_601);
}

#[test]
fn swap_never_decreases_k_on_a_lopsided_pool() {
    let (reserve_in, reserve_out) = (7_919u64, 104_729_000u64);
    let quote = quote_swap(3_001, reserve_in, reserve_out, 17).expect("swap must succeed");
    let old_k = u128::from(reserve_in) * u128::from(reserve_out);
    let new_k = u128::from(quote.new_reserve_in) * u128::from(quote.new_reserve_out);
    assert!(new_k >= old_k);
    assert!(quote.amount_out < reserve_out);
}

#[test]
fn larger_swap_price_stays_below_the_smaller_swaps_unrounded_price() {
    // The rounded prices themselves may cross: 2 in gets 1 out, 3 in gets 2 out.
    let small = quote_swap(2, 1_000_000, 1_000_000, 30).expect("small swap");
    let large = quote_swap(3, 1_000_000, 1_000_000, 30).expect("large swap");
    assert_eq!(small.amount_out, 1);
    assert_eq!(large.amount_out, 2);
    assert!(large.amount_out * 2 < (small.amount_out + 1) * 3);
}

#[test]
fn round_trip_swap_returns_less_than_the_input() {
    let forward = quote_swap(50_000, 1_000_000, 3_000_000, 30).expect("forward swap");
    let back = quote_swap(
        forward.amount_out,
        forward.new_reserve_out,
        forward.new_reserve_in,
        30,
    )
    .expect("swap back");
    assert!(back.amount_out <= 50_000);
    assert_eq!(forward.amount_out, 142_448);
    assert_eq!(back.amount_out, 49_714);
}

#[test]
fn deposit_then_withdraw_returns_at_most_the_deposit() {
    let added = quote_add_liquidity(333_333, 777_777, 1_000_003, 2_000_011, 1_414_224)
        .expect("deposit");
    let removed = quote_remove_liquidity(
        added.lp_minted,
        added.new_reserve_a,
        added.new_reserve_b,
        added.new_lp_supply,
    )
    .expect("withdrawal");
    assert!(removed.amount_a <= added.amount_a);
    assert!(removed.amount_b <= added.amount_b);
}

#[test]
fn withdrawal_keeps_value_per_share() {
    let (reserve_a, reserve_b, lp_supply) = (1_000_003u64, 2_000_011u64, 1_414_224u64);
    let quote = quote_remove_liquidity(123_457, reserve_a, reserve_b, lp_supply).expect("remove");
    let before = u128::from(reserve_a) * u128::from(reserve_b);
    let after = u128::from(quote.new_reserve_a) * u128::from(quote.new_reserve_b);
    let old_l = u128::from(lp_supply);
    let new_l = u128::from(quote.new_lp_supply);
    // Compare k_new · L_old² with k_old · L_new² without overflowing u128.
    assert!(after * old_l / new_l * old_l / new_l >= before);
}

#[test]
fn quotes_report_out_of_range_rather_than_overflow() {
    assert_eq!(
        quote_swap(MAX_SUPPLY_CAP, 1, MAX_SUPPLY_CAP, 0),
        Err(MathError::ValueOutOfRange)
    );
    assert_eq!(
        quote_add_liquidity(MAX_SUPPLY_CAP, MAX_SUPPLY_CAP, 1, 1, MAX_SUPPLY_CAP),
        Err(MathError::ValueOutOfRange)
    );
    assert_eq!(
        quote_remove_liquidity(MAX_SUPPLY_CAP, MAX_SUPPLY_CAP, MAX_SUPPLY_CAP, MAX_SUPPLY_CAP),
        Err(MathError::InsufficientLiquidity)
    );
}
