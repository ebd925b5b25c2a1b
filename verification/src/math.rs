//! Pool arithmetic: square roots, rounding division and the four quotes.
use vstd::prelude::*;
use vstd::arithmetic::div_mod::{lemma_fundamental_div_mod, lemma_mod_pos_bound};

use crate::constants::{FEE_DENOMINATOR, MAX_FEE_BPS, MAX_SUPPLY_CAP, MINIMUM_LIQUIDITY};

verus! {

#[derive(Clone, Copy, Debug, PartialEq, Eq, Structural)]
pub enum MathError {
    ZeroAmount,
    InvalidFee,
    InsufficientLiquidity,
    InsufficientInitialLiquidity,
    ZeroOutput,
    InvalidLiquidityState,
    ValueOutOfRange,
    MathOverflow,
}

#[derive(Clone, Copy, Debug, PartialEq, Eq, Structural)]
pub struct SwapQuote {
    pub amount_out: u64,
    pub new_reserve_in: u64,
    pub new_reserve_out: u64,
}

#[derive(Clone, Copy, Debug, PartialEq, Eq, Structural)]
pub struct InitialLiquidityQuote {
    pub lp_to_user: u64,
    pub lp_to_lock: u64,
}

#[derive(Clone, Copy, Debug, PartialEq, Eq, Structural)]
pub struct AddLiquidityQuote {
    pub amount_a: u64,
    pub amount_b: u64,
    pub lp_minted: u64,
    pub new_reserve_a: u64,
    pub new_reserve_b: u64,
    pub new_lp_supply: u64,
}

#[derive(Clone, Copy, Debug, PartialEq, Eq, Structural)]
pub struct RemoveLiquidityQuote {
    pub amount_a: u64,
    pub amount_b: u64,
    pub new_reserve_a: u64,
    pub new_reserve_b: u64,
    pub new_lp_supply: u64,
}

// ---------------------------------------------------------------------------
// Mathematical model
// ---------------------------------------------------------------------------

/// The protocol-wide amount ceiling as a mathematical integer.
pub open spec fn cap() -> int {
    MAX_SUPPLY_CAP as int
}

/// `root` is the floor of the square root of `n`.
pub open spec fn is_floor_sqrt(n: int, root: int) -> bool {
    0 <= root && root * root <= n && n < (root + 1) * (root + 1)
}

/// The floor of the square root of a non-negative `n`.
pub open spec fn floor_sqrt(n: int) -> int {
    choose|root: int| is_floor_sqrt(n, root)
}

/// Division of non-negative `n` by positive `d`, rounded up.
pub open spec fn ceil_quotient(n: int, d: int) -> int {
    if n % d == 0 {
        n / d
    } else {
        n / d + 1
    }
}

/// Output of a swap before any bound is checked: the fee is taken from the input and
/// the remainder trades along `x · y = k`, rounded down.
pub open spec fn swap_output(amount_in: int, reserve_in: int, reserve_out: int, fee_bps: int) -> int {
    let in_with_fee = amount_in * (FEE_DENOMINATOR - fee_bps);
    (in_with_fee * reserve_out) / (reserve_in * FEE_DENOMINATOR + in_with_fee)
}

/// What `quote_swap` returns for every input.
pub open spec fn swap_result(amount_in: u64, reserve_in: u64, reserve_out: u64, fee_bps: u16) -> Result<
    SwapQuote,
    MathError,
> {
    if amount_in == 0 {
        Err(MathError::ZeroAmount)
    } else if reserve_in == 0 || reserve_out == 0 {
        Err(MathError::InsufficientLiquidity)
    } else if fee_bps > MAX_FEE_BPS {
        Err(MathError::InvalidFee)
    } else if amount_in > MAX_SUPPLY_CAP || reserve_in > MAX_SUPPLY_CAP || reserve_out
        > MAX_SUPPLY_CAP {
        Err(MathError::ValueOutOfRange)
    } else {
        let amount_out = swap_output(
            amount_in as int,
            reserve_in as int,
            reserve_out as int,
            fee_bps as int,
        );
        if amount_out == 0 {
            Err(MathError::ZeroOutput)
        } else if reserve_in + amount_in > cap() {
            Err(MathError::ValueOutOfRange)
        } else {
            Ok(
                SwapQuote {
                    amount_out: amount_out as u64,
                    new_reserve_in: (reserve_in + amount_in) as u64,
                    new_reserve_out: (reserve_out - amount_out) as u64,
                },
            )
        }
    }
}

/// What `quote_initial_liquidity` returns for every input.
pub open spec fn initial_liquidity_result(amount_a: u64, amount_b: u64) -> Result<
    InitialLiquidityQuote,
    MathError,
> {
    if amount_a == 0 || amount_b == 0 {
        Err(MathError::ZeroAmount)
    } else if amount_a > MAX_SUPPLY_CAP || amount_b > MAX_SUPPLY_CAP {
        Err(MathError::ValueOutOfRange)
    } else {
        let lp_total = floor_sqrt(amount_a * amount_b);
        if lp_total <= MINIMUM_LIQUIDITY {
            Err(MathError::InsufficientInitialLiquidity)
        } else {
            Ok(
                InitialLiquidityQuote {
                    lp_to_user: (lp_total - MINIMUM_LIQUIDITY) as u64,
                    lp_to_lock: MINIMUM_LIQUIDITY,
                },
            )
        }
    }
}

/// The smaller of two integers.
pub open spec fn min_int(x: int, y: int) -> int {
    if x <= y {
        x
    } else {
        y
    }
}

/// The amounts a later deposit actually takes: all of one side and the ratio-matching
/// amount of the other, rounded up in the pool's favour.
pub open spec fn deposit_amounts(a_desired: int, b_desired: int, reserve_a: int, reserve_b: int) -> (
    int,
    int,
) {
    let b_optimal = ceil_quotient(a_desired * reserve_b, reserve_a);
    if b_optimal <= b_desired {
        (a_desired, b_optimal)
    } else {
        (ceil_quotient(b_desired * reserve_a, reserve_b), b_desired)
    }
}

/// LP tokens a later deposit mints: the smaller proportional share, rounded down.
pub open spec fn minted_for(amount_a: int, amount_b: int, reserve_a: int, reserve_b: int, lp_supply: int) -> int {
    min_int((amount_a * lp_supply) / reserve_a, (amount_b * lp_supply) / reserve_b)
}

/// What `quote_add_liquidity` returns for every input.
pub open spec fn add_liquidity_result(
    amount_a_desired: u64,
    amount_b_desired: u64,
    reserve_a: u64,
    reserve_b: u64,
    lp_supply: u64,
) -> Result<AddLiquidityQuote, MathError> {
    if amount_a_desired == 0 || amount_b_desired == 0 {
        Err(MathError::ZeroAmount)
    } else if reserve_a == 0 || reserve_b == 0 {
        Err(MathError::InsufficientLiquidity)
    } else if lp_supply < MINIMUM_LIQUIDITY {
        Err(MathError::InvalidLiquidityState)
    } else if amount_a_desired > MAX_SUPPLY_CAP || amount_b_desired > MAX_SUPPLY_CAP || reserve_a
        > MAX_SUPPLY_CAP || reserve_b > MAX_SUPPLY_CAP || lp_supply > MAX_SUPPLY_CAP {
        Err(MathError::ValueOutOfRange)
    } else {
        let (amount_a, amount_b) = deposit_amounts(
            amount_a_desired as int,
            amount_b_desired as int,
            reserve_a as int,
            reserve_b as int,
        );
        let lp_minted = minted_for(
            amount_a,
            amount_b,
            reserve_a as int,
            reserve_b as int,
            lp_supply as int,
        );
        if lp_minted == 0 {
            Err(MathError::ZeroOutput)
        } else if lp_minted > cap() || reserve_a + amount_a > cap() || reserve_b + amount_b > cap()
            || lp_supply + lp_minted > cap() {
            Err(MathError::ValueOutOfRange)
        } else {
            Ok(
                AddLiquidityQuote {
                    amount_a: amount_a as u64,
                    amount_b: amount_b as u64,
                    lp_minted: lp_minted as u64,
                    new_reserve_a: (reserve_a + amount_a) as u64,
                    new_reserve_b: (reserve_b + amount_b) as u64,
                    new_lp_supply: (lp_supply + lp_minted) as u64,
                },
            )
        }
    }
}

/// What `quote_remove_liquidity` returns for every input.
pub open spec fn remove_liquidity_result(
    lp_amount: u64,
    reserve_a: u64,
    reserve_b: u64,
    lp_supply: u64,
) -> Result<RemoveLiquidityQuote, MathError> {
    if lp_amount == 0 {
        Err(MathError::ZeroAmount)
    } else if reserve_a == 0 || reserve_b == 0 {
        Err(MathError::InsufficientLiquidity)
    } else if lp_supply < MINIMUM_LIQUIDITY {
        Err(MathError::InvalidLiquidityState)
    } else if lp_amount > lp_supply {
        Err(MathError::InsufficientLiquidity)
    } else if reserve_a > MAX_SUPPLY_CAP || reserve_b > MAX_SUPPLY_CAP || lp_supply
        > MAX_SUPPLY_CAP {
        Err(MathError::ValueOutOfRange)
    } else if lp_supply - lp_amount < MINIMUM_LIQUIDITY {
        Err(MathError::InsufficientLiquidity)
    } else {
        let amount_a = (lp_amount * reserve_a) / (lp_supply as int);
        let amount_b = (lp_amount * reserve_b) / (lp_supply as int);
        if amount_a == 0 || amount_b == 0 {
            Err(MathError::ZeroOutput)
        } else {
            Ok(
                RemoveLiquidityQuote {
                    amount_a: amount_a as u64,
                    amount_b: amount_b as u64,
                    new_reserve_a: (reserve_a - amount_a) as u64,
                    new_reserve_b: (reserve_b - amount_b) as u64,
                    new_lp_supply: (lp_supply - lp_amount) as u64,
                },
            )
        }
    }
}

/// Powers of four, the positions the square-root digits are taken at.
spec fn pow4(k: nat) -> nat
    decreases k,
{
    if k == 0 {
        1
    } else {
        4 * pow4((k - 1) as nat)
    }
}

// ---------------------------------------------------------------------------
// Arithmetic lemmas
// ---------------------------------------------------------------------------

proof fn lemma_pow4_monotonic(a: nat, b: nat)
    requires
        a <= b,
    ensures
        pow4(a) <= pow4(b),
    decreases b,
{
    if a < b {
        lemma_pow4_monotonic(a, (b - 1) as nat);
    }
}

proof fn lemma_pow4_values()
    ensures
        pow4(62) == 0x1000_0000_0000_0000_0000_0000_0000_0000,
        pow4(63) == 0x4000_0000_0000_0000_0000_0000_0000_0000,
        pow4(64) == 0x1_0000_0000_0000_0000_0000_0000_0000_0000,
{
    reveal_with_fuel(pow4, 65);
}

pub proof fn lemma_square_monotonic(a: int, b: int)
    requires
        0 <= a <= b,
    ensures
        a * a <= b * b,
{
    assert(a * a <= b * b) by (nonlinear_arith)
        requires
            0 <= a <= b,
    ;
}

/// The floor root is unique, so `floor_sqrt` names the root any witness has.
pub proof fn lemma_floor_sqrt_unique(n: int, root: int)
    requires
        is_floor_sqrt(n, root),
    ensures
        floor_sqrt(n) == root,
{
    let other = floor_sqrt(n);
    assert(is_floor_sqrt(n, other));
    if other < root {
        lemma_square_monotonic(other + 1, root);
    } else if root < other {
        lemma_square_monotonic(root + 1, other);
    }
}

/// Every non-negative integer has a floor square root, so `floor_sqrt` is one.
pub proof fn lemma_floor_sqrt_exists(n: int)
    requires
        n >= 0,
    ensures
        is_floor_sqrt(n, floor_sqrt(n)),
    decreases n,
{
    if n == 0 {
        assert(is_floor_sqrt(0, 0));
    } else {
        lemma_floor_sqrt_exists(n - 1);
        let r = floor_sqrt(n - 1);
        if (r + 1) * (r + 1) <= n {
            assert((r + 2) * (r + 2) > (r + 1) * (r + 1)) by (nonlinear_arith)
                requires
                    r >= 0,
            ;
            assert(is_floor_sqrt(n, r + 1));
        } else {
            assert(is_floor_sqrt(n, r));
        }
    }
}

/// One digit of the restoring square root: either the next bit is one and the
/// remainder shrinks by the candidate, or it is zero and the remainder stays.
proof fn lemma_sqrt_digit(y: int, d: int, rem: int, value: int)
    requires
        y >= 0,
        d >= 1,
        rem >= 0,
        rem + y * y * (4 * d) == value,
        value < (y + 1) * (y + 1) * (4 * d),
    ensures
        y * (4 * d) == 2 * ((2 * y) * d),
        rem >= y * (4 * d) + d ==> rem - (y * (4 * d) + d) + (2 * y + 1) * (2 * y + 1) * d == value
            && value < (2 * y + 2) * (2 * y + 2) * d,
        rem < y * (4 * d) + d ==> rem + (2 * y) * (2 * y) * d == value && value < (2 * y + 1) * (2
            * y + 1) * d,
        (2 * y) * d + d == (2 * y + 1) * d,
{
    assert(y * (4 * d) == 2 * ((2 * y) * d)) by (nonlinear_arith);
    assert((2 * y) * d + d == (2 * y + 1) * d) by (nonlinear_arith);
    assert((2 * y + 1) * (2 * y + 1) * d == y * y * (4 * d) + y * (4 * d) + d) by (nonlinear_arith);
    assert((2 * y + 2) * (2 * y + 2) * d == (y + 1) * (y + 1) * (4 * d)) by (nonlinear_arith);
    assert((2 * y) * (2 * y) * d == y * y * (4 * d)) by (nonlinear_arith);
}

/// The digit candidate `root + bit` never leaves `u128`.
proof fn lemma_sqrt_candidate_fits(y: nat, k: nat, value: int)
    requires
        1 <= k <= 64,
        y * y * pow4(k) <= value,
        value <= u128::MAX,
    ensures
        y * pow4(k) + pow4((k - 1) as nat) <= u128::MAX,
        y >= 1 ==> y * pow4(k) <= value,
{
    let d = pow4((k - 1) as nat);
    assert(pow4(k) == 4 * d);
    lemma_pow4_values();
    lemma_pow4_monotonic((k - 1) as nat, 63);
    if y >= 1 {
        assert(y * pow4(k) <= y * y * pow4(k)) by (nonlinear_arith)
            requires
                y >= 1,
        ;
    }
    if y == 0 {
        assert(y * pow4(k) == 0);
    } else if y == 1 {
        assert(y * pow4(k) == 4 * d);
        if k - 1 >= 63 {
            lemma_pow4_monotonic(63, (k - 1) as nat);
        }
        lemma_pow4_monotonic((k - 1) as nat, 62);
    } else {
        assert(y * (4 * d) + d <= y * y * (4 * d)) by (nonlinear_arith)
            requires
                y >= 2,
                d >= 0,
        ;
    }
}

/// Floor division facts for a non-negative numerator and a positive denominator.
proof fn lemma_floor_div(n: int, d: int)
    requires
        n >= 0,
        d > 0,
    ensures
        0 <= n / d,
        (n / d) * d <= n,
        n < (n / d + 1) * d,
{
    lemma_fundamental_div_mod(n, d);
    lemma_mod_pos_bound(n, d);
    assert(0 <= n / d) by (nonlinear_arith)
        requires
            n == d * (n / d) + n % d,
            0 <= n % d < d,
            n >= 0,
    ;
    assert((n / d) * d <= n && n < (n / d + 1) * d) by (nonlinear_arith)
        requires
            n == d * (n / d) + n % d,
            0 <= n % d < d,
    ;
}

/// Every swap intermediate of capped operands fits in `u128`.
proof fn lemma_swap_intermediates_fit(a: int, r_in: int, r_out: int, m: int)
    requires
        0 <= a <= cap(),
        0 <= r_in <= cap(),
        0 <= r_out <= cap(),
        0 <= m <= 10_000,
    ensures
        a * m <= cap() * 10_000,
        a * m * r_out <= u128::MAX,
        r_in * 10_000 + a * m <= u128::MAX,
        r_in * r_out <= u128::MAX,
        (r_in + a) * r_out <= u128::MAX,
{
    assert(cap() == 100_000_000_000_000_000);
    assert((cap() * 10_000) * cap() <= u128::MAX);
    assert(cap() * cap() <= u128::MAX);
    assert((2 * cap()) * cap() <= u128::MAX);
    assert(a * m <= cap() * 10_000) by (nonlinear_arith)
        requires
            0 <= a <= cap(),
            0 <= m <= 10_000,
    ;
    assert(a * m * r_out <= (cap() * 10_000) * cap()) by (nonlinear_arith)
        requires
            0 <= a * m <= cap() * 10_000,
            0 <= r_out <= cap(),
    ;
    assert(r_in * r_out <= cap() * cap()) by (nonlinear_arith)
        requires
            0 <= r_in <= cap(),
            0 <= r_out <= cap(),
    ;
    assert((r_in + a) * r_out <= (2 * cap()) * cap()) by (nonlinear_arith)
        requires
            0 <= r_in + a <= 2 * cap(),
            0 <= r_out <= cap(),
    ;
}

/// The swap output stays strictly below the output reserve and never lowers `k`.
pub proof fn lemma_swap_output_keeps_k(a: int, r_in: int, r_out: int, m: int)
    requires
        a >= 1,
        r_in >= 1,
        r_out >= 1,
        1 <= m <= 10_000,
    ensures
        ({
            let out = (a * m * r_out) / (r_in * 10_000 + a * m);
            &&& 0 <= out < r_out
            &&& out * (r_in + a) <= a * r_out
            &&& (r_in + a) * (r_out - out) >= r_in * r_out
        }),
{
    let n = a * m * r_out;
    let dd = r_in * 10_000 + a * m;
    assert(a * m >= 1) by (nonlinear_arith)
        requires
            a >= 1,
            m >= 1,
    ;
    assert(n >= 0) by (nonlinear_arith)
        requires
            a * m >= 1,
            r_out >= 1,
            n == a * m * r_out,
    ;
    lemma_floor_div(n, dd);
    let out = n / dd;
    let am = a * m;
    if out >= r_out {
        assert(out * dd >= r_out * dd) by (nonlinear_arith)
            requires
                out >= r_out,
                dd > 0,
        ;
        assert(r_out * dd > r_out * am) by (nonlinear_arith)
            requires
                dd > am,
                r_out >= 1,
        ;
        assert(n == am * r_out) by (nonlinear_arith)
            requires
                n == a * m * r_out,
                am == a * m,
        ;
        assert(false);
    }
    let x = out * r_in;
    let y = out * a;
    assert(out * dd == 10_000 * x + m * y) by (nonlinear_arith)
        requires
            dd == r_in * 10_000 + a * m,
            x == out * r_in,
            y == out * a,
    ;
    assert(x >= 0 && y >= 0) by (nonlinear_arith)
        requires
            x == out * r_in,
            y == out * a,
            out >= 0,
            r_in >= 1,
            a >= 1,
    ;
    assert(n == m * (a * r_out)) by (nonlinear_arith)
        requires
            n == a * m * r_out,
    ;
    assert(x + y <= a * r_out) by (nonlinear_arith)
        requires
            10_000 * x + m * y <= m * (a * r_out),
            1 <= m <= 10_000,
            x >= 0,
    ;
    assert(out * (r_in + a) == x + y) by (nonlinear_arith)
        requires
            x == out * r_in,
            y == out * a,
    ;
    assert((r_in + a) * (r_out - out) == r_in * r_out + a * r_out - out * (r_in + a))
        by (nonlinear_arith);
}

/// Rounding up stays within `c` exactly when the numerator does not exceed `c · d`.
pub proof fn lemma_ceil_quotient_bound(n: int, d: int, c: int)
    requires
        n >= 0,
        d > 0,
        c >= 0,
    ensures
        0 <= ceil_quotient(n, d) <= n + 1,
        d >= 1 && n >= 1 ==> ceil_quotient(n, d) <= n,
        ceil_quotient(n, d) <= c <==> n <= c * d,
        n <= ceil_quotient(n, d) * d,
{
    lemma_fundamental_div_mod(n, d);
    lemma_mod_pos_bound(n, d);
    lemma_floor_div(n, d);
    let q = n / d;
    let r = n % d;
    assert(n == q * d + r) by (nonlinear_arith)
        requires
            n == d * q + r,
    ;
    assert(q <= n) by (nonlinear_arith)
        requires
            q * d <= n,
            d >= 1,
            q >= 0,
    ;
    if r == 0 {
        assert(q <= c <==> q * d <= c * d) by (nonlinear_arith)
            requires
                d > 0,
        ;
        assert(n <= q * d);
    } else {
        assert(q + 1 <= c <==> n <= c * d) by (nonlinear_arith)
            requires
                n == q * d + r,
                0 < r < d,
                d > 0,
        ;
        assert(n <= (q + 1) * d) by (nonlinear_arith)
            requires
                n == q * d + r,
                r < d,
        ;
        assert(n >= 1 ==> q + 1 <= n) by (nonlinear_arith)
            requires
                n == q * d + r,
                0 < r < d,
                q >= 0,
        ;
    }
}

/// A share `x · r / l` with `x ≤ l` never exceeds `r`.
proof fn lemma_share_bound(x: int, r: int, l: int)
    requires
        0 <= x <= l,
        l > 0,
        r >= 0,
    ensures
        0 <= (x * r) / l <= r,
        (x * r) / l * l <= x * r,
{
    assert(0 <= x * r <= l * r) by (nonlinear_arith)
        requires
            0 <= x <= l,
            r >= 0,
    ;
    lemma_floor_div(x * r, l);
    let q = (x * r) / l;
    assert(q <= r) by (nonlinear_arith)
        requires
            q * l <= x * r,
            x * r <= l * r,
            l > 0,
    ;
}

/// Products of two capped amounts, and their sums with a capped amount, fit in `u128`.
proof fn lemma_capped_product_fits(x: int, y: int, z: int)
    requires
        0 <= x <= cap(),
        0 <= y <= cap(),
        0 <= z <= cap(),
    ensures
        x * y <= cap() * cap(),
        x * y + z <= u128::MAX,
{
    assert(cap() == 100_000_000_000_000_000);
    assert(x * y <= cap() * cap()) by (nonlinear_arith)
        requires
            0 <= x <= cap(),
            0 <= y <= cap(),
    ;
}

// ---------------------------------------------------------------------------
// Square root and rounding division
// ---------------------------------------------------------------------------

/// Floor square root over the whole `u128` domain; it never fails.
pub fn integer_sqrt(value: u128) -> (result: Result<u128, MathError>)
    ensures
        result matches Ok(root) && is_floor_sqrt(value as int, root as int),
{
    if value < 2 {
        assert(value * value <= value < (value + 1) * (value + 1)) by (nonlinear_arith)
            requires
                value < 2,
        ;
        return Ok(value);
    }
    // Digit-by-digit restoring square root: every intermediate stays below `value`,
    // so the full u128 domain including u128::MAX is covered without widening.

    let mut bit = 1u128 << 126;
    let ghost mut j: nat = 63;
    proof {
        assert(1u128 << 126 == 0x4000_0000_0000_0000_0000_0000_0000_0000u128) by (bit_vector);
        lemma_pow4_values();
    }
    while bit > value
        invariant
            2 <= value,
            j <= 63,
            bit as int == pow4(j),
            (value as int) < 4 * pow4(j),
        decreases bit,
    {
        assert(j >= 1);
        assert(bit >> 2 == bit / 4) by (bit_vector);
        bit >>= 2;
        proof {
            j = (j - 1) as nat;
        }
    }
    let mut remainder = value;
    let mut root = 0u128;
    let ghost mut k: nat = j + 1;
    let ghost mut y: nat = 0;
    assert(pow4(k) == 4 * pow4(j));
    assert((y + 1) * (y + 1) * pow4(k) == pow4(k)) by (nonlinear_arith)
        requires
            y == 0,
    ;
    while bit != 0
        invariant
            k <= 64,
            k == 0 ==> bit == 0,
            k > 0 ==> bit as int == pow4((k - 1) as nat),
            root as int == y * pow4(k),
            remainder as int + y * y * pow4(k) == value as int,
            (value as int) < (y + 1) * (y + 1) * pow4(k),
        decreases k,
    {
        let ghost d = pow4((k - 1) as nat);
        assert(pow4(k) == 4 * d);
        proof {
            lemma_sqrt_candidate_fits(y, k, value as int);
            lemma_sqrt_digit(y as int, d as int, remainder as int, value as int);
        }
        let candidate = match root.checked_add(bit) {
            Some(candidate) => candidate,
            None => return Err(MathError::MathOverflow),
        };
        assert(root >> 1 == root / 2) by (bit_vector);
        if remainder >= candidate {
            remainder = match remainder.checked_sub(candidate) {
                Some(rest) => rest,
                None => return Err(MathError::MathOverflow),
            };
            assert((2 * y + 1) * d <= value) by (nonlinear_arith)
                requires
                    (2 * y + 1) * (2 * y + 1) * d <= value,
                    d >= 1,
                    y >= 0,
            ;
            root = match (root >> 1).checked_add(bit) {
                Some(next) => next,
                None => return Err(MathError::MathOverflow),
            };
            proof {
                y = 2 * y + 1;
            }
        } else {
            root >>= 1;
            proof {
                y = 2 * y;
            }
        }
        assert(bit >> 2 == bit / 4) by (bit_vector);
        bit >>= 2;
        proof {
            k = (k - 1) as nat;
            if k > 0 {
                assert(d == 4 * pow4((k - 1) as nat));
            }
        }
    }
    proof {
        if k > 0 {
            lemma_pow4_monotonic(0, (k - 1) as nat);
        }
    }
    assert(k == 0);
    assert(pow4(0) == 1);
    assert(y * pow4(k) == y && y * y * pow4(k) == y * y && (y + 1) * (y + 1) * pow4(k) == (y + 1)
        * (y + 1)) by (nonlinear_arith)
        requires
            pow4(k) == 1,
    ;
    Ok(root)
}

/// Division rounded up; a zero denominator is refused.
pub fn ceil_div(numerator: u128, denominator: u128) -> (result: Result<u128, MathError>)
    ensures
        denominator == 0 ==> result == Err::<u128, MathError>(MathError::ZeroAmount),
        denominator != 0 ==> result == Ok::<u128, MathError>(
            ceil_quotient(numerator as int, denominator as int) as u128,
        ),
{
    if denominator == 0 {
        return Err(MathError::ZeroAmount);
    }
    let quotient = numerator / denominator;
    if numerator % denominator == 0 {
        Ok(quotient)
    } else {
        assert(denominator >= 2);
        assert(quotient < u128::MAX) by (nonlinear_arith)
            requires
                quotient == numerator / denominator,
                denominator >= 2,
                numerator <= u128::MAX,
        ;
        match quotient.checked_add(1) {
            Some(rounded) => Ok(rounded),
            None => Err(MathError::MathOverflow),
        }
    }
}


/// Admits an amount into `u128` arithmetic only when it is within the supply ceiling.
pub fn widen(value: u64) -> (result: Result<u128, MathError>)
    ensures
        value > MAX_SUPPLY_CAP ==> result == Err::<u128, MathError>(MathError::ValueOutOfRange),
        value <= MAX_SUPPLY_CAP ==> result == Ok::<u128, MathError>(value as u128),
{
    if value > MAX_SUPPLY_CAP {
        return Err(MathError::ValueOutOfRange);
    }
    Ok(value as u128)
}

/// Brings a `u128` result back to `u64`, refusing anything above the supply ceiling.
pub fn narrow(value: u128) -> (result: Result<u64, MathError>)
    ensures
        value > MAX_SUPPLY_CAP ==> result == Err::<u64, MathError>(MathError::ValueOutOfRange),
        value <= MAX_SUPPLY_CAP ==> result == Ok::<u64, MathError>(value as u64),
{
    if value > u64::MAX as u128 {
        return Err(MathError::ValueOutOfRange);
    }
    let value = value as u64;
    if value > MAX_SUPPLY_CAP {
        return Err(MathError::ValueOutOfRange);
    }
    Ok(value)
}

/// Quotes a constant-product swap with the fee taken from the input.
pub fn quote_swap(amount_in: u64, reserve_in: u64, reserve_out: u64, fee_bps: u16) -> (result:
    Result<SwapQuote, MathError>)
    ensures
        result == swap_result(amount_in, reserve_in, reserve_out, fee_bps),
{
    if amount_in == 0 {
        return Err(MathError::ZeroAmount);
    }
    if reserve_in == 0 || reserve_out == 0 {
        return Err(MathError::InsufficientLiquidity);
    }
    if fee_bps > MAX_FEE_BPS {
        return Err(MathError::InvalidFee);
    }

    let amount_in = widen(amount_in)?;
    let reserve_in = widen(reserve_in)?;
    let reserve_out = widen(reserve_out)?;

    let ghost m = FEE_DENOMINATOR - fee_bps;
    proof {
        lemma_swap_intermediates_fit(amount_in as int, reserve_in as int, reserve_out as int, m);
        lemma_swap_output_keeps_k(amount_in as int, reserve_in as int, reserve_out as int, m);
    }
    let fee_multiplier = FEE_DENOMINATOR.checked_sub(fee_bps as u128).ok_or(
        MathError::InvalidFee,
    )?;
    let in_with_fee = amount_in.checked_mul(fee_multiplier).ok_or(MathError::MathOverflow)?;
    let numerator = in_with_fee.checked_mul(reserve_out).ok_or(MathError::MathOverflow)?;
    let denominator = reserve_in.checked_mul(FEE_DENOMINATOR).ok_or(
        MathError::MathOverflow,
    )?.checked_add(in_with_fee).ok_or(MathError::MathOverflow)?;
    let amount_out = numerator.checked_div(denominator).ok_or(MathError::MathOverflow)?;
    assert(amount_out as int == swap_output(
        amount_in as int,
        reserve_in as int,
        reserve_out as int,
        fee_bps as int,
    ));

    if amount_out == 0 {
        return Err(MathError::ZeroOutput);
    }
    if amount_out >= reserve_out {
        return Err(MathError::InsufficientLiquidity);
    }

    let new_reserve_in = reserve_in.checked_add(amount_in).ok_or(MathError::MathOverflow)?;
    let new_reserve_out = reserve_out.checked_sub(amount_out).ok_or(MathError::MathOverflow)?;

    let old_k = reserve_in.checked_mul(reserve_out).ok_or(MathError::MathOverflow)?;
    proof {
        lemma_swap_intermediates_fit(
            amount_in as int,
            reserve_in as int,
            new_reserve_out as int,
            m,
        );
    }
    let new_k = new_reserve_in.checked_mul(new_reserve_out).ok_or(MathError::MathOverflow)?;
    if new_k < old_k {
        return Err(MathError::InvalidLiquidityState);
    }

    Ok(
        SwapQuote {
            amount_out: narrow(amount_out)?,
            new_reserve_in: narrow(new_reserve_in)?,
            new_reserve_out: narrow(new_reserve_out)?,
        },
    )
}


/// Quotes the first deposit: `sqrt(a · b)` LP tokens, of which the minimum is locked.
pub fn quote_initial_liquidity(amount_a: u64, amount_b: u64) -> (result: Result<
    InitialLiquidityQuote,
    MathError,
>)
    ensures
        result == initial_liquidity_result(amount_a, amount_b),
{
    if amount_a == 0 || amount_b == 0 {
        return Err(MathError::ZeroAmount);
    }

    let wide_a = widen(amount_a)?;
    let wide_b = widen(amount_b)?;
    proof {
        lemma_capped_product_fits(wide_a as int, wide_b as int, 0);
    }
    let product = wide_a.checked_mul(wide_b).ok_or(MathError::MathOverflow)?;
    let lp_total = integer_sqrt(product)?;
    proof {
        lemma_floor_sqrt_unique(product as int, lp_total as int);
        if lp_total > MAX_SUPPLY_CAP {
            lemma_square_monotonic(cap() + 1, lp_total as int);
            lemma_capped_product_fits(cap() + 1, cap() + 1, 0);
            assert((cap() + 1) * (cap() + 1) > cap() * cap()) by (nonlinear_arith)
                requires
                    cap() > 0,
            ;
        }
    }

    let locked = MINIMUM_LIQUIDITY as u128;
    if lp_total <= locked {
        return Err(MathError::InsufficientInitialLiquidity);
    }

    Ok(
        InitialLiquidityQuote {
            lp_to_user: narrow(lp_total.checked_sub(locked).ok_or(MathError::MathOverflow)?)?,
            lp_to_lock: MINIMUM_LIQUIDITY,
        },
    )
}

/// Quotes a later deposit against existing reserves and LP supply.
pub fn quote_add_liquidity(
    amount_a_desired: u64,
    amount_b_desired: u64,
    reserve_a: u64,
    reserve_b: u64,
    lp_supply: u64,
) -> (result: Result<AddLiquidityQuote, MathError>)
    ensures
        result == add_liquidity_result(
            amount_a_desired,
            amount_b_desired,
            reserve_a,
            reserve_b,
            lp_supply,
        ),
{
    if amount_a_desired == 0 || amount_b_desired == 0 {
        return Err(MathError::ZeroAmount);
    }
    if reserve_a == 0 || reserve_b == 0 {
        return Err(MathError::InsufficientLiquidity);
    }
    if lp_supply < MINIMUM_LIQUIDITY {
        return Err(MathError::InvalidLiquidityState);
    }

    let a_desired = widen(amount_a_desired)?;
    let b_desired = widen(amount_b_desired)?;
    let reserve_a = widen(reserve_a)?;
    let reserve_b = widen(reserve_b)?;
    let lp_supply = widen(lp_supply)?;

    proof {
        lemma_capped_product_fits(a_desired as int, reserve_b as int, 0);
        lemma_capped_product_fits(b_desired as int, reserve_a as int, 0);
        lemma_ceil_quotient_bound(
            a_desired * reserve_b,
            reserve_a as int,
            b_desired as int,
        );
        lemma_ceil_quotient_bound(
            b_desired * reserve_a,
            reserve_b as int,
            a_desired as int,
        );
    }
    // Required deposits round up so the pool never receives less than the ratio demands.
    let b_optimal = ceil_div(
        a_desired.checked_mul(reserve_b).ok_or(MathError::MathOverflow)?,
        reserve_a,
    )?;
    let (amount_a, amount_b) = if b_optimal <= b_desired {
        (a_desired, b_optimal)
    } else {
        let a_optimal = ceil_div(
            b_desired.checked_mul(reserve_a).ok_or(MathError::MathOverflow)?,
            reserve_b,
        )?;
        if a_optimal > a_desired {
            return Err(MathError::ValueOutOfRange);
        }
        (a_optimal, b_desired)
    };
    assert((amount_a as int, amount_b as int) == deposit_amounts(
        a_desired as int,
        b_desired as int,
        reserve_a as int,
        reserve_b as int,
    ));

    proof {
        lemma_capped_product_fits(amount_a as int, lp_supply as int, 0);
        lemma_capped_product_fits(amount_b as int, lp_supply as int, 0);
    }
    let lp_from_a = amount_a.checked_mul(lp_supply).ok_or(MathError::MathOverflow)?.checked_div(
        reserve_a,
    ).ok_or(MathError::MathOverflow)?;
    let lp_from_b = amount_b.checked_mul(lp_supply).ok_or(MathError::MathOverflow)?.checked_div(
        reserve_b,
    ).ok_or(MathError::MathOverflow)?;
    let lp_minted = if lp_from_a <= lp_from_b {
        lp_from_a
    } else {
        lp_from_b
    };
    if lp_minted == 0 {
        return Err(MathError::ZeroOutput);
    }
    proof {
        lemma_floor_div(amount_a * lp_supply, reserve_a as int);
        assert(lp_minted <= amount_a * lp_supply);
        lemma_capped_product_fits(amount_a as int, lp_supply as int, lp_supply as int);
    }

    Ok(
        AddLiquidityQuote {
            amount_a: narrow(amount_a)?,
            amount_b: narrow(amount_b)?,
            lp_minted: narrow(lp_minted)?,
            new_reserve_a: narrow(reserve_a.checked_add(amount_a).ok_or(MathError::MathOverflow)?)?,
            new_reserve_b: narrow(reserve_b.checked_add(amount_b).ok_or(MathError::MathOverflow)?)?,
            new_lp_supply: narrow(lp_supply.checked_add(lp_minted).ok_or(MathError::MathOverflow)?)?,
        },
    )
}

/// Quotes a withdrawal; amounts round down so any remainder stays with the pool.
pub fn quote_remove_liquidity(lp_amount: u64, reserve_a: u64, reserve_b: u64, lp_supply: u64) -> (result:
    Result<RemoveLiquidityQuote, MathError>)
    ensures
        result == remove_liquidity_result(lp_amount, reserve_a, reserve_b, lp_supply),
{
    if lp_amount == 0 {
        return Err(MathError::ZeroAmount);
    }
    if reserve_a == 0 || reserve_b == 0 {
        return Err(MathError::InsufficientLiquidity);
    }
    if lp_supply < MINIMUM_LIQUIDITY {
        return Err(MathError::InvalidLiquidityState);
    }
    if lp_amount > lp_supply {
        return Err(MathError::InsufficientLiquidity);
    }

    let lp_amount = widen(lp_amount)?;
    let reserve_a = widen(reserve_a)?;
    let reserve_b = widen(reserve_b)?;
    let lp_supply = widen(lp_supply)?;

    let remaining_lp = lp_supply.checked_sub(lp_amount).ok_or(MathError::MathOverflow)?;
    if remaining_lp < MINIMUM_LIQUIDITY as u128 {
        return Err(MathError::InsufficientLiquidity);
    }

    proof {
        lemma_capped_product_fits(lp_amount as int, reserve_a as int, 0);
        lemma_capped_product_fits(lp_amount as int, reserve_b as int, 0);
        lemma_share_bound(lp_amount as int, reserve_a as int, lp_supply as int);
        lemma_share_bound(lp_amount as int, reserve_b as int, lp_supply as int);
    }
    // Withdrawals round down, leaving any remainder with the pool.
    let amount_a = lp_amount.checked_mul(reserve_a).ok_or(MathError::MathOverflow)?.checked_div(
        lp_supply,
    ).ok_or(MathError::MathOverflow)?;
    let amount_b = lp_amount.checked_mul(reserve_b).ok_or(MathError::MathOverflow)?.checked_div(
        lp_supply,
    ).ok_or(MathError::MathOverflow)?;
    if amount_a == 0 || amount_b == 0 {
        return Err(MathError::ZeroOutput);
    }

    Ok(
        RemoveLiquidityQuote {
            amount_a: narrow(amount_a)?,
            amount_b: narrow(amount_b)?,
            new_reserve_a: narrow(reserve_a.checked_sub(amount_a).ok_or(MathError::MathOverflow)?)?,
            new_reserve_b: narrow(reserve_b.checked_sub(amount_b).ok_or(MathError::MathOverflow)?)?,
            new_lp_supply: narrow(remaining_lp)?,
        },
    )
}

} // verus!
