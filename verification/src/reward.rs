use crate::error::StakingError;
use vstd::prelude::*;

verus! {

/// Number of raw units in one whole reward token.
pub const RAW_UNITS_PER_TOKEN: u64 = 1_000_000_000;

/// Denominator of the stored per-second rate: a rate of `RATE_SCALE` pays one
/// raw reward unit per raw principal unit per second.
pub const RATE_SCALE: u64 = 1_000_000;

/// Simple interest on `principal` over `elapsed` seconds at `rate_scaled / scale`
/// per second, rounded down.
pub open spec fn reward_amount(principal: nat, elapsed: nat, rate_scaled: nat, scale: nat) -> nat
    recommends
        scale > 0,
{
    (principal * rate_scaled * elapsed) / scale
}

/// What `compute_reward` returns: the reward, or an overflow where the product
/// leaves 128 bits or the reward leaves 64 bits.
pub open spec fn reward_result(principal: u64, elapsed: u64, rate_scaled: u64, scale: u64) -> Result<
    u64,
    StakingError,
> {
    if principal as nat * rate_scaled as nat * elapsed as nat > u128::MAX {
        Err(StakingError::ArithmeticOverflow)
    } else if reward_amount(principal as nat, elapsed as nat, rate_scaled as nat, scale as nat)
        > u64::MAX {
        Err(StakingError::ArithmeticOverflow)
    } else {
        Ok(reward_amount(principal as nat, elapsed as nat, rate_scaled as nat, scale as nat) as u64)
    }
}

/// Reward accrued by `principal` over `elapsed_seconds`, in raw reward units.
pub fn compute_reward(principal: u64, elapsed_seconds: u64, rate_scaled: u64, scale: u64) -> (r:
    Result<u64, StakingError>)
    requires
        scale > 0,
    ensures
        r == reward_result(principal, elapsed_seconds, rate_scaled, scale),
        principal == 0 || elapsed_seconds == 0 ==> r == Ok::<u64, StakingError>(0),
{
    proof {
        lemma_product_bound(principal as nat, rate_scaled as nat);
        lemma_reward_zero(principal as nat, elapsed_seconds as nat, rate_scaled as nat, scale as nat);
        if principal == 0 || elapsed_seconds == 0 {
            assert(principal as nat * rate_scaled as nat * elapsed_seconds as nat == 0)
                by (nonlinear_arith)
                requires
                    principal == 0 || elapsed_seconds == 0,
            ;
        }
    }
    let weighted: u128 = (principal as u128) * (rate_scaled as u128);
    match weighted.checked_mul(elapsed_seconds as u128) {
        None => Err(StakingError::ArithmeticOverflow),
        Some(product) => {
            let reward: u128 = product / (scale as u128);
            if reward > u64::MAX as u128 {
                Err(StakingError::ArithmeticOverflow)
            } else {
                Ok(reward as u64)
            }
        },
    }
}

/// What `calculate_rewards` returns: the reward at the program-wide scale, or an
/// overflow where the time span is negative.
pub open spec fn calculated_rewards(staked_amount: u64, time_staked_seconds: i64, rate: u64) -> Result<
    u64,
    StakingError,
> {
    if time_staked_seconds < 0 {
        Err(StakingError::ArithmeticOverflow)
    } else {
        reward_result(staked_amount, time_staked_seconds as u64, rate, RATE_SCALE)
    }
}

/// Reward on `staked_amount` over a signed span of seconds at the program-wide scale.
pub fn calculate_rewards(staked_amount: u64, time_staked_seconds: i64, stake_rate_per_second: u64) -> (r:
    Result<u64, StakingError>)
    ensures
        r == calculated_rewards(staked_amount, time_staked_seconds, stake_rate_per_second),
{
    if time_staked_seconds < 0 {
        return Err(StakingError::ArithmeticOverflow);
    }
    compute_reward(staked_amount, time_staked_seconds as u64, stake_rate_per_second, RATE_SCALE)
}

/// Whole reward tokens contained in a raw amount, rounded down.
pub fn get_wallet_adjusted_yos_amount(amount: u64) -> (r: u64)
    ensures
        r == amount / RAW_UNITS_PER_TOKEN,
{
    amount / RAW_UNITS_PER_TOKEN
}

proof fn lemma_product_bound(a: nat, b: nat)
    requires
        a <= u64::MAX,
        b <= u64::MAX,
    ensures
        a * b <= u128::MAX,
{
    assert(a * b <= 0xffff_ffff_ffff_ffff * 0xffff_ffff_ffff_ffff) by (nonlinear_arith)
        requires
            a <= 0xffff_ffff_ffff_ffff,
            b <= 0xffff_ffff_ffff_ffff,
    ;
}

/// No principal or no elapsed time earns nothing.
pub proof fn lemma_reward_zero(principal: nat, elapsed: nat, rate_scaled: nat, scale: nat)
    requires
        scale > 0,
    ensures
        reward_amount(principal, 0, rate_scaled, scale) == 0,
        reward_amount(0, elapsed, rate_scaled, scale) == 0,
{
    assert(principal * rate_scaled * 0 == 0) by (nonlinear_arith);
    assert(0 * rate_scaled * elapsed == 0) by (nonlinear_arith);
    assert(0nat / scale == 0) by (nonlinear_arith)
        requires
            scale > 0,
    ;
}

/// Doubling a dividend doubles the quotient exactly when the remainder is under
/// half the divisor, and never adds more than one unit.
proof fn lemma_double_quotient(x: nat, s: nat)
    requires
        s > 0,
    ensures
        2 * (x / s) <= (2 * x) / s <= 2 * (x / s) + 1,
        ((2 * x) / s == 2 * (x / s)) <==> 2 * (x % s) < s,
{
    let q = x / s;
    let m = x % s;
    assert(x == s * q + m && 0 <= m < s) by (nonlinear_arith)
        requires
            s > 0,
            q == x / s,
            m == x % s,
    ;
    if 2 * m < s {
        assert((2 * x) / s == 2 * q) by (nonlinear_arith)
            requires
                s > 0,
                x == s * q + m,
                0 <= 2 * m < s,
        ;
    } else {
        assert((2 * x) / s == 2 * q + 1) by (nonlinear_arith)
            requires
                s > 0,
                x == s * q + m,
                s <= 2 * m < 2 * s,
        ;
    }
}

/// Reward is linear in the principal up to rounding: twice the principal earns
/// twice the reward or one unit more, and exactly twice when the remainder of
/// the division is under half the scale.
pub proof fn lemma_reward_double_principal(principal: nat, elapsed: nat, rate_scaled: nat, scale: nat)
    requires
        scale > 0,
    ensures
        2 * reward_amount(principal, elapsed, rate_scaled, scale) <= reward_amount(
            2 * principal,
            elapsed,
            rate_scaled,
            scale,
        ) <= 2 * reward_amount(principal, elapsed, rate_scaled, scale) + 1,
        (reward_amount(2 * principal, elapsed, rate_scaled, scale) == 2 * reward_amount(
            principal,
            elapsed,
            rate_scaled,
            scale,
        )) <==> 2 * ((principal * rate_scaled * elapsed) % scale) < scale,
{
    let x = principal * rate_scaled * elapsed;
    assert((2 * principal) * rate_scaled * elapsed == 2 * x) by (nonlinear_arith)
        requires
            x == principal * rate_scaled * elapsed,
    ;
    lemma_double_quotient(x, scale);
}

/// Reward is linear in the elapsed time up to rounding: twice the time earns
/// twice the reward or one unit more, and exactly twice when the remainder of
/// the division is under half the scale.
pub proof fn lemma_reward_double_elapsed(principal: nat, elapsed: nat, rate_scaled: nat, scale: nat)
    requires
        scale > 0,
    ensures
        2 * reward_amount(principal, elapsed, rate_scaled, scale) <= reward_amount(
            principal,
            2 * elapsed,
            rate_scaled,
            scale,
        ) <= 2 * reward_amount(principal, elapsed, rate_scaled, scale) + 1,
        (reward_amount(principal, 2 * elapsed, rate_scaled, scale) == 2 * reward_amount(
            principal,
            elapsed,
            rate_scaled,
            scale,
        )) <==> 2 * ((principal * rate_scaled * elapsed) % scale) < scale,
{
    let x = principal * rate_scaled * elapsed;
    assert(principal * rate_scaled * (2 * elapsed) == 2 * x) by (nonlinear_arith)
        requires
            x == principal * rate_scaled * elapsed,
    ;
    lemma_double_quotient(x, scale);
}

/// Where the scale divides the undivided product, reward is exactly linear in
/// both principal and elapsed time.
pub proof fn lemma_reward_linear_exact(principal: nat, elapsed: nat, rate_scaled: nat, scale: nat)
    requires
        scale > 0,
        (principal * rate_scaled * elapsed) % scale == 0,
    ensures
        reward_amount(2 * principal, elapsed, rate_scaled, scale) == 2 * reward_amount(
            principal,
            elapsed,
            rate_scaled,
            scale,
        ),
        reward_amount(principal, 2 * elapsed, rate_scaled, scale) == 2 * reward_amount(
            principal,
            elapsed,
            rate_scaled,
            scale,
        ),
{
    lemma_reward_double_principal(principal, elapsed, rate_scaled, scale);
    lemma_reward_double_elapsed(principal, elapsed, rate_scaled, scale);
}

} // verus!
