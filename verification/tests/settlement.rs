use yot_staking::address::Address;
use yot_staking::error::StakingError;
use yot_staking::settlement::{
    accrued_reward, elapsed_seconds, harvest, stake, unstake, unstake_outcome, Harvest, Unstake,
    UnstakeOutcome,
};
use yot_staking::state::{ProgramState, StakingAccount};

fn who(seed: u8) -> Address {
    Address::new([seed; 32])
}

fn rules() -> ProgramState {
    ProgramState {
        is_initialized: true,
        admin: who(1),
        yot_mint: who(2),
        yos_mint: who(3),
        // 1_000 / 1_000_000 per second
        stake_rate_per_second: 1_000,
        harvest_threshold: 50,
        stake_threshold: 100,
        unstake_threshold: 10,
    }
}

fn record(staked: u64, last_harvest: i64, harvested: u64) -> StakingAccount {
    StakingAccount {
        owner: who(7),
        staked_amount: staked,
        last_harvest_time: last_harvest,
        last_stake_time: last_harvest,
        total_harvested: harvested,
    }
}

#[test]
fn first_stake_opens_the_record() {
    let after = stake(None, &rules(), &who(7), true, 500, 1_000).unwrap();
    assert_eq!(
        after,
        StakingAccount {
            owner: who(7),
            staked_amount: 500,
            last_harvest_time: 1_000,
            last_stake_time: 1_000,
            total_harvested: 0,
        }
    );
}

#[test]
fn stake_adds_to_the_principal_and_stamps_the_time() {
    let before = record(500, 1_000, 33);
    let after = stake(Some(before), &rules(), &who(7), true, 100, 2_000).unwrap();
    assert_eq!(after.staked_amount, 600);
    assert_eq!(after.last_stake_time, 2_000);
    assert_eq!(after.last_harvest_time, 1_000);
    assert_eq!(after.total_harvested, 33);
    assert_eq!(after.owner, who(7));
}

#[test]
fn stake_under_the_threshold_is_refused() {
    let before = record(500, 1_000, 0);
    assert_eq!(
        stake(Some(before), &rules(), &who(7), true, 99, 2_000),
        Err(StakingError::BelowThreshold)
    );
    assert_eq!(stake(None, &rules(), &who(7), true, 0, 2_000), Err(StakingError::BelowThreshold));
}

#[test]
fn stake_refusals_come_in_order() {
    let before = record(500, 1_000, 0);
    let mut off = rules();
    off.is_initialized = false;
    // unsigned beats everything
    assert_eq!(
        stake(Some(before), &off, &who(8), false, 1, 2_000),
        Err(StakingError::MissingSignature)
    );
    assert_eq!(
        stake(Some(before), &off, &who(8), true, 1, 2_000),
        Err(StakingError::NotInitialized)
    );
    // someone else's record
    assert_eq!(
        stake(Some(before), &rules(), &who(8), true, 1, 2_000),
        Err(StakingError::Unauthorized)
    );
    // a sum that does not fit
    let full = record(u64::MAX - 99, 1_000, 0);
    assert_eq!(
        stake(Some(full), &rules(), &who(7), true, 100, 2_000),
        Err(StakingError::ArithmeticOverflow)
    );
    assert_eq!(
        stake(Some(full), &rules(), &who(7), true, 99, 2_000),
        Err(StakingError::BelowThreshold)
    );
    let room = record(u64::MAX - 100, 1_000, 0);
    assert_eq!(
        stake(Some(room), &rules(), &who(7), true, 100, 2_000).unwrap().staked_amount,
        u64::MAX
    );
}

#[test]
fn elapsed_window_spans_the_whole_clock() {
    assert_eq!(elapsed_seconds(10, 10), Ok(0));
    assert_eq!(elapsed_seconds(10, 25), Ok(15));
    assert_eq!(elapsed_seconds(-5, 5), Ok(10));
    assert_eq!(elapsed_seconds(i64::MIN, i64::MAX), Ok(u64::MAX));
    assert_eq!(elapsed_seconds(11, 10), Err(StakingError::ArithmeticOverflow));
}

#[test]
fn accrued_reward_uses_the_current_rate() {
    let account = record(1_000_000, 1_000, 0);
    // 1_000_000 * 1_000 * 100 / 1_000_000 = 100_000
    assert_eq!(accrued_reward(&account, &rules(), 1_100), Ok(100_000));
    let mut faster = rules();
    faster.stake_rate_per_second = 3_000;
    assert_eq!(accrued_reward(&account, &faster, 1_100), Ok(300_000));
    assert_eq!(accrued_reward(&account, &rules(), 1_000), Ok(0));
    assert_eq!(accrued_reward(&account, &rules(), 999), Err(StakingError::ArithmeticOverflow));
}

#[test]
fn harvest_pays_the_reward_and_restarts_the_window() {
    let account = record(1_000_000, 1_000, 5);
    let settled = harvest(&account, &rules(), &who(7), true, Some(100_000), 1_100).unwrap();
    assert_eq!(
        settled,
        Harvest {
            account: StakingAccount {
                owner: who(7),
                staked_amount: 1_000_000,
                last_harvest_time: 1_100,
                last_stake_time: 1_000,
                total_harvested: 100_005,
            },
            reward: 100_000,
        }
    );
    // harvesting again at once earns nothing, which is under the threshold
    assert_eq!(
        harvest(&settled.account, &rules(), &who(7), true, Some(100_000), 1_100),
        Err(StakingError::BelowThreshold)
    );
}

#[test]
fn harvest_under_the_threshold_is_refused() {
    // 1_000 * 1_000 * 49 / 1_000_000 = 49
    let account = record(1_000, 0, 0);
    assert_eq!(
        harvest(&account, &rules(), &who(7), true, Some(u64::MAX), 49),
        Err(StakingError::BelowThreshold)
    );
    let settled = harvest(&account, &rules(), &who(7), true, Some(u64::MAX), 50).unwrap();
    assert_eq!(settled.reward, 50);
}

#[test]
fn harvest_needs_a_funded_pool() {
    let account = record(1_000_000, 1_000, 0);
    assert_eq!(
        harvest(&account, &rules(), &who(7), true, Some(99_999), 1_100),
        Err(StakingError::InsufficientBalance)
    );
    assert_eq!(
        harvest(&account, &rules(), &who(7), true, Some(0), 1_100),
        Err(StakingError::InsufficientBalance)
    );
    assert_eq!(
        harvest(&account, &rules(), &who(7), true, None, 1_100),
        Err(StakingError::MalformedRequest)
    );
}

#[test]
fn harvest_refusals_come_in_order() {
    let account = record(1_000_000, 1_000, u64::MAX);
    let mut off = rules();
    off.is_initialized = false;
    assert_eq!(
        harvest(&account, &off, &who(8), false, None, 0),
        Err(StakingError::MissingSignature)
    );
    assert_eq!(harvest(&account, &off, &who(8), true, None, 0), Err(StakingError::NotInitialized));
    assert_eq!(
        harvest(&account, &rules(), &who(8), true, None, 0),
        Err(StakingError::Unauthorized)
    );
    // the clock is behind the record
    assert_eq!(
        harvest(&account, &rules(), &who(7), true, None, 0),
        Err(StakingError::ArithmeticOverflow)
    );
    // the harvested total has no room left
    assert_eq!(
        harvest(&account, &rules(), &who(7), true, Some(u64::MAX), 1_100),
        Err(StakingError::ArithmeticOverflow)
    );
    // the reward itself does not fit
    let huge = record(u64::MAX, 0, 0);
    let mut steep = rules();
    steep.stake_rate_per_second = u64::MAX;
    assert_eq!(
        harvest(&huge, &steep, &who(7), true, Some(u64::MAX), i64::MAX),
        Err(StakingError::ArithmeticOverflow)
    );
}

#[test]
fn unstake_returns_principal_and_reward() {
    let account = record(1_000_000, 1_000, 5);
    let settled = unstake(&account, &rules(), &who(7), true, 400_000, Some(100_000), 1_100).unwrap();
    assert_eq!(
        settled,
        Unstake {
            account: StakingAccount {
                owner: who(7),
                staked_amount: 600_000,
                last_harvest_time: 1_100,
                last_stake_time: 1_000,
                total_harvested: 100_005,
            },
            principal: 400_000,
            reward_due: 100_000,
            reward_covered: true,
        }
    );
    assert_eq!(
        unstake_outcome(&settled, true),
        UnstakeOutcome::Completed { principal: 400_000, reward: 100_000 }
    );
    assert_eq!(
        unstake_outcome(&settled, false),
        UnstakeOutcome::RewardNotPaid { principal: 400_000, reward_due: 100_000 }
    );
}

#[test]
fn unstake_with_an_empty_reward_pool_still_returns_the_principal() {
    let account = record(1_000_000, 1_000, 5);
    let settled = unstake(&account, &rules(), &who(7), true, 1_000_000, Some(0), 1_100).unwrap();
    assert_eq!(settled.principal, 1_000_000);
    assert_eq!(settled.account.staked_amount, 0);
    assert_eq!(settled.account.total_harvested, 5);
    assert_eq!(settled.account.last_harvest_time, 1_100);
    assert_eq!(settled.reward_due, 100_000);
    assert!(!settled.reward_covered);
    assert_eq!(
        unstake_outcome(&settled, false),
        UnstakeOutcome::RewardNotPaid { principal: 1_000_000, reward_due: 100_000 }
    );
    assert_eq!(
        unstake_outcome(&settled, true),
        UnstakeOutcome::RewardNotPaid { principal: 1_000_000, reward_due: 100_000 }
    );
    // a pool that cannot be read is treated the same way
    let unread = unstake(&account, &rules(), &who(7), true, 1_000_000, None, 1_100).unwrap();
    assert_eq!(unread, settled);
}

#[test]
fn unstake_without_reward_completes() {
    let account = record(1_000_000, 1_000, 5);
    let settled = unstake(&account, &rules(), &who(7), true, 10, Some(0), 1_000).unwrap();
    assert_eq!(settled.reward_due, 0);
    assert!(!settled.reward_covered);
    assert_eq!(settled.account.total_harvested, 5);
    assert_eq!(settled.account.staked_amount, 999_990);
    assert_eq!(
        unstake_outcome(&settled, false),
        UnstakeOutcome::Completed { principal: 10, reward: 0 }
    );
}

#[test]
fn unstake_of_more_than_is_staked_is_refused() {
    let account = record(1_000, 1_000, 0);
    assert_eq!(
        unstake(&account, &rules(), &who(7), true, 1_001, Some(u64::MAX), 1_100),
        Err(StakingError::InsufficientBalance)
    );
    // also where the amount is under the threshold as well
    let small = record(3, 1_000, 0);
    assert_eq!(
        unstake(&small, &rules(), &who(7), true, 4, Some(u64::MAX), 1_100),
        Err(StakingError::InsufficientBalance)
    );
    assert_eq!(
        unstake(&small, &rules(), &who(7), true, 3, Some(u64::MAX), 1_100),
        Err(StakingError::BelowThreshold)
    );
}

#[test]
fn unstake_refusals_come_in_order() {
    let account = record(1_000_000, 1_000, u64::MAX);
    let mut off = rules();
    off.is_initialized = false;
    assert_eq!(
        unstake(&account, &off, &who(8), false, 0, None, 0),
        Err(StakingError::MissingSignature)
    );
    assert_eq!(
        unstake(&account, &off, &who(8), true, 0, None, 0),
        Err(StakingError::NotInitialized)
    );
    assert_eq!(
        unstake(&account, &rules(), &who(8), true, 0, None, 0),
        Err(StakingError::Unauthorized)
    );
    assert_eq!(
        unstake(&account, &rules(), &who(7), true, 9, None, 0),
        Err(StakingError::BelowThreshold)
    );
    assert_eq!(
        unstake(&account, &rules(), &who(7), true, 10, None, 0),
        Err(StakingError::ArithmeticOverflow)
    );
    // a covered reward that the harvested total has no room for
    assert_eq!(
        unstake(&account, &rules(), &who(7), true, 10, Some(u64::MAX), 1_100),
        Err(StakingError::ArithmeticOverflow)
    );
    // the same reward, not covered, leaves the total alone
    let skipped = unstake(&account, &rules(), &who(7), true, 10, Some(1), 1_100).unwrap();
    assert_eq!(skipped.account.total_harvested, u64::MAX);
}
