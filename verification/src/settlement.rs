use crate::address::Address;
use crate::error::StakingError;
use crate::reward::{compute_reward, reward_result, RATE_SCALE};
use crate::state::{ProgramState, StakingAccount};
use vstd::prelude::*;

verus! {

/// A settled harvest: the record to persist and the reward to pay out.
#[derive(Clone, Copy, Debug, PartialEq, Eq)]
pub struct Harvest {
    pub account: StakingAccount,
    pub reward: u64,
}

/// A settled withdrawal: the record to persist, the principal to return, the
/// reward that accrued, and whether the pool covers it.
#[derive(Clone, Copy, Debug, PartialEq, Eq)]
pub struct Unstake {
    pub account: StakingAccount,
    pub principal: u64,
    pub reward_due: u64,
    /// Whether the reward is credited to the record and its transfer attempted.
    pub reward_covered: bool,
}

/// How a withdrawal ended once its transfers were attempted.
#[derive(Clone, Copy, Debug, PartialEq, Eq, Structural)]
pub enum UnstakeOutcome {
    /// Principal returned, and the reward, if any, paid.
    Completed { principal: u64, reward: u64 },
    /// Principal returned; the reward that was due was not paid.
    RewardNotPaid { principal: u64, reward_due: u64 },
}

/// Seconds from `last` to `now`; an overflow where the clock is behind `last`.
pub open spec fn elapsed_window(last: i64, now: i64) -> Result<u64, StakingError> {
    if now < last {
        Err(StakingError::ArithmeticOverflow)
    } else {
        Ok((now - last) as u64)
    }
}

/// Reward that `account` has accrued since its last harvest, at the rate that
/// `config` holds now.
pub open spec fn pending_reward(account: StakingAccount, config: ProgramState, now: i64) -> Result<
    u64,
    StakingError,
> {
    match elapsed_window(account.last_harvest_time, now) {
        Ok(elapsed) => reward_result(
            account.staked_amount,
            elapsed,
            config.stake_rate_per_second,
            RATE_SCALE,
        ),
        Err(e) => Err(e),
    }
}

/// What `stake` returns. Checked in this order: signature, live configuration,
/// ownership of an existing record, threshold, room for the sum.
pub open spec fn stake_result(
    existing: Option<StakingAccount>,
    config: ProgramState,
    caller: Address,
    signed: bool,
    amount: u64,
    now: i64,
) -> Result<StakingAccount, StakingError> {
    let account = match existing {
        Some(account) => account,
        None => StakingAccount::opened(caller, now),
    };
    if !signed {
        Err(StakingError::MissingSignature)
    } else if !config.is_initialized {
        Err(StakingError::NotInitialized)
    } else if account.owner != caller {
        Err(StakingError::Unauthorized)
    } else if amount < config.stake_threshold {
        Err(StakingError::BelowThreshold)
    } else if account.staked_amount + amount > u64::MAX {
        Err(StakingError::ArithmeticOverflow)
    } else {
        Ok(
            StakingAccount {
                staked_amount: (account.staked_amount + amount) as u64,
                last_stake_time: now,
                ..account
            },
        )
    }
}

/// What `harvest` returns. Checked in this order: signature, live
/// configuration, ownership, elapsed window and reward, threshold, readable
/// pool balance, pool funding, room for the harvested total.
pub open spec fn harvest_result(
    account: StakingAccount,
    config: ProgramState,
    caller: Address,
    signed: bool,
    pool_balance: Option<u64>,
    now: i64,
) -> Result<Harvest, StakingError> {
    if !signed {
        Err(StakingError::MissingSignature)
    } else if !config.is_initialized {
        Err(StakingError::NotInitialized)
    } else if account.owner != caller {
        Err(StakingError::Unauthorized)
    } else {
        match pending_reward(account, config, now) {
            Err(e) => Err(e),
            Ok(reward) => if reward < config.harvest_threshold {
                Err(StakingError::BelowThreshold)
            } else {
                match pool_balance {
                    None => Err(StakingError::MalformedRequest),
                    Some(balance) => if balance < reward {
                        Err(StakingError::InsufficientBalance)
                    } else if account.total_harvested + reward > u64::MAX {
                        Err(StakingError::ArithmeticOverflow)
                    } else {
                        Ok(
                            Harvest {
                                account: StakingAccount {
                                    last_harvest_time: now,
                                    total_harvested: (account.total_harvested + reward) as u64,
                                    ..account
                                },
                                reward,
                            },
                        )
                    },
                }
            },
        }
    }
}

/// Whether the pool can pay `reward`: there is one, and a readable balance covers it.
pub open spec fn reward_covered(reward: u64, pool_balance: Option<u64>) -> bool {
    reward > 0 && (pool_balance matches Some(balance) && balance >= reward)
}

/// What `unstake` returns. Checked in this order: signature, live
/// configuration, ownership, staked balance, threshold, elapsed window and
/// reward, room for the harvested total where the reward is covered. A reward
/// that the pool does not cover is left out of the harvested total.
pub open spec fn unstake_result(
    account: StakingAccount,
    config: ProgramState,
    caller: Address,
    signed: bool,
    amount: u64,
    pool_balance: Option<u64>,
    now: i64,
) -> Result<Unstake, StakingError> {
    if !signed {
        Err(StakingError::MissingSignature)
    } else if !config.is_initialized {
        Err(StakingError::NotInitialized)
    } else if account.owner != caller {
        Err(StakingError::Unauthorized)
    } else if amount > account.staked_amount {
        Err(StakingError::InsufficientBalance)
    } else if amount < config.unstake_threshold {
        Err(StakingError::BelowThreshold)
    } else {
        match pending_reward(account, config, now) {
            Err(e) => Err(e),
            Ok(reward) => {
                let covered = reward_covered(reward, pool_balance);
                if covered && account.total_harvested + reward > u64::MAX {
                    Err(StakingError::ArithmeticOverflow)
                } else {
                    Ok(
                        Unstake {
                            account: StakingAccount {
                                staked_amount: (account.staked_amount - amount) as u64,
                                last_harvest_time: now,
                                total_harvested: if covered {
                                    (account.total_harvested + reward) as u64
                                } else {
                                    account.total_harvested
                                },
                                ..account
                            },
                            principal: amount,
                            reward_due: reward,
                            reward_covered: covered,
                        },
                    )
                }
            },
        }
    }
}

/// How a settled withdrawal ends, given whether the reward transfer went through.
pub open spec fn unstake_outcome_of(settled: Unstake, reward_transferred: bool) -> UnstakeOutcome {
    if settled.reward_due == 0 {
        UnstakeOutcome::Completed { principal: settled.principal, reward: 0 }
    } else if settled.reward_covered && reward_transferred {
        UnstakeOutcome::Completed { principal: settled.principal, reward: settled.reward_due }
    } else {
        UnstakeOutcome::RewardNotPaid {
            principal: settled.principal,
            reward_due: settled.reward_due,
        }
    }
}

/// Seconds from `last` to `now`.
pub fn elapsed_seconds(last: i64, now: i64) -> (r: Result<u64, StakingError>)
    ensures
        r == elapsed_window(last, now),
{
    if now < last {
        Err(StakingError::ArithmeticOverflow)
    } else {
        Ok((now as i128 - last as i128) as u64)
    }
}

/// Reward that `account` has accrued since its last harvest.
pub fn accrued_reward(account: &StakingAccount, config: &ProgramState, now: i64) -> (r: Result<
    u64,
    StakingError,
>)
    ensures
        r == pending_reward(*account, *config, now),
{
    match elapsed_seconds(account.last_harvest_time, now) {
        Ok(elapsed) => compute_reward(
            account.staked_amount,
            elapsed,
            config.stake_rate_per_second,
            RATE_SCALE,
        ),
        Err(e) => Err(e),
    }
}

/// Adds `amount` of principal to the caller's record, opening it where there is none.
pub fn stake(
    existing: Option<StakingAccount>,
    config: &ProgramState,
    caller: &Address,
    signed: bool,
    amount: u64,
    now: i64,
) -> (r: Result<StakingAccount, StakingError>)
    ensures
        r == stake_result(existing, *config, *caller, signed, amount, now),
{
    let account = match existing {
        Some(account) => account,
        None => StakingAccount::open(*caller, now),
    };
    if !signed {
        return Err(StakingError::MissingSignature);
    }
    if !config.is_initialized {
        return Err(StakingError::NotInitialized);
    }
    if !account.owner.same(caller) {
        return Err(StakingError::Unauthorized);
    }
    if amount < config.stake_threshold {
        return Err(StakingError::BelowThreshold);
    }
    match account.staked_amount.checked_add(amount) {
        None => Err(StakingError::ArithmeticOverflow),
        Some(staked_amount) => Ok(
            StakingAccount {
                owner: account.owner,
                staked_amount,
                last_harvest_time: account.last_harvest_time,
                last_stake_time: now,
                total_harvested: account.total_harvested,
            },
        ),
    }
}

/// Settles the reward accrued since the last harvest against the pool balance.
pub fn harvest(
    account: &StakingAccount,
    config: &ProgramState,
    caller: &Address,
    signed: bool,
    pool_balance: Option<u64>,
    now: i64,
) -> (r: Result<Harvest, StakingError>)
    ensures
        r == harvest_result(*account, *config, *caller, signed, pool_balance, now),
{
    if !signed {
        return Err(StakingError::MissingSignature);
    }
    if !config.is_initialized {
        return Err(StakingError::NotInitialized);
    }
    if !account.owner.same(caller) {
        return Err(StakingError::Unauthorized);
    }
    let reward = match accrued_reward(account, config, now) {
        Ok(reward) => reward,
        Err(e) => { return Err(e); },
    };
    if reward < config.harvest_threshold {
        return Err(StakingError::BelowThreshold);
    }
    let balance = match pool_balance {
        Some(balance) => balance,
        None => { return Err(StakingError::MalformedRequest); },
    };
    if balance < reward {
        return Err(StakingError::InsufficientBalance);
    }
    match account.total_harvested.checked_add(reward) {
        None => Err(StakingError::ArithmeticOverflow),
        Some(total_harvested) => Ok(
            Harvest {
                account: StakingAccount {
                    owner: account.owner,
                    staked_amount: account.staked_amount,
                    last_harvest_time: now,
                    last_stake_time: account.last_stake_time,
                    total_harvested,
                },
                reward,
            },
        ),
    }
}

/// Withdraws `amount` of principal and settles the accrued reward as far as
/// the pool covers it.
pub fn unstake(
    account: &StakingAccount,
    config: &ProgramState,
    caller: &Address,
    signed: bool,
    amount: u64,
    pool_balance: Option<u64>,
    now: i64,
) -> (r: Result<Unstake, StakingError>)
    ensures
        r == unstake_result(*account, *config, *caller, signed, amount, pool_balance, now),
{
    if !signed {
        return Err(StakingError::MissingSignature);
    }
    if !config.is_initialized {
        return Err(StakingError::NotInitialized);
    }
    if !account.owner.same(caller) {
        return Err(StakingError::Unauthorized);
    }
    if amount > account.staked_amount {
        return Err(StakingError::InsufficientBalance);
    }
    if amount < config.unstake_threshold {
        return Err(StakingError::BelowThreshold);
    }
    let reward = match accrued_reward(account, config, now) {
        Ok(reward) => reward,
        Err(e) => { return Err(e); },
    };
    let covered = reward > 0 && match pool_balance {
        Some(balance) => balance >= reward,
        None => false,
    };
    let total_harvested = if covered {
        match account.total_harvested.checked_add(reward) {
            Some(total) => total,
            None => { return Err(StakingError::ArithmeticOverflow); },
        }
    } else {
        account.total_harvested
    };
    Ok(
        Unstake {
            account: StakingAccount {
                owner: account.owner,
                staked_amount: account.staked_amount - amount,
                last_harvest_time: now,
                last_stake_time: account.last_stake_time,
                total_harvested,
            },
            principal: amount,
            reward_due: reward,
            reward_covered: covered,
        },
    )
}

/// Reports how a settled withdrawal ended once the principal was returned and
/// the reward transfer, where one was due and covered, was attempted.
pub fn unstake_outcome(settled: &Unstake, reward_transferred: bool) -> (r: UnstakeOutcome)
    ensures
        r == unstake_outcome_of(*settled, reward_transferred),
{
    if settled.reward_due == 0 {
        UnstakeOutcome::Completed { principal: settled.principal, reward: 0 }
    } else if settled.reward_covered && reward_transferred {
        UnstakeOutcome::Completed { principal: settled.principal, reward: settled.reward_due }
    } else {
        UnstakeOutcome::RewardNotPaid {
            principal: settled.principal,
            reward_due: settled.reward_due,
        }
    }
}

/// A stake of at least the threshold adds exactly `amount` to the staked
/// principal and stamps the record with `now`; owner, last harvest time and
/// harvested total are as before.
pub proof fn lemma_stake_adds_principal(
    existing: Option<StakingAccount>,
    config: ProgramState,
    caller: Address,
    amount: u64,
    now: i64,
)
    requires
        config.is_initialized,
        existing matches Some(account) ==> account.owner == caller,
        amount >= config.stake_threshold,
        staked_before(existing) + amount <= u64::MAX,
    ensures
        stake_result(existing, config, caller, true, amount, now) matches Ok(after)
            && after.staked_amount == staked_before(existing) + amount && after.last_stake_time
            == now && after.owner == caller && (existing matches Some(before)
            ==> after.last_harvest_time == before.last_harvest_time && after.total_harvested
            == before.total_harvested),
{
}

/// Principal on a record that may not exist yet.
pub open spec fn staked_before(existing: Option<StakingAccount>) -> nat {
    match existing {
        Some(account) => account.staked_amount as nat,
        None => 0,
    }
}

/// A stake under the threshold is refused as such, and no record comes back.
pub proof fn lemma_stake_below_threshold(
    existing: Option<StakingAccount>,
    config: ProgramState,
    caller: Address,
    amount: u64,
    now: i64,
)
    requires
        config.is_initialized,
        existing matches Some(account) ==> account.owner == caller,
        amount < config.stake_threshold,
    ensures
        stake_result(existing, config, caller, true, amount, now) == Err::<
            StakingAccount,
            StakingError,
        >(StakingError::BelowThreshold),
{
}

/// A withdrawal of more than is staked is refused for want of balance, and no
/// record comes back.
pub proof fn lemma_unstake_insufficient(
    account: StakingAccount,
    config: ProgramState,
    amount: u64,
    pool_balance: Option<u64>,
    now: i64,
)
    requires
        config.is_initialized,
        amount > account.staked_amount,
    ensures
        unstake_result(account, config, account.owner, true, amount, pool_balance, now) == Err::<
            Unstake,
            StakingError,
        >(StakingError::InsufficientBalance),
{
}

/// A harvest whose reward is under the threshold is refused as such, and no
/// record comes back.
pub proof fn lemma_harvest_below_threshold(
    account: StakingAccount,
    config: ProgramState,
    pool_balance: Option<u64>,
    now: i64,
    reward: u64,
)
    requires
        config.is_initialized,
        pending_reward(account, config, now) == Ok::<u64, StakingError>(reward),
        reward < config.harvest_threshold,
    ensures
        harvest_result(account, config, account.owner, true, pool_balance, now) == Err::<
            Harvest,
            StakingError,
        >(StakingError::BelowThreshold),
{
}

/// A harvest pays exactly the accrued reward: the harvested total grows by it,
/// the window restarts at `now`, and the pool held at least that much.
pub proof fn lemma_harvest_pays_reward(
    account: StakingAccount,
    config: ProgramState,
    caller: Address,
    signed: bool,
    pool_balance: Option<u64>,
    now: i64,
)
    ensures
        harvest_result(account, config, caller, signed, pool_balance, now) matches Ok(settled)
            ==> pending_reward(account, config, now) == Ok::<u64, StakingError>(settled.reward)
            && settled.account.total_harvested == account.total_harvested + settled.reward
            && settled.account.last_harvest_time == now && settled.account.staked_amount
            == account.staked_amount && settled.reward >= config.harvest_threshold && (
        pool_balance matches Some(balance) && balance >= settled.reward),
{
}

/// A withdrawal that the pool cannot reward still returns the full principal:
/// the harvested total stays as it was, and the outcome is a reward not paid,
/// whatever became of the transfers.
pub proof fn lemma_unstake_reward_skipped(
    account: StakingAccount,
    config: ProgramState,
    caller: Address,
    signed: bool,
    amount: u64,
    pool_balance: Option<u64>,
    now: i64,
    reward_transferred: bool,
)
    requires
        unstake_result(account, config, caller, signed, amount, pool_balance, now) is Ok,
        pending_reward(account, config, now) matches Ok(reward) && reward > 0 && (
        pool_balance matches Some(balance) ==> balance < reward),
    ensures
        unstake_result(account, config, caller, signed, amount, pool_balance, now) matches Ok(
            settled,
        ) && settled.principal == amount && settled.account.staked_amount == account.staked_amount
            - amount && settled.account.total_harvested == account.total_harvested
            && !settled.reward_covered && unstake_outcome_of(settled, reward_transferred)
            == (UnstakeOutcome::RewardNotPaid {
            principal: amount,
            reward_due: settled.reward_due,
        }),
{
}

/// Whatever is settled keeps the record sound: the owner stays, the harvested
/// total does not shrink, a withdrawal takes no more than was staked, and the
/// last harvest time is not after `now` where it was not before.
pub proof fn lemma_settlement_keeps_record(
    account: StakingAccount,
    config: ProgramState,
    caller: Address,
    signed: bool,
    amount: u64,
    pool_balance: Option<u64>,
    now: i64,
)
    ensures
        stake_result(Some(account), config, caller, signed, amount, now) matches Ok(after)
            ==> after.owner == account.owner && after.total_harvested == account.total_harvested
            && after.staked_amount >= account.staked_amount && (account.last_harvest_time <= now
            ==> after.last_harvest_time <= now),
        harvest_result(account, config, caller, signed, pool_balance, now) matches Ok(settled)
            ==> settled.account.owner == account.owner && settled.account.total_harvested
            >= account.total_harvested && settled.account.last_harvest_time == now
            && account.last_harvest_time <= now,
        unstake_result(account, config, caller, signed, amount, pool_balance, now) matches Ok(
            settled,
        ) ==> settled.account.owner == account.owner && settled.account.total_harvested
            >= account.total_harvested && settled.account.staked_amount + amount
            == account.staked_amount && settled.account.last_harvest_time == now
            && account.last_harvest_time <= now,
{
}

} // verus!
