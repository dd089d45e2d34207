use crate::account::{AccountEntry, TransferOrder};
use crate::address::Address;
use crate::authority::{
    check_derivation, derivation_matches, derived_bump, derived_view, find_authority_address,
    find_program_state_address, program_address, AUTHORITY_SEED, PROGRAM_STATE_SEED,
};
use crate::error::StakingError;
use crate::settlement::{
    harvest, harvest_result, stake, stake_result, unstake, unstake_result, Unstake,
};
use crate::state::{ProgramState, StakingAccount};
use crate::token::{read_token_account, token_account_at, token_account_view, TokenAccount};
use vstd::prelude::*;

verus! {

/// An accepted stake: the record to persist, then the deposit to carry out.
#[derive(Clone, Copy, Debug, PartialEq, Eq)]
pub struct StakePlan {
    pub account: StakingAccount,
    pub transfer: TransferOrder,
}

/// An accepted harvest: the record to persist, then the payout to carry out.
#[derive(Clone, Copy, Debug, PartialEq, Eq)]
pub struct HarvestPlan {
    pub account: StakingAccount,
    pub transfer: TransferOrder,
}

/// An accepted withdrawal: the record to persist, then the principal to return,
/// then the reward to attempt, if the pool covers one.
#[derive(Clone, Copy, Debug, PartialEq, Eq)]
pub struct UnstakePlan {
    pub account: StakingAccount,
    pub principal: TransferOrder,
    pub reward: Option<TransferOrder>,
    pub settled: Unstake,
}

/// The live configuration that `data` holds: not initialized where `data` is
/// empty or the record is not live, malformed where it is no record.
pub open spec fn config_of(data: Seq<u8>) -> Result<ProgramState, StakingError> {
    if data.len() == 0 {
        Err(StakingError::NotInitialized)
    } else {
        match ProgramState::decoded(data) {
            None => Err(StakingError::MalformedRequest),
            Some(state) => if state.is_initialized {
                Ok(state)
            } else {
                Err(StakingError::NotInitialized)
            },
        }
    }
}

/// The staking record that `data` holds.
pub open spec fn record_of(data: Seq<u8>) -> Result<StakingAccount, StakingError> {
    match StakingAccount::decoded(data) {
        Some(account) => Ok(account),
        None => Err(StakingError::MalformedRequest),
    }
}

/// The balance of a pool whose token account was read.
pub open spec fn pool_balance_of(pool: Option<(Seq<u8>, Seq<u8>, u64)>) -> Option<u64> {
    match pool {
        Some((_, _, amount)) => Some(amount),
        None => None,
    }
}

/// Reads the live configuration from the bytes of its account.
pub fn load_config(data: &[u8]) -> (r: Result<ProgramState, StakingError>)
    ensures
        r == config_of(data@),
{
    if data.len() == 0 {
        return Err(StakingError::NotInitialized);
    }
    match ProgramState::from_bytes(data) {
        None => Err(StakingError::MalformedRequest),
        Some(state) => if state.is_initialized {
            Ok(state)
        } else {
            Err(StakingError::NotInitialized)
        },
    }
}

/// Reads a staking record from the bytes of its account.
pub fn load_record(data: &[u8]) -> (r: Result<StakingAccount, StakingError>)
    ensures
        r == record_of(data@),
{
    match StakingAccount::from_bytes(data) {
        Some(account) => Ok(account),
        None => Err(StakingError::MalformedRequest),
    }
}

/// What a stake request comes to. The accounts are, in order: the owner, the
/// owner's stake-token balance, the pool's stake-token balance, the staking
/// record, the configuration. Checked in this order: five accounts, the
/// owner's signature, the configuration address, the configuration, the
/// record where its account is not empty, then the rules of `stake_result`.
pub open spec fn process_stake_result(
    accounts: Seq<AccountEntry>,
    state_address: Option<(Seq<u8>, u8)>,
    amount: u64,
    now: i64,
) -> Result<StakePlan, StakingError> {
    if accounts.len() < 5 {
        Err(StakingError::MalformedRequest)
    } else if !accounts[0].is_signer {
        Err(StakingError::MissingSignature)
    } else if !derivation_matches(state_address, accounts[4].key@) {
        Err(StakingError::InvalidAddressDerivation)
    } else {
        match config_of(accounts[4].data@) {
            Err(e) => Err(e),
            Ok(config) => {
                let existing = StakingAccount::decoded(accounts[3].data@);
                if accounts[3].data@.len() > 0 && existing is None {
                    Err(StakingError::MalformedRequest)
                } else {
                    match stake_result(existing, config, accounts[0].key, true, amount, now) {
                        Err(e) => Err(e),
                        Ok(account) => Ok(
                            StakePlan {
                                account,
                                transfer: TransferOrder {
                                    source: accounts[1].key,
                                    destination: accounts[2].key,
                                    authority: accounts[0].key,
                                    amount,
                                    bump: None,
                                },
                            },
                        ),
                    }
                }
            },
        }
    }
}

/// What a harvest request comes to. The accounts are, in order: the owner, the
/// owner's reward-token balance, the pool's reward-token balance, the staking
/// record, the configuration, the pool authority. Checked in this order: six
/// accounts, the owner's signature, the authority address, the configuration
/// address, the configuration, the record, then the rules of `harvest_result`.
pub open spec fn process_harvest_result(
    accounts: Seq<AccountEntry>,
    authority: Option<(Seq<u8>, u8)>,
    state_address: Option<(Seq<u8>, u8)>,
    pool: Option<(Seq<u8>, Seq<u8>, u64)>,
    now: i64,
) -> Result<HarvestPlan, StakingError> {
    if accounts.len() < 6 {
        Err(StakingError::MalformedRequest)
    } else if !accounts[0].is_signer {
        Err(StakingError::MissingSignature)
    } else if !derivation_matches(authority, accounts[5].key@) {
        Err(StakingError::InvalidAddressDerivation)
    } else if !derivation_matches(state_address, accounts[4].key@) {
        Err(StakingError::InvalidAddressDerivation)
    } else {
        match config_of(accounts[4].data@) {
            Err(e) => Err(e),
            Ok(config) => match record_of(accounts[3].data@) {
                Err(e) => Err(e),
                Ok(account) => match harvest_result(
                    account,
                    config,
                    accounts[0].key,
                    true,
                    pool_balance_of(pool),
                    now,
                ) {
                    Err(e) => Err(e),
                    Ok(settled) => Ok(
                        HarvestPlan {
                            account: settled.account,
                            transfer: TransferOrder {
                                source: accounts[2].key,
                                destination: accounts[1].key,
                                authority: accounts[5].key,
                                amount: settled.reward,
                                bump: Some(derived_bump(authority)),
                            },
                        },
                    ),
                },
            },
        }
    }
}

/// What a withdrawal request comes to. The accounts are, in order: the owner,
/// the owner's stake-token balance, the owner's reward-token balance, the
/// pool's stake-token balance, the pool's reward-token balance, the staking
/// record, the configuration, the pool authority. Checked in this order: eight
/// accounts, the owner's signature, the authority address, the configuration
/// address, the configuration, the record, then the rules of `unstake_result`.
pub open spec fn process_unstake_result(
    accounts: Seq<AccountEntry>,
    authority: Option<(Seq<u8>, u8)>,
    state_address: Option<(Seq<u8>, u8)>,
    pool: Option<(Seq<u8>, Seq<u8>, u64)>,
    amount: u64,
    now: i64,
) -> Result<UnstakePlan, StakingError> {
    if accounts.len() < 8 {
        Err(StakingError::MalformedRequest)
    } else if !accounts[0].is_signer {
        Err(StakingError::MissingSignature)
    } else if !derivation_matches(authority, accounts[7].key@) {
        Err(StakingError::InvalidAddressDerivation)
    } else if !derivation_matches(state_address, accounts[6].key@) {
        Err(StakingError::InvalidAddressDerivation)
    } else {
        match config_of(accounts[6].data@) {
            Err(e) => Err(e),
            Ok(config) => match record_of(accounts[5].data@) {
                Err(e) => Err(e),
                Ok(account) => match unstake_result(
                    account,
                    config,
                    accounts[0].key,
                    true,
                    amount,
                    pool_balance_of(pool),
                    now,
                ) {
                    Err(e) => Err(e),
                    Ok(settled) => Ok(
                        UnstakePlan {
                            account: settled.account,
                            principal: TransferOrder {
                                source: accounts[3].key,
                                destination: accounts[1].key,
                                authority: accounts[7].key,
                                amount: settled.principal,
                                bump: Some(derived_bump(authority)),
                            },
                            reward: if settled.reward_covered {
                                Some(
                                    TransferOrder {
                                        source: accounts[4].key,
                                        destination: accounts[2].key,
                                        authority: accounts[7].key,
                                        amount: settled.reward_due,
                                        bump: Some(derived_bump(authority)),
                                    },
                                )
                            } else {
                                None
                            },
                            settled,
                        },
                    ),
                },
            },
        }
    }
}

/// Decides a stake request, given the configuration address that was derived.
pub fn settle_stake(
    accounts: &[AccountEntry],
    state_address: Option<(Address, u8)>,
    amount: u64,
    now: i64,
) -> (r: Result<StakePlan, StakingError>)
    ensures
        r == process_stake_result(accounts@, derived_view(state_address), amount, now),
{
    if accounts.len() < 5 {
        return Err(StakingError::MalformedRequest);
    }
    if !accounts[0].is_signer {
        return Err(StakingError::MissingSignature);
    }
    if check_derivation(state_address, &accounts[4].key).is_err() {
        return Err(StakingError::InvalidAddressDerivation);
    }
    let config = match load_config(accounts[4].data.as_slice()) {
        Ok(config) => config,
        Err(e) => { return Err(e); },
    };
    let existing = StakingAccount::from_bytes(accounts[3].data.as_slice());
    if accounts[3].data.len() > 0 && existing.is_none() {
        return Err(StakingError::MalformedRequest);
    }
    match stake(existing, &config, &accounts[0].key, true, amount, now) {
        Err(e) => Err(e),
        Ok(account) => Ok(
            StakePlan {
                account,
                transfer: TransferOrder {
                    source: accounts[1].key,
                    destination: accounts[2].key,
                    authority: accounts[0].key,
                    amount,
                    bump: None,
                },
            },
        ),
    }
}

/// Decides a harvest request, given the addresses that were derived and the
/// pool's reward-token balance as it was read.
pub fn settle_harvest(
    accounts: &[AccountEntry],
    authority: Option<(Address, u8)>,
    state_address: Option<(Address, u8)>,
    pool: Option<TokenAccount>,
    now: i64,
) -> (r: Result<HarvestPlan, StakingError>)
    ensures
        r == process_harvest_result(
            accounts@,
            derived_view(authority),
            derived_view(state_address),
            token_account_view(pool),
            now,
        ),
{
    if accounts.len() < 6 {
        return Err(StakingError::MalformedRequest);
    }
    if !accounts[0].is_signer {
        return Err(StakingError::MissingSignature);
    }
    let signer = match check_derivation(authority, &accounts[5].key) {
        Ok(signer) => signer,
        Err(e) => { return Err(e); },
    };
    if check_derivation(state_address, &accounts[4].key).is_err() {
        return Err(StakingError::InvalidAddressDerivation);
    }
    let config = match load_config(accounts[4].data.as_slice()) {
        Ok(config) => config,
        Err(e) => { return Err(e); },
    };
    let account = match load_record(accounts[3].data.as_slice()) {
        Ok(account) => account,
        Err(e) => { return Err(e); },
    };
    let pool_balance = match pool {
        Some(pool) => Some(pool.amount),
        None => None,
    };
    match harvest(&account, &config, &accounts[0].key, true, pool_balance, now) {
        Err(e) => Err(e),
        Ok(settled) => Ok(
            HarvestPlan {
                account: settled.account,
                transfer: TransferOrder {
                    source: accounts[2].key,
                    destination: accounts[1].key,
                    authority: accounts[5].key,
                    amount: settled.reward,
                    bump: Some(signer.bump),
                },
            },
        ),
    }
}

/// Decides a withdrawal request, given the addresses that were derived and the
/// pool's reward-token balance as it was read.
pub fn settle_unstake(
    accounts: &[AccountEntry],
    authority: Option<(Address, u8)>,
    state_address: Option<(Address, u8)>,
    pool: Option<TokenAccount>,
    amount: u64,
    now: i64,
) -> (r: Result<UnstakePlan, StakingError>)
    ensures
        r == process_unstake_result(
            accounts@,
            derived_view(authority),
            derived_view(state_address),
            token_account_view(pool),
            amount,
            now,
        ),
{
    if accounts.len() < 8 {
        return Err(StakingError::MalformedRequest);
    }
    if !accounts[0].is_signer {
        return Err(StakingError::MissingSignature);
    }
    let signer = match check_derivation(authority, &accounts[7].key) {
        Ok(signer) => signer,
        Err(e) => { return Err(e); },
    };
    if check_derivation(state_address, &accounts[6].key).is_err() {
        return Err(StakingError::InvalidAddressDerivation);
    }
    let config = match load_config(accounts[6].data.as_slice()) {
        Ok(config) => config,
        Err(e) => { return Err(e); },
    };
    let account = match load_record(accounts[5].data.as_slice()) {
        Ok(account) => account,
        Err(e) => { return Err(e); },
    };
    let pool_balance = match pool {
        Some(pool) => Some(pool.amount),
        None => None,
    };
    match unstake(&account, &config, &accounts[0].key, true, amount, pool_balance, now) {
        Err(e) => Err(e),
        Ok(settled) => {
            let reward = if settled.reward_covered {
                Some(
                    TransferOrder {
                        source: accounts[4].key,
                        destination: accounts[2].key,
                        authority: accounts[7].key,
                        amount: settled.reward_due,
                        bump: Some(signer.bump),
                    },
                )
            } else {
                None
            };
            Ok(
                UnstakePlan {
                    account: settled.account,
                    principal: TransferOrder {
                        source: accounts[3].key,
                        destination: accounts[1].key,
                        authority: accounts[7].key,
                        amount: settled.principal,
                        bump: Some(signer.bump),
                    },
                    reward,
                    settled,
                },
            )
        },
    }
}

/// Handles a stake request: derives the configuration address again, then
/// decides as `settle_stake` does.
pub fn process_stake(program_id: &Address, accounts: &[AccountEntry], amount: u64, now: i64) -> (r:
    Result<StakePlan, StakingError>)
    ensures
        r == process_stake_result(
            accounts@,
            program_address(PROGRAM_STATE_SEED@, program_id@),
            amount,
            now,
        ),
{
    settle_stake(accounts, find_program_state_address(program_id), amount, now)
}

/// Handles a harvest request: derives both program addresses again, reads the
/// pool's reward-token balance, then decides as `settle_harvest` does.
pub fn process_harvest(program_id: &Address, accounts: &[AccountEntry], now: i64) -> (r: Result<
    HarvestPlan,
    StakingError,
>)
    ensures
        r == process_harvest_result(
            accounts@,
            program_address(AUTHORITY_SEED@, program_id@),
            program_address(PROGRAM_STATE_SEED@, program_id@),
            token_account_at(accounts@, 2),
            now,
        ),
{
    settle_harvest(
        accounts,
        find_authority_address(program_id),
        find_program_state_address(program_id),
        read_token_account(accounts, 2),
        now,
    )
}

/// Handles a withdrawal request: derives both program addresses again, reads
/// the pool's reward-token balance, then decides as `settle_unstake` does.
pub fn process_unstake(program_id: &Address, accounts: &[AccountEntry], amount: u64, now: i64) -> (r:
    Result<UnstakePlan, StakingError>)
    ensures
        r == process_unstake_result(
            accounts@,
            program_address(AUTHORITY_SEED@, program_id@),
            program_address(PROGRAM_STATE_SEED@, program_id@),
            token_account_at(accounts@, 4),
            amount,
            now,
        ),
{
    settle_unstake(
        accounts,
        find_authority_address(program_id),
        find_program_state_address(program_id),
        read_token_account(accounts, 4),
        amount,
        now,
    )
}

} // verus!
