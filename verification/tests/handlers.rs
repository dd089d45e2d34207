use solana_program::program_option::COption;
use solana_program::program_pack::Pack;
use solana_program::pubkey::Pubkey;
use spl_token::state::{Account, AccountState};
use yot_staking::account::{AccountEntry, TransferOrder};
use yot_staking::address::Address;
use yot_staking::authority::{find_authority_address, find_program_state_address};
use yot_staking::entrypoint::{process_instruction, Processed};
use yot_staking::error::StakingError;
use yot_staking::instruction::StakingInstruction;
use yot_staking::processor::{
    load_config, load_record, process_harvest, process_stake, process_unstake, settle_harvest,
    settle_stake, settle_unstake, HarvestPlan, StakePlan,
};
use yot_staking::settlement::{unstake_outcome, UnstakeOutcome};
use yot_staking::state::{ProgramState, StakingAccount};
use yot_staking::token::TokenAccount;

fn h_program() -> Address {
    Address::new([42; 32])
}

fn h_key(seed: u8) -> Address {
    Address::new([seed; 32])
}

fn h_entry(key: Address, is_signer: bool, data: Vec<u8>) -> AccountEntry {
    AccountEntry { key, owner: h_program(), is_signer, is_writable: true, data }
}

fn h_config() -> ProgramState {
    ProgramState {
        is_initialized: true,
        admin: h_key(1),
        yot_mint: h_key(2),
        yos_mint: h_key(3),
        stake_rate_per_second: 1_000,
        harvest_threshold: 50,
        stake_threshold: 100,
        unstake_threshold: 10,
    }
}

fn h_record(staked: u64, last_harvest: i64) -> StakingAccount {
    StakingAccount {
        owner: h_key(7),
        staked_amount: staked,
        last_harvest_time: last_harvest,
        last_stake_time: last_harvest,
        total_harvested: 5,
    }
}

fn h_balance(mint: Address, owner: Address, amount: u64) -> Vec<u8> {
    let account = Account {
        mint: Pubkey::new_from_array(mint.to_bytes()),
        owner: Pubkey::new_from_array(owner.to_bytes()),
        amount,
        delegate: COption::None,
        state: AccountState::Initialized,
        is_native: COption::None,
        delegated_amount: 0,
        close_authority: COption::None,
    };
    let mut data = vec![0u8; Account::LEN];
    Account::pack(account, &mut data).unwrap();
    data
}

fn h_state_address() -> Address {
    find_program_state_address(&h_program()).unwrap().0
}

fn h_authority() -> (Address, u8) {
    find_authority_address(&h_program()).unwrap()
}

/// owner, owner's stake balance, pool's stake balance, record, configuration
fn h_stake_accounts(record: Vec<u8>) -> Vec<AccountEntry> {
    vec![
        h_entry(h_key(7), true, vec![]),
        h_entry(h_key(10), false, h_balance(h_key(2), h_key(7), 1_000_000)),
        h_entry(h_key(11), false, h_balance(h_key(2), h_authority().0, 0)),
        h_entry(h_key(12), false, record),
        h_entry(h_state_address(), false, h_config().to_bytes()),
    ]
}

/// owner, owner's reward balance, pool's reward balance, record, configuration, authority
fn h_harvest_accounts(record: &StakingAccount, pool: u64) -> Vec<AccountEntry> {
    vec![
        h_entry(h_key(7), true, vec![]),
        h_entry(h_key(20), false, h_balance(h_key(3), h_key(7), 0)),
        h_entry(h_key(21), false, h_balance(h_key(3), h_authority().0, pool)),
        h_entry(h_key(12), false, record.to_bytes()),
        h_entry(h_state_address(), false, h_config().to_bytes()),
        h_entry(h_authority().0, false, vec![]),
    ]
}

/// owner, owner's stake balance, owner's reward balance, pool's stake balance,
/// pool's reward balance, record, configuration, authority
fn h_unstake_accounts(record: &StakingAccount, pool_reward: u64) -> Vec<AccountEntry> {
    vec![
        h_entry(h_key(7), true, vec![]),
        h_entry(h_key(10), false, h_balance(h_key(2), h_key(7), 0)),
        h_entry(h_key(20), false, h_balance(h_key(3), h_key(7), 0)),
        h_entry(h_key(11), false, h_balance(h_key(2), h_authority().0, 1_000_000)),
        h_entry(h_key(21), false, h_balance(h_key(3), h_authority().0, pool_reward)),
        h_entry(h_key(12), false, record.to_bytes()),
        h_entry(h_state_address(), false, h_config().to_bytes()),
        h_entry(h_authority().0, false, vec![]),
    ]
}

#[test]
fn records_and_configuration_are_loaded_from_bytes() {
    assert_eq!(load_config(&h_config().to_bytes()), Ok(h_config()));
    assert_eq!(load_config(&[]), Err(StakingError::NotInitialized));
    assert_eq!(load_config(&[0u8; 129]), Err(StakingError::NotInitialized));
    assert_eq!(load_config(&[0u8; 128]), Err(StakingError::MalformedRequest));
    assert_eq!(load_config(&[9u8; 129]), Err(StakingError::MalformedRequest));
    assert_eq!(load_record(&h_record(1, 2).to_bytes()), Ok(h_record(1, 2)));
    assert_eq!(load_record(&[]), Err(StakingError::MalformedRequest));
    assert_eq!(load_record(&[0u8; 65]), Err(StakingError::MalformedRequest));
}

#[test]
fn stake_request_opens_a_record_and_orders_the_deposit() {
    let accounts = h_stake_accounts(vec![]);
    let plan = process_stake(&h_program(), &accounts, 500, 1_000).unwrap();
    assert_eq!(
        plan,
        StakePlan {
            account: StakingAccount {
                owner: h_key(7),
                staked_amount: 500,
                last_harvest_time: 1_000,
                last_stake_time: 1_000,
                total_harvested: 0,
            },
            transfer: TransferOrder {
                source: h_key(10),
                destination: h_key(11),
                authority: h_key(7),
                amount: 500,
                bump: None,
            },
        }
    );
}

#[test]
fn stake_request_adds_to_an_existing_record() {
    let accounts = h_stake_accounts(h_record(1_000, 900).to_bytes());
    let plan = process_stake(&h_program(), &accounts, 100, 1_000).unwrap();
    assert_eq!(plan.account.staked_amount, 1_100);
    assert_eq!(plan.account.last_stake_time, 1_000);
    assert_eq!(plan.account.last_harvest_time, 900);
    assert_eq!(plan.account.total_harvested, 5);
    assert_eq!(plan.transfer.amount, 100);
}

#[test]
fn stake_request_refusals() {
    let good = h_stake_accounts(h_record(1_000, 900).to_bytes());
    assert_eq!(
        process_stake(&h_program(), &good[..4], 100, 1_000),
        Err(StakingError::MalformedRequest)
    );
    let mut unsigned = good.clone();
    unsigned[0].is_signer = false;
    assert_eq!(
        process_stake(&h_program(), &unsigned, 100, 1_000),
        Err(StakingError::MissingSignature)
    );
    let mut elsewhere = good.clone();
    elsewhere[4].key = h_key(99);
    assert_eq!(
        process_stake(&h_program(), &elsewhere, 100, 1_000),
        Err(StakingError::InvalidAddressDerivation)
    );
    // the same list under another program derives another configuration address
    assert_eq!(
        process_stake(&h_key(43), &good, 100, 1_000),
        Err(StakingError::InvalidAddressDerivation)
    );
    let mut empty = good.clone();
    empty[4].data = vec![];
    assert_eq!(
        process_stake(&h_program(), &empty, 100, 1_000),
        Err(StakingError::NotInitialized)
    );
    let mut garbled = good.clone();
    garbled[3].data = vec![1, 2, 3];
    assert_eq!(
        process_stake(&h_program(), &garbled, 100, 1_000),
        Err(StakingError::MalformedRequest)
    );
    let mut stranger = good.clone();
    stranger[0].key = h_key(8);
    assert_eq!(
        process_stake(&h_program(), &stranger, 100, 1_000),
        Err(StakingError::Unauthorized)
    );
    assert_eq!(
        process_stake(&h_program(), &good, 99, 1_000),
        Err(StakingError::BelowThreshold)
    );
}

#[test]
fn harvest_request_orders_the_payout_from_the_pool() {
    let record = h_record(1_000_000, 1_000);
    let accounts = h_harvest_accounts(&record, 100_000);
    let plan = process_harvest(&h_program(), &accounts, 1_100).unwrap();
    let (authority, bump) = h_authority();
    assert_eq!(
        plan,
        HarvestPlan {
            account: StakingAccount {
                owner: h_key(7),
                staked_amount: 1_000_000,
                last_harvest_time: 1_100,
                last_stake_time: 1_000,
                total_harvested: 100_005,
            },
            transfer: TransferOrder {
                source: h_key(21),
                destination: h_key(20),
                authority,
                amount: 100_000,
                bump: Some(bump),
            },
        }
    );
}

#[test]
fn harvest_request_refusals() {
    let record = h_record(1_000_000, 1_000);
    let good = h_harvest_accounts(&record, 100_000);
    assert_eq!(
        process_harvest(&h_program(), &good[..5], 1_100),
        Err(StakingError::MalformedRequest)
    );
    let mut unsigned = good.clone();
    unsigned[0].is_signer = false;
    assert_eq!(
        process_harvest(&h_program(), &unsigned, 1_100),
        Err(StakingError::MissingSignature)
    );
    let mut forged = good.clone();
    forged[5].key = h_key(7);
    assert_eq!(
        process_harvest(&h_program(), &forged, 1_100),
        Err(StakingError::InvalidAddressDerivation)
    );
    let mut fake_config = good.clone();
    fake_config[4].key = h_key(50);
    assert_eq!(
        process_harvest(&h_program(), &fake_config, 1_100),
        Err(StakingError::InvalidAddressDerivation)
    );
    let mut no_record = good.clone();
    no_record[3].data = vec![];
    assert_eq!(
        process_harvest(&h_program(), &no_record, 1_100),
        Err(StakingError::MalformedRequest)
    );
    let mut stranger = good.clone();
    stranger[0].key = h_key(8);
    assert_eq!(
        process_harvest(&h_program(), &stranger, 1_100),
        Err(StakingError::Unauthorized)
    );
    assert_eq!(
        process_harvest(&h_program(), &good, 1_000),
        Err(StakingError::BelowThreshold)
    );
    let poor = h_harvest_accounts(&record, 99_999);
    assert_eq!(
        process_harvest(&h_program(), &poor, 1_100),
        Err(StakingError::InsufficientBalance)
    );
    let mut unreadable = good.clone();
    unreadable[2].data = vec![0; 165];
    assert_eq!(
        process_harvest(&h_program(), &unreadable, 1_100),
        Err(StakingError::MalformedRequest)
    );
}

#[test]
fn unstake_request_orders_principal_then_reward() {
    let record = h_record(1_000_000, 1_000);
    let accounts = h_unstake_accounts(&record, 100_000);
    let plan = process_unstake(&h_program(), &accounts, 400_000, 1_100).unwrap();
    let (authority, bump) = h_authority();
    assert_eq!(plan.account.staked_amount, 600_000);
    assert_eq!(plan.account.total_harvested, 100_005);
    assert_eq!(plan.account.last_harvest_time, 1_100);
    assert_eq!(plan.account, plan.settled.account);
    assert_eq!(
        plan.principal,
        TransferOrder {
            source: h_key(11),
            destination: h_key(10),
            authority,
            amount: 400_000,
            bump: Some(bump),
        }
    );
    assert_eq!(
        plan.reward,
        Some(TransferOrder {
            source: h_key(21),
            destination: h_key(20),
            authority,
            amount: 100_000,
            bump: Some(bump),
        })
    );
    assert_eq!(
        unstake_outcome(&plan.settled, true),
        UnstakeOutcome::Completed { principal: 400_000, reward: 100_000 }
    );
}

#[test]
fn unstake_request_with_an_empty_reward_pool() {
    let record = h_record(1_000_000, 1_000);
    let accounts = h_unstake_accounts(&record, 0);
    let plan = process_unstake(&h_program(), &accounts, 1_000_000, 1_100).unwrap();
    assert_eq!(plan.principal.amount, 1_000_000);
    assert_eq!(plan.reward, None);
    assert_eq!(plan.account.staked_amount, 0);
    assert_eq!(plan.account.total_harvested, 5);
    assert_eq!(
        unstake_outcome(&plan.settled, false),
        UnstakeOutcome::RewardNotPaid { principal: 1_000_000, reward_due: 100_000 }
    );
    // a reward pool that cannot be read does not hold the principal back either
    let mut unreadable = accounts.clone();
    unreadable[4].data = vec![];
    let plan = process_unstake(&h_program(), &unreadable, 1_000_000, 1_100).unwrap();
    assert_eq!(plan.reward, None);
    assert_eq!(plan.principal.amount, 1_000_000);
}

#[test]
fn unstake_request_refusals() {
    let record = h_record(1_000, 1_000);
    let good = h_unstake_accounts(&record, 100_000);
    assert_eq!(
        process_unstake(&h_program(), &good[..7], 100, 1_100),
        Err(StakingError::MalformedRequest)
    );
    let mut unsigned = good.clone();
    unsigned[0].is_signer = false;
    assert_eq!(
        process_unstake(&h_program(), &unsigned, 100, 1_100),
        Err(StakingError::MissingSignature)
    );
    let mut forged = good.clone();
    forged[7].key = h_key(7);
    assert_eq!(
        process_unstake(&h_program(), &forged, 100, 1_100),
        Err(StakingError::InvalidAddressDerivation)
    );
    assert_eq!(
        process_unstake(&h_program(), &good, 1_001, 1_100),
        Err(StakingError::InsufficientBalance)
    );
    assert_eq!(
        process_unstake(&h_program(), &good, 9, 1_100),
        Err(StakingError::BelowThreshold)
    );
    assert_eq!(
        process_unstake(&h_program(), &good, 100, 999),
        Err(StakingError::ArithmeticOverflow)
    );
}

#[test]
fn deciding_with_given_derivations_and_balances() {
    let record = h_record(1_000_000, 1_000);
    let accounts = h_harvest_accounts(&record, 0);
    let pool = Some(TokenAccount { mint: h_key(3), owner: h_key(60), amount: 100_000 });
    let state = Some((h_state_address(), 9));
    // the authority is whatever was derived, here a made-up address
    let mut made_up = accounts.clone();
    made_up[5].key = h_key(61);
    let plan = settle_harvest(&made_up, Some((h_key(61), 250)), state, pool, 1_100).unwrap();
    assert_eq!(plan.transfer.authority, h_key(61));
    assert_eq!(plan.transfer.bump, Some(250));
    assert_eq!(plan.transfer.amount, 100_000);
    assert_eq!(
        settle_harvest(&made_up, None, state, pool, 1_100),
        Err(StakingError::InvalidAddressDerivation)
    );
    assert_eq!(
        settle_harvest(&made_up, Some((h_key(61), 250)), None, pool, 1_100),
        Err(StakingError::InvalidAddressDerivation)
    );
    assert_eq!(
        settle_harvest(&made_up, Some((h_key(61), 250)), state, None, 1_100),
        Err(StakingError::MalformedRequest)
    );
    let stake_accounts = h_stake_accounts(vec![]);
    assert_eq!(
        settle_stake(&stake_accounts, None, 500, 1),
        Err(StakingError::InvalidAddressDerivation)
    );
    assert_eq!(settle_stake(&stake_accounts, state, 500, 1).unwrap().account.staked_amount, 500);
    let unstake_accounts = h_unstake_accounts(&record, 0);
    let plan = settle_unstake(
        &unstake_accounts,
        Some(h_authority()),
        state,
        pool,
        1_000,
        1_100,
    )
    .unwrap();
    assert_eq!(plan.reward.unwrap().amount, 100_000);
}

#[test]
fn requests_in_bytes_reach_their_handlers() {
    let record = h_record(1_000_000, 1_000);
    let stake = StakingInstruction::Stake { amount: 500 }.to_bytes();
    let accounts = h_stake_accounts(vec![]);
    match process_instruction(&h_program(), &accounts, &stake, 1_000) {
        Ok(Processed::Staked(plan)) => assert_eq!(plan.account.staked_amount, 500),
        other => panic!("{:?}", other),
    }
    let harvest = StakingInstruction::Harvest.to_bytes();
    let accounts = h_harvest_accounts(&record, 100_000);
    match process_instruction(&h_program(), &accounts, &harvest, 1_100) {
        Ok(Processed::Harvested(plan)) => assert_eq!(plan.transfer.amount, 100_000),
        other => panic!("{:?}", other),
    }
    let unstake = StakingInstruction::Unstake { amount: 1_000 }.to_bytes();
    let accounts = h_unstake_accounts(&record, 100_000);
    match process_instruction(&h_program(), &accounts, &unstake, 1_100) {
        Ok(Processed::Unstaked(plan)) => assert_eq!(plan.principal.amount, 1_000),
        other => panic!("{:?}", other),
    }
    assert_eq!(
        process_instruction(&h_program(), &accounts, &[], 1_100),
        Err(StakingError::MalformedRequest)
    );
    assert_eq!(
        process_instruction(&h_program(), &accounts, &[9, 9], 1_100),
        Err(StakingError::MalformedRequest)
    );
    // a harvest request against a withdrawal's account list finds no authority in place
    assert_eq!(
        process_instruction(&h_program(), &accounts, &harvest, 1_100),
        Err(StakingError::InvalidAddressDerivation)
    );
}
