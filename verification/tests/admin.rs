use yot_staking::account::AccountEntry;
use yot_staking::address::Address;
use yot_staking::admin::{
    check_admin, initialize, process_initialize, process_set_admin, process_update_parameters,
    set_admin, settle_initialize, update_parameters, InitialParameters, ParameterUpdate,
};
use yot_staking::authority::find_program_state_address;
use yot_staking::entrypoint::{process_instruction, Processed};
use yot_staking::error::StakingError;
use yot_staking::instruction::StakingInstruction;
use yot_staking::state::ProgramState;

fn a_program() -> Address {
    Address::new([42; 32])
}

fn a_key(seed: u8) -> Address {
    Address::new([seed; 32])
}

fn a_parameters() -> InitialParameters {
    InitialParameters {
        yot_mint: a_key(2),
        yos_mint: a_key(3),
        stake_rate_per_second: 12_000,
        harvest_threshold: 1,
        stake_threshold: 2,
        unstake_threshold: 3,
    }
}

fn a_state() -> ProgramState {
    ProgramState {
        is_initialized: true,
        admin: a_key(1),
        yot_mint: a_key(2),
        yos_mint: a_key(3),
        stake_rate_per_second: 12_000,
        harvest_threshold: 1,
        stake_threshold: 2,
        unstake_threshold: 3,
    }
}

fn a_nothing() -> ParameterUpdate {
    ParameterUpdate {
        stake_rate_per_second: None,
        harvest_threshold: None,
        stake_threshold: None,
        unstake_threshold: None,
    }
}

fn a_accounts(signer: Address, data: Vec<u8>) -> Vec<AccountEntry> {
    vec![
        AccountEntry {
            key: signer,
            owner: a_key(0),
            is_signer: true,
            is_writable: true,
            data: vec![],
        },
        AccountEntry {
            key: find_program_state_address(&a_program()).unwrap().0,
            owner: a_program(),
            is_signer: false,
            is_writable: true,
            data,
        },
    ]
}

#[test]
fn initialize_creates_the_live_record() {
    assert_eq!(initialize(None, &a_key(1), true, &a_parameters()), Ok(a_state()));
    let mut dormant = a_state();
    dormant.is_initialized = false;
    dormant.admin = a_key(9);
    assert_eq!(initialize(Some(dormant), &a_key(1), true, &a_parameters()), Ok(a_state()));
}

#[test]
fn initialize_twice_is_refused() {
    assert_eq!(
        initialize(Some(a_state()), &a_key(5), true, &a_parameters()),
        Err(StakingError::AlreadyInitialized)
    );
    assert_eq!(
        initialize(Some(a_state()), &a_key(5), false, &a_parameters()),
        Err(StakingError::MissingSignature)
    );
    assert_eq!(
        initialize(None, &a_key(5), false, &a_parameters()),
        Err(StakingError::MissingSignature)
    );
}

#[test]
fn only_the_signing_administrator_passes() {
    assert_eq!(check_admin(&a_state(), &a_key(1), true), None);
    assert_eq!(check_admin(&a_state(), &a_key(1), false), Some(StakingError::MissingSignature));
    assert_eq!(check_admin(&a_state(), &a_key(2), true), Some(StakingError::Unauthorized));
    let mut dormant = a_state();
    dormant.is_initialized = false;
    assert_eq!(check_admin(&dormant, &a_key(1), true), Some(StakingError::NotInitialized));
    assert_eq!(check_admin(&dormant, &a_key(2), false), Some(StakingError::MissingSignature));
}

#[test]
fn update_overwrites_only_what_is_supplied() {
    let update = ParameterUpdate {
        stake_rate_per_second: Some(7),
        harvest_threshold: None,
        stake_threshold: Some(0),
        unstake_threshold: None,
    };
    let after = update_parameters(&a_state(), &a_key(1), true, &update).unwrap();
    assert_eq!(
        after,
        ProgramState {
            is_initialized: true,
            admin: a_key(1),
            yot_mint: a_key(2),
            yos_mint: a_key(3),
            stake_rate_per_second: 7,
            harvest_threshold: 1,
            stake_threshold: 0,
            unstake_threshold: 3,
        }
    );
    assert_eq!(update_parameters(&a_state(), &a_key(1), true, &a_nothing()), Ok(a_state()));
    let all = ParameterUpdate {
        stake_rate_per_second: Some(10),
        harvest_threshold: Some(20),
        stake_threshold: Some(30),
        unstake_threshold: Some(40),
    };
    let after = update_parameters(&a_state(), &a_key(1), true, &all).unwrap();
    assert_eq!(
        (
            after.stake_rate_per_second,
            after.harvest_threshold,
            after.stake_threshold,
            after.unstake_threshold
        ),
        (10, 20, 30, 40)
    );
}

#[test]
fn update_by_anyone_else_is_refused() {
    assert_eq!(
        update_parameters(&a_state(), &a_key(2), true, &a_nothing()),
        Err(StakingError::Unauthorized)
    );
    assert_eq!(
        update_parameters(&a_state(), &a_key(1), false, &a_nothing()),
        Err(StakingError::MissingSignature)
    );
}

#[test]
fn set_admin_hands_over_and_locks_out_the_old() {
    let after = set_admin(&a_state(), &a_key(1), true, &a_key(8)).unwrap();
    assert_eq!(after.admin, a_key(8));
    assert_eq!(ProgramState { admin: a_key(1), ..after }, a_state());
    assert_eq!(set_admin(&after, &a_key(1), true, &a_key(1)), Err(StakingError::Unauthorized));
    assert_eq!(set_admin(&after, &a_key(8), true, &a_key(1)), Ok(a_state()));
    assert_eq!(
        set_admin(&a_state(), &a_key(1), false, &a_key(8)),
        Err(StakingError::MissingSignature)
    );
}

#[test]
fn initialize_request_checks_the_configuration_address() {
    let accounts = a_accounts(a_key(1), vec![]);
    assert_eq!(process_initialize(&a_program(), &accounts, &a_parameters()), Ok(a_state()));
    // an allocated, zeroed account is not live either
    let zeroed = a_accounts(a_key(1), vec![0; 129]);
    assert_eq!(process_initialize(&a_program(), &zeroed, &a_parameters()), Ok(a_state()));
    let live = a_accounts(a_key(5), a_state().to_bytes());
    assert_eq!(
        process_initialize(&a_program(), &live, &a_parameters()),
        Err(StakingError::AlreadyInitialized)
    );
    let mut elsewhere = accounts.clone();
    elsewhere[1].key = a_key(77);
    assert_eq!(
        process_initialize(&a_program(), &elsewhere, &a_parameters()),
        Err(StakingError::InvalidAddressDerivation)
    );
    let mut unsigned = accounts.clone();
    unsigned[0].is_signer = false;
    assert_eq!(
        process_initialize(&a_program(), &unsigned, &a_parameters()),
        Err(StakingError::MissingSignature)
    );
    assert_eq!(
        process_initialize(&a_program(), &accounts[..1], &a_parameters()),
        Err(StakingError::MalformedRequest)
    );
    assert_eq!(
        settle_initialize(&accounts, None, &a_parameters()),
        Err(StakingError::InvalidAddressDerivation)
    );
}

#[test]
fn update_and_hand_over_requests() {
    let accounts = a_accounts(a_key(1), a_state().to_bytes());
    let update = ParameterUpdate { stake_rate_per_second: Some(1), ..a_nothing() };
    let after = process_update_parameters(&a_program(), &accounts, &update).unwrap();
    assert_eq!(after.stake_rate_per_second, 1);
    assert_eq!(after.harvest_threshold, 1);
    let handed = process_set_admin(&a_program(), &accounts, &a_key(8)).unwrap();
    assert_eq!(handed.admin, a_key(8));
    let stranger = a_accounts(a_key(2), a_state().to_bytes());
    assert_eq!(
        process_update_parameters(&a_program(), &stranger, &update),
        Err(StakingError::Unauthorized)
    );
    assert_eq!(
        process_set_admin(&a_program(), &stranger, &a_key(2)),
        Err(StakingError::Unauthorized)
    );
    let missing = a_accounts(a_key(1), vec![]);
    assert_eq!(
        process_update_parameters(&a_program(), &missing, &update),
        Err(StakingError::NotInitialized)
    );
    let garbled = a_accounts(a_key(1), vec![1, 2, 3]);
    assert_eq!(
        process_set_admin(&a_program(), &garbled, &a_key(8)),
        Err(StakingError::MalformedRequest)
    );
}

#[test]
fn administration_requests_in_bytes() {
    let init = StakingInstruction::Initialize {
        yot_mint: a_key(2),
        yos_mint: a_key(3),
        stake_rate_per_second: 12_000,
        harvest_threshold: 1,
        stake_threshold: 2,
        unstake_threshold: 3,
    }
    .to_bytes();
    let fresh = a_accounts(a_key(1), vec![]);
    assert_eq!(
        process_instruction(&a_program(), &fresh, &init, 0),
        Ok(Processed::Initialized(a_state()))
    );
    let live = a_accounts(a_key(1), a_state().to_bytes());
    assert_eq!(
        process_instruction(&a_program(), &live, &init, 0),
        Err(StakingError::AlreadyInitialized)
    );
    let update = StakingInstruction::UpdateParameters {
        stake_rate_per_second: None,
        harvest_threshold: Some(99),
        stake_threshold: None,
        unstake_threshold: None,
    }
    .to_bytes();
    match process_instruction(&a_program(), &live, &update, 0) {
        Ok(Processed::ParametersUpdated(state)) => {
            assert_eq!(state.harvest_threshold, 99);
            assert_eq!(state.stake_rate_per_second, 12_000);
        }
        other => panic!("{:?}", other),
    }
    let hand_over = StakingInstruction::SetAdmin { new_admin: a_key(8) }.to_bytes();
    match process_instruction(&a_program(), &live, &hand_over, 0) {
        Ok(Processed::AdminChanged(state)) => assert_eq!(state.admin, a_key(8)),
        other => panic!("{:?}", other),
    }
}
