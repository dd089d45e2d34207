use borsh::BorshSerialize;
use solana_program::program_option::COption;
use solana_program::program_pack::Pack;
use solana_program::pubkey::Pubkey;
use spl_token::state::{Account, AccountState};
use yot_staking::account::{AccountEntry, MintOrder, TransferOrder};
use yot_staking::address::Address;
use yot_staking::authority::{derive_address, find_authority_address, STATE_SEED};
use yot_staking::error::SwapError;
use yot_staking::rate_swap::{
    find_program_authority, find_program_state_address, pass_admin_gate, process_close_program,
    process_initialize, process_instruction, process_set_admin, process_swap,
    process_update_parameters, read_rates, replace_rate, settle_initialize, settle_swap,
    share_at_rate, swap_amounts, write_rates, ClosePlan, Initialization, Processed,
    ProgramState, RateUpdate, SwapAmounts, SwapInstruction, SwapRates, RATE_STATE_LEN,
};
use yot_staking::token::TokenAccount;

fn v_program() -> Address {
    Address::new([42; 32])
}

fn v_key(seed: u8) -> Address {
    Address::new([seed; 32])
}

fn v_rates() -> SwapRates {
    SwapRates {
        lp_contribution_rate: 2000,
        admin_fee_rate: 10,
        yos_cashback_rate: 500,
        swap_fee_rate: 30,
        referral_rate: 50,
    }
}

fn v_state() -> ProgramState {
    ProgramState {
        admin: v_key(1),
        yot_mint: v_key(2),
        yos_mint: v_key(3),
        rates: v_rates(),
        is_initialized: true,
    }
}

fn v_nothing() -> RateUpdate {
    RateUpdate {
        lp_contribution_rate: None,
        admin_fee_rate: None,
        yos_cashback_rate: None,
        swap_fee_rate: None,
        referral_rate: None,
    }
}

fn v_entry(key: Address, is_signer: bool, data: Vec<u8>) -> AccountEntry {
    AccountEntry { key, owner: v_program(), is_signer, is_writable: true, data }
}

fn v_balance(mint: Address, owner: Address) -> Vec<u8> {
    let account = Account {
        mint: Pubkey::new_from_array(mint.to_bytes()),
        owner: Pubkey::new_from_array(owner.to_bytes()),
        amount: 0,
        delegate: COption::None,
        state: AccountState::Initialized,
        is_native: COption::None,
        delegated_amount: 0,
        close_authority: COption::None,
    };
    let mut data = vec![0u8; Account::LEN];
    Account::pack(account, &mut data).unwrap();
    data
}

fn v_state_key() -> Address {
    find_program_state_address(&v_program()).unwrap().0
}

/// user, configuration, authority, input balance, output balance, reward
/// balance, token program
fn v_swap_accounts() -> Vec<AccountEntry> {
    vec![
        v_entry(v_key(7), true, vec![]),
        v_entry(v_state_key(), false, v_state().to_bytes()),
        v_entry(find_authority_address(&v_program()).unwrap().0, false, vec![]),
        v_entry(v_key(10), false, vec![]),
        v_entry(v_key(11), false, vec![]),
        v_entry(v_key(12), false, v_balance(v_key(3), v_key(7))),
        v_entry(Address::new(spl_token::id().to_bytes()), false, vec![]),
    ]
}

fn v_admin_accounts(signer: Address, data: Vec<u8>) -> Vec<AccountEntry> {
    vec![v_entry(signer, true, vec![]), v_entry(v_state_key(), false, data)]
}

#[test]
fn rate_configuration_round_trips_in_its_layout() {
    let state = v_state();
    let bytes = state.to_bytes();
    assert_eq!(bytes.len(), RATE_STATE_LEN);
    assert_eq!(ProgramState::from_bytes(&bytes), Some(state));
    let expected = (
        v_key(1).to_bytes(),
        v_key(2).to_bytes(),
        v_key(3).to_bytes(),
        2000u64,
        10u64,
        500u64,
        30u64,
        50u64,
        true,
    )
        .try_to_vec()
        .unwrap();
    assert_eq!(bytes, expected);
    assert_eq!(ProgramState::from_bytes(&bytes[..136]), None);
    let mut flag = bytes.clone();
    flag[136] = 2;
    assert_eq!(ProgramState::from_bytes(&flag), None);
    let mut out = vec![9];
    write_rates(&mut out, &v_rates());
    assert_eq!(out.len(), 41);
    assert_eq!(read_rates(&out, 1), v_rates());
}

#[test]
fn rate_requests_round_trip() {
    let all = [
        SwapInstruction::Initialize {
            admin: v_key(1),
            yot_mint: v_key(2),
            yos_mint: v_key(3),
            rates: v_rates(),
        },
        SwapInstruction::Swap { amount_in: 10, min_amount_out: 9 },
        SwapInstruction::UpdateParameters { update: v_nothing() },
        SwapInstruction::UpdateParameters {
            update: RateUpdate {
                lp_contribution_rate: Some(1),
                admin_fee_rate: None,
                yos_cashback_rate: Some(u64::MAX),
                swap_fee_rate: None,
                referral_rate: Some(0),
            },
        },
        SwapInstruction::SetAdmin { new_admin: v_key(8) },
        SwapInstruction::CloseProgram,
    ];
    for instruction in all {
        let bytes = instruction.to_bytes();
        assert_eq!(SwapInstruction::from_bytes(&bytes), Some(instruction));
        let mut longer = bytes.clone();
        longer.push(0);
        assert_eq!(SwapInstruction::from_bytes(&longer), None);
        assert_eq!(SwapInstruction::from_bytes(&bytes[..bytes.len() - 1]), None);
    }
    assert_eq!(SwapInstruction::CloseProgram.to_bytes(), vec![4]);
    assert_eq!(
        SwapInstruction::Swap { amount_in: 10, min_amount_out: 9 }.to_bytes(),
        (1u8, 10u64, 9u64).try_to_vec().unwrap()
    );
    assert_eq!(
        SwapInstruction::UpdateParameters {
            update: RateUpdate { admin_fee_rate: Some(7), ..v_nothing() }
        }
        .to_bytes(),
        (2u8, None::<u64>, Some(7u64), None::<u64>, None::<u64>, None::<u64>)
            .try_to_vec()
            .unwrap()
    );
    assert_eq!(SwapInstruction::from_bytes(&[]), None);
    assert_eq!(SwapInstruction::from_bytes(&[5]), None);
    assert_eq!(SwapInstruction::from_bytes(&[2, 0, 0, 0, 0]), None);
    assert_eq!(SwapInstruction::from_bytes(&[2, 0, 0, 3, 0, 0]), None);
}

#[test]
fn rate_shares_are_basis_points_rounded_down() {
    assert_eq!(share_at_rate(10_000, 2000), Some(2_000));
    assert_eq!(share_at_rate(9_999, 10), Some(9));
    assert_eq!(share_at_rate(0, u64::MAX), Some(0));
    assert_eq!(share_at_rate(u64::MAX, 1), Some(u64::MAX / 10_000));
    assert_eq!(share_at_rate(u64::MAX, 2), None);
    assert_eq!(share_at_rate(1 << 32, 1 << 32), None);
}

#[test]
fn swap_amounts_add_up_to_the_input() {
    let amounts = swap_amounts(1_000_000, 0, &v_rates()).unwrap();
    assert_eq!(
        amounts,
        SwapAmounts {
            amount_in: 1_000_000,
            lp_contribution_amount: 200_000,
            admin_fee_amount: 1_000,
            swap_fee_amount: 3_000,
            referral_amount: 5_000,
            amount_out: 791_000,
            yos_cashback_amount: 50_000,
        }
    );
    assert_eq!(swap_amounts(1_000_000, 791_000, &v_rates()), Ok(amounts));
    assert_eq!(
        swap_amounts(1_000_000, 791_001, &v_rates()),
        Err(SwapError::InvalidInstructionData)
    );
    assert_eq!(swap_amounts(u64::MAX, 0, &v_rates()), Err(SwapError::ArithmeticOverflow));
    // deductions of more than the whole
    let greedy = SwapRates { lp_contribution_rate: 9_000, referral_rate: 1_001, ..v_rates() };
    assert_eq!(swap_amounts(1_000_000, 0, &greedy), Err(SwapError::ArithmeticOverflow));
    // a cashback product that does not fit, though the deductions do
    let lavish = SwapRates {
        lp_contribution_rate: 0,
        admin_fee_rate: 0,
        swap_fee_rate: 0,
        referral_rate: 0,
        yos_cashback_rate: 2,
    };
    assert_eq!(swap_amounts(u64::MAX, 0, &lavish), Err(SwapError::ArithmeticOverflow));
}

#[test]
fn rate_swap_orders_deposit_payout_and_cashback() {
    let (authority, bump) = find_program_authority(&v_program()).unwrap();
    let plan = process_swap(&v_program(), &v_swap_accounts(), 1_000_000, 700_000).unwrap();
    assert_eq!(plan.amounts.amount_out, 791_000);
    assert_eq!(
        plan.deposit,
        TransferOrder {
            source: v_key(10),
            destination: authority,
            authority: v_key(7),
            amount: 1_000_000,
            bump: None,
        }
    );
    assert_eq!(
        plan.payout,
        TransferOrder {
            source: authority,
            destination: v_key(11),
            authority,
            amount: 791_000,
            bump: Some(bump),
        }
    );
    assert_eq!(
        plan.cashback,
        MintOrder { mint: v_key(3), destination: v_key(12), authority, amount: 50_000, bump }
    );
}

#[test]
fn rate_swap_refusals_come_in_order() {
    let good = v_swap_accounts();
    let run = |accounts: &[AccountEntry]| process_swap(&v_program(), accounts, 1_000_000, 0);
    assert_eq!(run(&good[..6]), Err(SwapError::NotEnoughAccountKeys));
    let mut unsigned = good.clone();
    unsigned[0].is_signer = false;
    unsigned[1].data = vec![];
    assert_eq!(run(&unsigned), Err(SwapError::MissingRequiredSignature));
    let mut garbled = good.clone();
    garbled[1].data = vec![1, 2];
    assert_eq!(run(&garbled), Err(SwapError::InvalidAccountData));
    let mut dormant = good.clone();
    dormant[1].data = ProgramState { is_initialized: false, ..v_state() }.to_bytes();
    dormant[2].key = v_key(99);
    assert_eq!(run(&dormant), Err(SwapError::UninitializedAccount));
    let mut forged = good.clone();
    forged[2].key = v_key(99);
    assert_eq!(run(&forged), Err(SwapError::InvalidAccountData));
    let mut wrong_mint = good.clone();
    wrong_mint[5].data = v_balance(v_key(2), v_key(7));
    assert_eq!(run(&wrong_mint), Err(SwapError::InvalidAccountData));
    let mut not_mine = good.clone();
    not_mine[5].data = v_balance(v_key(3), v_key(8));
    assert_eq!(run(&not_mine), Err(SwapError::InvalidAccountData));
    let mut unreadable = good.clone();
    unreadable[5].data = vec![];
    assert_eq!(run(&unreadable), Err(SwapError::InvalidAccountData));
    assert_eq!(
        process_swap(&v_program(), &good, 1_000_000, 800_000),
        Err(SwapError::InvalidInstructionData)
    );
    assert_eq!(
        process_swap(&v_program(), &good, u64::MAX, 0),
        Err(SwapError::ArithmeticOverflow)
    );
    let reward = Some(TokenAccount { mint: v_key(3), owner: v_key(7), amount: 0 });
    assert_eq!(
        settle_swap(&good, None, reward, 1_000_000, 0),
        Err(SwapError::InvalidAccountData)
    );
    let mut made_up = good.clone();
    made_up[2].key = v_key(61);
    let plan = settle_swap(&made_up, Some((v_key(61), 9)), reward, 1_000_000, 0).unwrap();
    assert_eq!(plan.cashback.bump, 9);
}

#[test]
fn rate_configuration_address_uses_its_own_seed() {
    assert_eq!(&STATE_SEED[..], b"state");
    let key = Pubkey::new_from_array(v_program().to_bytes());
    let (expected, bump) = Pubkey::find_program_address(&[b"state"], &key);
    assert_eq!(
        find_program_state_address(&v_program()),
        Some((Address::new(expected.to_bytes()), bump))
    );
    assert_eq!(
        find_program_state_address(&v_program()),
        derive_address(&STATE_SEED, &v_program())
    );
    assert_eq!(find_program_authority(&v_program()), find_authority_address(&v_program()));
}

fn v_init_accounts(data: Vec<u8>) -> Vec<AccountEntry> {
    vec![
        v_entry(v_key(5), true, vec![]),
        v_entry(v_state_key(), false, data),
        v_entry(find_authority_address(&v_program()).unwrap().0, false, vec![]),
        v_entry(v_key(0), false, vec![]),
        v_entry(v_key(90), false, vec![]),
    ]
}

#[test]
fn rate_configuration_is_created_once() {
    let state_bump = find_program_state_address(&v_program()).unwrap().1;
    let run = |accounts: &[AccountEntry]| {
        process_initialize(&v_program(), accounts, &v_key(1), &v_key(2), &v_key(3), &v_rates())
    };
    assert_eq!(
        run(&v_init_accounts(vec![])),
        Ok(Initialization { state: v_state(), state_bump, create_account: true })
    );
    assert_eq!(
        run(&v_init_accounts(vec![0; 137])),
        Ok(Initialization { state: v_state(), state_bump, create_account: false })
    );
    assert_eq!(
        run(&v_init_accounts(v_state().to_bytes())),
        Err(SwapError::AccountAlreadyInitialized)
    );
    assert_eq!(run(&v_init_accounts(vec![1, 2, 3])), Err(SwapError::InvalidAccountData));
    assert_eq!(run(&v_init_accounts(vec![])[..4]), Err(SwapError::NotEnoughAccountKeys));
    let mut unsigned = v_init_accounts(vec![]);
    unsigned[0].is_signer = false;
    assert_eq!(run(&unsigned), Err(SwapError::MissingRequiredSignature));
    let mut elsewhere = v_init_accounts(vec![]);
    elsewhere[1].key = v_key(77);
    assert_eq!(run(&elsewhere), Err(SwapError::InvalidAccountData));
    let mut forged = v_init_accounts(vec![]);
    forged[2].key = v_key(77);
    assert_eq!(run(&forged), Err(SwapError::InvalidAccountData));
    assert_eq!(
        settle_initialize(
            &v_init_accounts(vec![]),
            None,
            find_program_authority(&v_program()),
            &v_key(1),
            &v_key(2),
            &v_key(3),
            &v_rates()
        ),
        Err(SwapError::InvalidAccountData)
    );
}

#[test]
fn administrator_gate_checks_in_order() {
    let state_address = find_program_state_address(&v_program());
    let good = v_admin_accounts(v_key(1), v_state().to_bytes());
    assert_eq!(pass_admin_gate(&good, state_address), Ok(v_state()));
    assert_eq!(pass_admin_gate(&good[..1], state_address), Err(SwapError::NotEnoughAccountKeys));
    assert_eq!(pass_admin_gate(&good, None), Err(SwapError::InvalidAccountData));
    let garbled = v_admin_accounts(v_key(1), vec![]);
    assert_eq!(pass_admin_gate(&garbled, state_address), Err(SwapError::InvalidAccountData));
    let dormant =
        v_admin_accounts(v_key(1), ProgramState { is_initialized: false, ..v_state() }.to_bytes());
    assert_eq!(pass_admin_gate(&dormant, state_address), Err(SwapError::UninitializedAccount));
    let mut stranger = v_admin_accounts(v_key(2), v_state().to_bytes());
    stranger[0].is_signer = false;
    assert_eq!(pass_admin_gate(&stranger, state_address), Err(SwapError::InvalidAccountData));
    let mut unsigned = good.clone();
    unsigned[0].is_signer = false;
    assert_eq!(pass_admin_gate(&unsigned, state_address), Err(SwapError::MissingRequiredSignature));
}

#[test]
fn rates_are_replaced_only_where_supplied() {
    assert_eq!(replace_rate(5, None), 5);
    assert_eq!(replace_rate(5, Some(0)), 0);
    let good = v_admin_accounts(v_key(1), v_state().to_bytes());
    let update = RateUpdate { swap_fee_rate: Some(25), referral_rate: Some(0), ..v_nothing() };
    let after = process_update_parameters(&v_program(), &good, &update).unwrap();
    assert_eq!(
        after,
        ProgramState {
            rates: SwapRates { swap_fee_rate: 25, referral_rate: 0, ..v_rates() },
            ..v_state()
        }
    );
    assert_eq!(process_update_parameters(&v_program(), &good, &v_nothing()), Ok(v_state()));
    let stranger = v_admin_accounts(v_key(2), v_state().to_bytes());
    assert_eq!(
        process_update_parameters(&v_program(), &stranger, &update),
        Err(SwapError::InvalidAccountData)
    );
}

#[test]
fn administration_is_handed_over_and_the_program_closed() {
    let good = v_admin_accounts(v_key(1), v_state().to_bytes());
    let handed = process_set_admin(&v_program(), &good, &v_key(8)).unwrap();
    assert_eq!(handed, ProgramState { admin: v_key(8), ..v_state() });
    let after = v_admin_accounts(v_key(1), handed.to_bytes());
    assert_eq!(
        process_set_admin(&v_program(), &after, &v_key(1)),
        Err(SwapError::InvalidAccountData)
    );
    assert_eq!(
        process_close_program(&v_program(), &after),
        Err(SwapError::InvalidAccountData)
    );
    assert_eq!(
        process_close_program(&v_program(), &good),
        Ok(ClosePlan { refund_to: v_key(1) })
    );
    let closed = v_admin_accounts(v_key(1), vec![0; 137]);
    assert_eq!(
        process_close_program(&v_program(), &closed),
        Err(SwapError::UninitializedAccount)
    );
}

#[test]
fn rate_requests_in_bytes_reach_their_handlers() {
    let swap = SwapInstruction::Swap { amount_in: 1_000_000, min_amount_out: 0 }.to_bytes();
    match process_instruction(&v_program(), &v_swap_accounts(), &swap) {
        Ok(Processed::Swapped(plan)) => assert_eq!(plan.amounts.amount_out, 791_000),
        other => panic!("{:?}", other),
    }
    let init = SwapInstruction::Initialize {
        admin: v_key(1),
        yot_mint: v_key(2),
        yos_mint: v_key(3),
        rates: v_rates(),
    }
    .to_bytes();
    match process_instruction(&v_program(), &v_init_accounts(vec![]), &init) {
        Ok(Processed::Initialized(done)) => assert_eq!(done.state, v_state()),
        other => panic!("{:?}", other),
    }
    let good = v_admin_accounts(v_key(1), v_state().to_bytes());
    let update = SwapInstruction::UpdateParameters {
        update: RateUpdate { admin_fee_rate: Some(11), ..v_nothing() },
    }
    .to_bytes();
    match process_instruction(&v_program(), &good, &update) {
        Ok(Processed::ParametersUpdated(state)) => assert_eq!(state.rates.admin_fee_rate, 11),
        other => panic!("{:?}", other),
    }
    let hand_over = SwapInstruction::SetAdmin { new_admin: v_key(8) }.to_bytes();
    assert_eq!(
        process_instruction(&v_program(), &good, &hand_over),
        Ok(Processed::AdminChanged(ProgramState { admin: v_key(8), ..v_state() }))
    );
    assert_eq!(
        process_instruction(&v_program(), &good, &[4]),
        Ok(Processed::Closed(ClosePlan { refund_to: v_key(1) }))
    );
    assert_eq!(
        process_instruction(&v_program(), &good, &[9]),
        Err(SwapError::InvalidInstructionData)
    );
    assert_eq!(
        process_instruction(&v_program(), &good, &[]),
        Err(SwapError::InvalidInstructionData)
    );
}
