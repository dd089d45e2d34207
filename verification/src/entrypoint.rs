use crate::account::AccountEntry;
use crate::address::Address;
use crate::admin::{
    process_initialize, process_initialize_result, process_set_admin, process_set_admin_result,
    process_update_parameters, process_update_parameters_result, InitialParameters,
    ParameterUpdate,
};
use crate::authority::{program_address, AUTHORITY_SEED, PROGRAM_STATE_SEED};
use crate::error::StakingError;
use crate::instruction::StakingInstruction;
use crate::processor::{
    process_harvest, process_harvest_result, process_stake, process_stake_result,
    process_unstake, process_unstake_result, HarvestPlan, StakePlan, UnstakePlan,
};
use crate::state::ProgramState;
use crate::token::token_account_at;
use vstd::prelude::*;

verus! {

/// What an accepted request asks the host to do: persist the record it
/// carries, then carry out the transfers of its plan.
#[derive(Clone, Copy, Debug, PartialEq, Eq)]
pub enum Processed {
    Initialized(ProgramState),
    Staked(StakePlan),
    Unstaked(UnstakePlan),
    Harvested(HarvestPlan),
    ParametersUpdated(ProgramState),
    AdminChanged(ProgramState),
}

/// What a request comes to: malformed where its bytes are no request, else
/// what the handler of its kind decides.
pub open spec fn process_instruction_result(
    accounts: Seq<AccountEntry>,
    instruction: Option<StakingInstruction>,
    authority: Option<(Seq<u8>, u8)>,
    state_address: Option<(Seq<u8>, u8)>,
    harvest_pool: Option<(Seq<u8>, Seq<u8>, u64)>,
    unstake_pool: Option<(Seq<u8>, Seq<u8>, u64)>,
    now: i64,
) -> Result<Processed, StakingError> {
    match instruction {
        None => Err(StakingError::MalformedRequest),
        Some(
            StakingInstruction::Initialize {
                yot_mint,
                yos_mint,
                stake_rate_per_second,
                harvest_threshold,
                stake_threshold,
                unstake_threshold,
            },
        ) => match process_initialize_result(
            accounts,
            state_address,
            InitialParameters {
                yot_mint,
                yos_mint,
                stake_rate_per_second,
                harvest_threshold,
                stake_threshold,
                unstake_threshold,
            },
        ) {
            Ok(state) => Ok(Processed::Initialized(state)),
            Err(e) => Err(e),
        },
        Some(StakingInstruction::Stake { amount }) => match process_stake_result(
            accounts,
            state_address,
            amount,
            now,
        ) {
            Ok(plan) => Ok(Processed::Staked(plan)),
            Err(e) => Err(e),
        },
        Some(StakingInstruction::Unstake { amount }) => match process_unstake_result(
            accounts,
            authority,
            state_address,
            unstake_pool,
            amount,
            now,
        ) {
            Ok(plan) => Ok(Processed::Unstaked(plan)),
            Err(e) => Err(e),
        },
        Some(StakingInstruction::Harvest) => match process_harvest_result(
            accounts,
            authority,
            state_address,
            harvest_pool,
            now,
        ) {
            Ok(plan) => Ok(Processed::Harvested(plan)),
            Err(e) => Err(e),
        },
        Some(
            StakingInstruction::UpdateParameters {
                stake_rate_per_second,
                harvest_threshold,
                stake_threshold,
                unstake_threshold,
            },
        ) => match process_update_parameters_result(
            accounts,
            state_address,
            ParameterUpdate {
                stake_rate_per_second,
                harvest_threshold,
                stake_threshold,
                unstake_threshold,
            },
        ) {
            Ok(state) => Ok(Processed::ParametersUpdated(state)),
            Err(e) => Err(e),
        },
        Some(StakingInstruction::SetAdmin { new_admin }) => match process_set_admin_result(
            accounts,
            state_address,
            new_admin,
        ) {
            Ok(state) => Ok(Processed::AdminChanged(state)),
            Err(e) => Err(e),
        },
    }
}

/// Reads a request from `instruction_data` and hands it to the handler of its
/// kind, with the account list that came with it and the clock's `now`.
pub fn process_instruction(
    program_id: &Address,
    accounts: &[AccountEntry],
    instruction_data: &[u8],
    now: i64,
) -> (r: Result<Processed, StakingError>)
    ensures
        r == process_instruction_result(
            accounts@,
            StakingInstruction::decoded(instruction_data@),
            program_address(AUTHORITY_SEED@, program_id@),
            program_address(PROGRAM_STATE_SEED@, program_id@),
            token_account_at(accounts@, 2),
            token_account_at(accounts@, 4),
            now,
        ),
{
    let instruction = match StakingInstruction::from_bytes(instruction_data) {
        Some(instruction) => instruction,
        None => { return Err(StakingError::MalformedRequest); },
    };
    match instruction {
        StakingInstruction::Initialize {
            yot_mint,
            yos_mint,
            stake_rate_per_second,
            harvest_threshold,
            stake_threshold,
            unstake_threshold,
        } => {
            let parameters = InitialParameters {
                yot_mint,
                yos_mint,
                stake_rate_per_second,
                harvest_threshold,
                stake_threshold,
                unstake_threshold,
            };
            match process_initialize(program_id, accounts, &parameters) {
                Ok(state) => Ok(Processed::Initialized(state)),
                Err(e) => Err(e),
            }
        },
        StakingInstruction::Stake { amount } => {
            match process_stake(program_id, accounts, amount, now) {
                Ok(plan) => Ok(Processed::Staked(plan)),
                Err(e) => Err(e),
            }
        },
        StakingInstruction::Unstake { amount } => {
            match process_unstake(program_id, accounts, amount, now) {
                Ok(plan) => Ok(Processed::Unstaked(plan)),
                Err(e) => Err(e),
            }
        },
        StakingInstruction::Harvest => {
            match process_harvest(program_id, accounts, now) {
                Ok(plan) => Ok(Processed::Harvested(plan)),
                Err(e) => Err(e),
            }
        },
        StakingInstruction::UpdateParameters {
            stake_rate_per_second,
            harvest_threshold,
            stake_threshold,
            unstake_threshold,
        } => {
            let update = ParameterUpdate {
                stake_rate_per_second,
                harvest_threshold,
                stake_threshold,
                unstake_threshold,
            };
            match process_update_parameters(program_id, accounts, &update) {
                Ok(state) => Ok(Processed::ParametersUpdated(state)),
                Err(e) => Err(e),
            }
        },
        StakingInstruction::SetAdmin { new_admin } => {
            match process_set_admin(program_id, accounts, &new_admin) {
                Ok(state) => Ok(Processed::AdminChanged(state)),
                Err(e) => Err(e),
            }
        },
    }
}

} // verus!
