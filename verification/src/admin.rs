use crate::account::AccountEntry;
use crate::address::Address;
use crate::authority::{
    check_derivation, derivation_matches, derived_view, find_program_state_address,
    program_address, PROGRAM_STATE_SEED,
};
use crate::error::StakingError;
use crate::processor::{config_of, load_config};
use crate::state::{lemma_state_roundtrip, ProgramState};
use vstd::prelude::*;

verus! {

/// The values that `Initialize` sets.
#[derive(Clone, Copy, Debug, PartialEq, Eq)]
pub struct InitialParameters {
    pub yot_mint: Address,
    pub yos_mint: Address,
    pub stake_rate_per_second: u64,
    pub harvest_threshold: u64,
    pub stake_threshold: u64,
    pub unstake_threshold: u64,
}

/// The values that `UpdateParameters` may set; `None` leaves one as it is.
#[derive(Clone, Copy, Debug, PartialEq, Eq)]
pub struct ParameterUpdate {
    pub stake_rate_per_second: Option<u64>,
    pub harvest_threshold: Option<u64>,
    pub stake_threshold: Option<u64>,
    pub unstake_threshold: Option<u64>,
}

/// A value that is replaced only where a new one is supplied.
pub open spec fn replaced(current: u64, supplied: Option<u64>) -> u64 {
    match supplied {
        Some(value) => value,
        None => current,
    }
}

/// Whether a live configuration record is there already.
pub open spec fn is_live(existing: Option<ProgramState>) -> bool {
    existing matches Some(state) && state.is_initialized
}

/// What `initialize` returns. Checked in this order: signature, no live record.
pub open spec fn initialize_result(
    existing: Option<ProgramState>,
    admin: Address,
    signed: bool,
    parameters: InitialParameters,
) -> Result<ProgramState, StakingError> {
    if !signed {
        Err(StakingError::MissingSignature)
    } else if is_live(existing) {
        Err(StakingError::AlreadyInitialized)
    } else {
        Ok(
            ProgramState {
                is_initialized: true,
                admin,
                yot_mint: parameters.yot_mint,
                yos_mint: parameters.yos_mint,
                stake_rate_per_second: parameters.stake_rate_per_second,
                harvest_threshold: parameters.harvest_threshold,
                stake_threshold: parameters.stake_threshold,
                unstake_threshold: parameters.unstake_threshold,
            },
        )
    }
}

/// What every change by the administrator is checked for, in this order:
/// signature, live record, the caller being the administrator.
pub open spec fn admin_refusal(config: ProgramState, caller: Address, signed: bool) -> Option<
    StakingError,
> {
    if !signed {
        Some(StakingError::MissingSignature)
    } else if !config.is_initialized {
        Some(StakingError::NotInitialized)
    } else if config.admin != caller {
        Some(StakingError::Unauthorized)
    } else {
        None
    }
}

/// What `update_parameters` returns: the record with the supplied values in
/// place and all else as it was, or the refusal.
pub open spec fn update_parameters_result(
    config: ProgramState,
    caller: Address,
    signed: bool,
    update: ParameterUpdate,
) -> Result<ProgramState, StakingError> {
    match admin_refusal(config, caller, signed) {
        Some(e) => Err(e),
        None => Ok(
            ProgramState {
                stake_rate_per_second: replaced(
                    config.stake_rate_per_second,
                    update.stake_rate_per_second,
                ),
                harvest_threshold: replaced(config.harvest_threshold, update.harvest_threshold),
                stake_threshold: replaced(config.stake_threshold, update.stake_threshold),
                unstake_threshold: replaced(config.unstake_threshold, update.unstake_threshold),
                ..config
            },
        ),
    }
}

/// What `set_admin` returns: the record with the new administrator and all
/// else as it was, or the refusal.
pub open spec fn set_admin_result(
    config: ProgramState,
    caller: Address,
    signed: bool,
    new_admin: Address,
) -> Result<ProgramState, StakingError> {
    match admin_refusal(config, caller, signed) {
        Some(e) => Err(e),
        None => Ok(ProgramState { admin: new_admin, ..config }),
    }
}

/// Refuses a change that the administrator did not sign for.
pub fn check_admin(config: &ProgramState, caller: &Address, signed: bool) -> (r: Option<
    StakingError,
>)
    ensures
        r == admin_refusal(*config, *caller, signed),
{
    if !signed {
        Some(StakingError::MissingSignature)
    } else if !config.is_initialized {
        Some(StakingError::NotInitialized)
    } else if !config.admin.same(caller) {
        Some(StakingError::Unauthorized)
    } else {
        None
    }
}

/// Creates the configuration record with `admin` as its administrator.
pub fn initialize(
    existing: Option<ProgramState>,
    admin: &Address,
    signed: bool,
    parameters: &InitialParameters,
) -> (r: Result<ProgramState, StakingError>)
    ensures
        r == initialize_result(existing, *admin, signed, *parameters),
{
    if !signed {
        return Err(StakingError::MissingSignature);
    }
    let live = match existing {
        Some(state) => state.is_initialized,
        None => false,
    };
    if live {
        return Err(StakingError::AlreadyInitialized);
    }
    Ok(
        ProgramState {
            is_initialized: true,
            admin: *admin,
            yot_mint: parameters.yot_mint,
            yos_mint: parameters.yos_mint,
            stake_rate_per_second: parameters.stake_rate_per_second,
            harvest_threshold: parameters.harvest_threshold,
            stake_threshold: parameters.stake_threshold,
            unstake_threshold: parameters.unstake_threshold,
        },
    )
}

/// Overwrites the supplied parameters and leaves the omitted ones.
pub fn update_parameters(
    config: &ProgramState,
    caller: &Address,
    signed: bool,
    update: &ParameterUpdate,
) -> (r: Result<ProgramState, StakingError>)
    ensures
        r == update_parameters_result(*config, *caller, signed, *update),
{
    if let Some(e) = check_admin(config, caller, signed) {
        return Err(e);
    }
    Ok(
        ProgramState {
            is_initialized: config.is_initialized,
            admin: config.admin,
            yot_mint: config.yot_mint,
            yos_mint: config.yos_mint,
            stake_rate_per_second: match update.stake_rate_per_second {
                Some(value) => value,
                None => config.stake_rate_per_second,
            },
            harvest_threshold: match update.harvest_threshold {
                Some(value) => value,
                None => config.harvest_threshold,
            },
            stake_threshold: match update.stake_threshold {
                Some(value) => value,
                None => config.stake_threshold,
            },
            unstake_threshold: match update.unstake_threshold {
                Some(value) => value,
                None => config.unstake_threshold,
            },
        },
    )
}

/// Hands the administration to `new_admin`.
pub fn set_admin(config: &ProgramState, caller: &Address, signed: bool, new_admin: &Address) -> (r:
    Result<ProgramState, StakingError>)
    ensures
        r == set_admin_result(*config, *caller, signed, *new_admin),
{
    if let Some(e) = check_admin(config, caller, signed) {
        return Err(e);
    }
    Ok(
        ProgramState {
            is_initialized: config.is_initialized,
            admin: *new_admin,
            yot_mint: config.yot_mint,
            yos_mint: config.yos_mint,
            stake_rate_per_second: config.stake_rate_per_second,
            harvest_threshold: config.harvest_threshold,
            stake_threshold: config.stake_threshold,
            unstake_threshold: config.unstake_threshold,
        },
    )
}

/// What an `Initialize` request comes to. The accounts are, in order: the
/// administrator, the configuration. Checked in this order: two accounts, the
/// administrator's signature, the configuration address, then the rules of
/// `initialize_result` on whatever record the configuration account holds.
pub open spec fn process_initialize_result(
    accounts: Seq<AccountEntry>,
    state_address: Option<(Seq<u8>, u8)>,
    parameters: InitialParameters,
) -> Result<ProgramState, StakingError> {
    if accounts.len() < 2 {
        Err(StakingError::MalformedRequest)
    } else if !accounts[0].is_signer {
        Err(StakingError::MissingSignature)
    } else if !derivation_matches(state_address, accounts[1].key@) {
        Err(StakingError::InvalidAddressDerivation)
    } else {
        initialize_result(
            ProgramState::decoded(accounts[1].data@),
            accounts[0].key,
            true,
            parameters,
        )
    }
}

/// What an `UpdateParameters` request comes to. The accounts are, in order:
/// the administrator, the configuration. Checked in this order: two accounts,
/// the administrator's signature, the configuration address, the
/// configuration, then the rules of `update_parameters_result`.
pub open spec fn process_update_parameters_result(
    accounts: Seq<AccountEntry>,
    state_address: Option<(Seq<u8>, u8)>,
    update: ParameterUpdate,
) -> Result<ProgramState, StakingError> {
    if accounts.len() < 2 {
        Err(StakingError::MalformedRequest)
    } else if !accounts[0].is_signer {
        Err(StakingError::MissingSignature)
    } else if !derivation_matches(state_address, accounts[1].key@) {
        Err(StakingError::InvalidAddressDerivation)
    } else {
        match config_of(accounts[1].data@) {
            Err(e) => Err(e),
            Ok(config) => update_parameters_result(config, accounts[0].key, true, update),
        }
    }
}

/// What a `SetAdmin` request comes to, with the accounts and the order of
/// checks of `UpdateParameters`.
pub open spec fn process_set_admin_result(
    accounts: Seq<AccountEntry>,
    state_address: Option<(Seq<u8>, u8)>,
    new_admin: Address,
) -> Result<ProgramState, StakingError> {
    if accounts.len() < 2 {
        Err(StakingError::MalformedRequest)
    } else if !accounts[0].is_signer {
        Err(StakingError::MissingSignature)
    } else if !derivation_matches(state_address, accounts[1].key@) {
        Err(StakingError::InvalidAddressDerivation)
    } else {
        match config_of(accounts[1].data@) {
            Err(e) => Err(e),
            Ok(config) => set_admin_result(config, accounts[0].key, true, new_admin),
        }
    }
}

/// Decides an `Initialize` request, given the configuration address that was derived.
pub fn settle_initialize(
    accounts: &[AccountEntry],
    state_address: Option<(Address, u8)>,
    parameters: &InitialParameters,
) -> (r: Result<ProgramState, StakingError>)
    ensures
        r == process_initialize_result(accounts@, derived_view(state_address), *parameters),
{
    if accounts.len() < 2 {
        return Err(StakingError::MalformedRequest);
    }
    if !accounts[0].is_signer {
        return Err(StakingError::MissingSignature);
    }
    if check_derivation(state_address, &accounts[1].key).is_err() {
        return Err(StakingError::InvalidAddressDerivation);
    }
    initialize(
        ProgramState::from_bytes(accounts[1].data.as_slice()),
        &accounts[0].key,
        true,
        parameters,
    )
}

/// Decides an `UpdateParameters` request, given the configuration address that
/// was derived.
pub fn settle_update_parameters(
    accounts: &[AccountEntry],
    state_address: Option<(Address, u8)>,
    update: &ParameterUpdate,
) -> (r: Result<ProgramState, StakingError>)
    ensures
        r == process_update_parameters_result(accounts@, derived_view(state_address), *update),
{
    if accounts.len() < 2 {
        return Err(StakingError::MalformedRequest);
    }
    if !accounts[0].is_signer {
        return Err(StakingError::MissingSignature);
    }
    if check_derivation(state_address, &accounts[1].key).is_err() {
        return Err(StakingError::InvalidAddressDerivation);
    }
    match load_config(accounts[1].data.as_slice()) {
        Err(e) => Err(e),
        Ok(config) => update_parameters(&config, &accounts[0].key, true, update),
    }
}

/// Decides a `SetAdmin` request, given the configuration address that was derived.
pub fn settle_set_admin(
    accounts: &[AccountEntry],
    state_address: Option<(Address, u8)>,
    new_admin: &Address,
) -> (r: Result<ProgramState, StakingError>)
    ensures
        r == process_set_admin_result(accounts@, derived_view(state_address), *new_admin),
{
    if accounts.len() < 2 {
        return Err(StakingError::MalformedRequest);
    }
    if !accounts[0].is_signer {
        return Err(StakingError::MissingSignature);
    }
    if check_derivation(state_address, &accounts[1].key).is_err() {
        return Err(StakingError::InvalidAddressDerivation);
    }
    match load_config(accounts[1].data.as_slice()) {
        Err(e) => Err(e),
        Ok(config) => set_admin(&config, &accounts[0].key, true, new_admin),
    }
}

/// Handles an `Initialize` request: derives the configuration address again,
/// then decides as `settle_initialize` does.
pub fn process_initialize(
    program_id: &Address,
    accounts: &[AccountEntry],
    parameters: &InitialParameters,
) -> (r: Result<ProgramState, StakingError>)
    ensures
        r == process_initialize_result(
            accounts@,
            program_address(PROGRAM_STATE_SEED@, program_id@),
            *parameters,
        ),
{
    settle_initialize(accounts, find_program_state_address(program_id), parameters)
}

/// Handles an `UpdateParameters` request: derives the configuration address
/// again, then decides as `settle_update_parameters` does.
pub fn process_update_parameters(
    program_id: &Address,
    accounts: &[AccountEntry],
    update: &ParameterUpdate,
) -> (r: Result<ProgramState, StakingError>)
    ensures
        r == process_update_parameters_result(
            accounts@,
            program_address(PROGRAM_STATE_SEED@, program_id@),
            *update,
        ),
{
    settle_update_parameters(accounts, find_program_state_address(program_id), update)
}

/// Handles a `SetAdmin` request: derives the configuration address again, then
/// decides as `settle_set_admin` does.
pub fn process_set_admin(program_id: &Address, accounts: &[AccountEntry], new_admin: &Address) -> (r:
    Result<ProgramState, StakingError>)
    ensures
        r == process_set_admin_result(
            accounts@,
            program_address(PROGRAM_STATE_SEED@, program_id@),
            *new_admin,
        ),
{
    settle_set_admin(accounts, find_program_state_address(program_id), new_admin)
}

/// Once the configuration is created and stored, creating it again is refused:
/// there is one live record and no second.
pub proof fn lemma_initialize_once(
    existing: Option<ProgramState>,
    admin: Address,
    parameters: InitialParameters,
    other_admin: Address,
    other_parameters: InitialParameters,
)
    requires
        !is_live(existing),
    ensures
        initialize_result(existing, admin, true, parameters) matches Ok(state)
            && state.is_initialized && state.admin == admin && initialize_result(
            ProgramState::decoded(state.encoding()),
            other_admin,
            true,
            other_parameters,
        ) == Err::<ProgramState, StakingError>(StakingError::AlreadyInitialized),
{
    let state = initialize_result(existing, admin, true, parameters)->Ok_0;
    lemma_state_roundtrip(state);
}

/// Only the administrator's signed request changes the configuration, and an
/// update leaves the administrator, the mints and every omitted value alone.
pub proof fn lemma_update_changes_only_supplied(
    config: ProgramState,
    caller: Address,
    signed: bool,
    update: ParameterUpdate,
)
    ensures
        update_parameters_result(config, caller, signed, update) is Ok <==> (signed
            && config.is_initialized && config.admin == caller),
        update_parameters_result(config, caller, signed, update) matches Ok(after) ==> after.admin
            == config.admin && after.yot_mint == config.yot_mint && after.yos_mint
            == config.yos_mint && after.is_initialized && (update.stake_rate_per_second is None
            ==> after.stake_rate_per_second == config.stake_rate_per_second) && (
        update.harvest_threshold is None ==> after.harvest_threshold == config.harvest_threshold)
            && (update.stake_threshold is None ==> after.stake_threshold == config.stake_threshold)
            && (update.unstake_threshold is None ==> after.unstake_threshold
            == config.unstake_threshold),
{
}

} // verus!
