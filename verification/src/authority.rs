use crate::address::Address;
use crate::error::StakingError;
use solana_program::pubkey::Pubkey;
use vstd::prelude::*;

verus! {

/// Seed of the address that signs for the custodial pools: the ASCII text `authority`.
pub const AUTHORITY_SEED: [u8; 9] = [97, 117, 116, 104, 111, 114, 105, 116, 121];

/// Seed of the address that holds the configuration record: the ASCII text `program_state`.
pub const PROGRAM_STATE_SEED: [u8; 13] = [112, 114, 111, 103, 114, 97, 109, 95, 115, 116, 97, 116, 101];

/// Seed of the address that holds the configuration of the rate-based swap: the
/// ASCII text `state`.
pub const STATE_SEED: [u8; 5] = [115, 116, 97, 116, 101];

/// The program-controlled address that `seed` and `program_id` derive, with the
/// bump that was found for it; `None` where no bump gives an address off the
/// curve or the seed is too long.
pub uninterp spec fn program_address(seed: Seq<u8>, program_id: Seq<u8>) -> Option<(Seq<u8>, u8)>;

/// A derived address by its bytes.
pub open spec fn derived_view(derived: Option<(Address, u8)>) -> Option<(Seq<u8>, u8)> {
    match derived {
        Some((address, bump)) => Some((address@, bump)),
        None => None,
    }
}

/// The capability to sign for a derived address: the address and its bump.
#[derive(Clone, Copy, Debug, PartialEq, Eq)]
pub struct Authority {
    pub address: Address,
    pub bump: u8,
}

/// Calls `Pubkey::try_find_program_address` of solana_program with the one seed
/// given. The contract claims that the outcome depends on the seed and the
/// program identity alone, and names it `program_address`.
#[verifier::external_body]
fn try_find_program_address(seed: &[u8], program_id: &Address) -> (r: Option<(Address, u8)>)
    ensures
        derived_view(r) == program_address(seed@, program_id@),
{
    Pubkey::try_find_program_address(&[seed], &Pubkey::new_from_array(program_id.bytes))
        .map(|(key, bump)| (Address { bytes: key.to_bytes() }, bump))
}

/// Derives the program-controlled address for `seed` under `program_id`.
pub fn derive_address(seed: &[u8], program_id: &Address) -> (r: Option<(Address, u8)>)
    ensures
        derived_view(r) == program_address(seed@, program_id@),
{
    try_find_program_address(seed, program_id)
}

/// Derives the address that signs for the custodial pools.
pub fn find_authority_address(program_id: &Address) -> (r: Option<(Address, u8)>)
    ensures
        derived_view(r) == program_address(AUTHORITY_SEED@, program_id@),
{
    try_find_program_address(AUTHORITY_SEED.as_slice(), program_id)
}

/// Derives the address that holds the configuration record.
pub fn find_program_state_address(program_id: &Address) -> (r: Option<(Address, u8)>)
    ensures
        derived_view(r) == program_address(PROGRAM_STATE_SEED@, program_id@),
{
    try_find_program_address(PROGRAM_STATE_SEED.as_slice(), program_id)
}

/// The bump that was found with a derived address.
pub open spec fn derived_bump(derived: Option<(Seq<u8>, u8)>) -> u8 {
    match derived {
        Some((_, bump)) => bump,
        None => 0,
    }
}

/// Whether `supplied` is the address that was derived.
pub open spec fn derivation_matches(derived: Option<(Seq<u8>, u8)>, supplied: Seq<u8>) -> bool {
    derived matches Some((address, _)) && address == supplied
}

/// What `check_derivation` returns: the capability for `supplied` where it is
/// the derived address, a refusal otherwise.
pub open spec fn derivation_result(derived: Option<(Seq<u8>, u8)>, supplied: Address) -> Result<
    Authority,
    StakingError,
> {
    match derived {
        Some((address, bump)) => if address == supplied@ {
            Ok(Authority { address: supplied, bump })
        } else {
            Err(StakingError::InvalidAddressDerivation)
        },
        None => Err(StakingError::InvalidAddressDerivation),
    }
}

/// Compares a supplied address with the one that was derived.
pub fn check_derivation(derived: Option<(Address, u8)>, supplied: &Address) -> (r: Result<
    Authority,
    StakingError,
>)
    ensures
        r == derivation_result(derived_view(derived), *supplied),
        r is Ok <==> derivation_matches(derived_view(derived), supplied@),
{
    match derived {
        Some((address, bump)) => {
            if address.same(supplied) {
                Ok(Authority { address: *supplied, bump })
            } else {
                Err(StakingError::InvalidAddressDerivation)
            }
        },
        None => Err(StakingError::InvalidAddressDerivation),
    }
}

/// Derives the pool authority again and refuses a supplied address that differs.
pub fn verify_authority(program_id: &Address, supplied: &Address) -> (r: Result<
    Authority,
    StakingError,
>)
    ensures
        r == derivation_result(program_address(AUTHORITY_SEED@, program_id@), *supplied),
{
    check_derivation(find_authority_address(program_id), supplied)
}

/// Derives the configuration address again and refuses a supplied address that differs.
pub fn verify_program_state_address(program_id: &Address, supplied: &Address) -> (r: Result<
    Authority,
    StakingError,
>)
    ensures
        r == derivation_result(program_address(PROGRAM_STATE_SEED@, program_id@), *supplied),
{
    check_derivation(find_program_state_address(program_id), supplied)
}

/// Deriving twice from the same seed and program identity gives the same
/// address and bump.
pub proof fn lemma_derivation_repeatable(
    seed: Seq<u8>,
    program_id: Seq<u8>,
    first: Option<(Address, u8)>,
    second: Option<(Address, u8)>,
)
    requires
        derived_view(first) == program_address(seed, program_id),
        derived_view(second) == program_address(seed, program_id),
    ensures
        first == second,
{
    match (first, second) {
        (Some((a, _)), Some((b, _))) => {
            crate::address::lemma_address_ext(a, b);
        },
        _ => {},
    }
}

} // verus!
