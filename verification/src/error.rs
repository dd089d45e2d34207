use vstd::prelude::*;

verus! {

/// Why a staking or administration request was refused.
#[derive(Clone, Copy, Debug, PartialEq, Eq, Structural)]
pub enum StakingError {
    /// The caller did not sign the request.
    MissingSignature,
    /// The caller is neither the owner of the record nor the administrator.
    Unauthorized,
    /// A supplied program address is not the one derived from the program identity.
    InvalidAddressDerivation,
    /// The amount is under the configured minimum for the operation.
    BelowThreshold,
    /// The ledger or a custodial pool holds less than the operation needs.
    InsufficientBalance,
    /// An amount or a time span does not fit the integer width that holds it.
    ArithmeticOverflow,
    /// The configuration record is already live.
    AlreadyInitialized,
    /// The configuration record is not live yet.
    NotInitialized,
    /// The request bytes, the account list or a record could not be read.
    MalformedRequest,
}

/// Why the swap feature refused a request, by the code that the host reports.
#[derive(Clone, Copy, Debug, PartialEq, Eq, Structural)]
pub enum MultiHubSwapError {
    InvalidInstruction,
    NotInitialized,
    AlreadyInitialized,
    InvalidAuthority,
    SlippageExceeded,
    InvalidTokenAccount,
    InsufficientFunds,
    PoolNotFound,
    InvalidPool,
    MathOverflow,
    NoRewardsAvailable,
    InvalidParameter,
    EmergencyPaused,
    InvalidReferrer,
    DistributionTooSoon,
}

impl MultiHubSwapError {
    /// The number under which the host reports the error: the place of the
    /// variant in the order above, counted from 0.
    pub open spec fn code_of(self) -> u32 {
        match self {
            MultiHubSwapError::InvalidInstruction => 0,
            MultiHubSwapError::NotInitialized => 1,
            MultiHubSwapError::AlreadyInitialized => 2,
            MultiHubSwapError::InvalidAuthority => 3,
            MultiHubSwapError::SlippageExceeded => 4,
            MultiHubSwapError::InvalidTokenAccount => 5,
            MultiHubSwapError::InsufficientFunds => 6,
            MultiHubSwapError::PoolNotFound => 7,
            MultiHubSwapError::InvalidPool => 8,
            MultiHubSwapError::MathOverflow => 9,
            MultiHubSwapError::NoRewardsAvailable => 10,
            MultiHubSwapError::InvalidParameter => 11,
            MultiHubSwapError::EmergencyPaused => 12,
            MultiHubSwapError::InvalidReferrer => 13,
            MultiHubSwapError::DistributionTooSoon => 14,
        }
    }

    /// The number under which the host reports the error.
    pub fn code(&self) -> (r: u32)
        ensures
            r == self.code_of(),
            r <= 14,
    {
        match self {
            MultiHubSwapError::InvalidInstruction => 0,
            MultiHubSwapError::NotInitialized => 1,
            MultiHubSwapError::AlreadyInitialized => 2,
            MultiHubSwapError::InvalidAuthority => 3,
            MultiHubSwapError::SlippageExceeded => 4,
            MultiHubSwapError::InvalidTokenAccount => 5,
            MultiHubSwapError::InsufficientFunds => 6,
            MultiHubSwapError::PoolNotFound => 7,
            MultiHubSwapError::InvalidPool => 8,
            MultiHubSwapError::MathOverflow => 9,
            MultiHubSwapError::NoRewardsAvailable => 10,
            MultiHubSwapError::InvalidParameter => 11,
            MultiHubSwapError::EmergencyPaused => 12,
            MultiHubSwapError::InvalidReferrer => 13,
            MultiHubSwapError::DistributionTooSoon => 14,
        }
    }
}

/// Distinct errors have distinct codes.
pub proof fn lemma_codes_distinct(a: MultiHubSwapError, b: MultiHubSwapError)
    ensures
        a.code_of() == b.code_of() <==> a == b,
{
}

/// Why a swap request was refused.
#[derive(Clone, Copy, Debug, PartialEq, Eq, Structural)]
pub enum SwapError {
    /// The account list or one of its entries is not what the request needs.
    InvalidArgument,
    /// The request bytes are no request.
    InvalidInstructionData,
    /// An account holds bytes that cannot be read.
    InvalidAccountData,
    /// The caller did not sign the request.
    MissingRequiredSignature,
    /// An account that must exist holds nothing.
    UninitializedAccount,
    /// The token program account does not name the token program.
    IncorrectProgramId,
    /// An account belongs to someone else.
    IllegalOwner,
    /// The input balance is under the amount to swap.
    InsufficientFunds,
    /// A share of the amount does not fit 64 bits.
    ArithmeticOverflow,
    /// The account list is too short.
    NotEnoughAccountKeys,
    /// The configuration is live already.
    AccountAlreadyInitialized,
    /// A refusal of the swap feature's own.
    Custom(MultiHubSwapError),
}

} // verus!
