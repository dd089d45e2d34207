use crate::account::AccountEntry;
use crate::address::{lemma_address_ext, Address};
use crate::authority::{
    check_derivation, derivation_matches, derived_bump, derived_view, find_program_state_address,
    program_address, PROGRAM_STATE_SEED,
};
use crate::codec::{
    address_at, amount_at, amount_bytes, lemma_amount_bytes, lemma_rate_bytes, rate_at, rate_bytes,
    read_address, read_amount, read_rate, write_address, write_amount, write_rate,
};
use crate::error::{MultiHubSwapError, SwapError};
use crate::state::flag_byte;
use crate::token::{
    balance_amount, balance_mint, balance_owner, is_token_program, read_token_account, token_account_at, token_account_view,
    token_program_matches, TokenAccount,
};
use vstd::prelude::*;

verus! {

/// Length in bytes of the stored swap configuration.
pub const SWAP_STATE_LEN: usize = 138;

/// Divisor of a rate in basis points.
pub const BPS_SCALE: u64 = 10_000;

/// Swap fee that a new configuration starts with, in basis points.
pub const DEFAULT_SWAP_FEE_BPS: u16 = 30;

/// Administrator's fee that a new configuration starts with, in basis points.
pub const DEFAULT_ADMIN_FEE_BPS: u16 = 10;

/// Reward-token cashback that a new configuration starts with, in basis points.
pub const DEFAULT_YOS_CASHBACK_BPS: u16 = 300;

/// Liquidity contribution that a new configuration starts with, in basis points.
pub const DEFAULT_LIQUIDITY_CONTRIBUTION_BPS: u16 = 2000;

/// The configuration of the swap feature.
#[derive(Clone, Copy, Debug, PartialEq, Eq)]
pub struct ProgramState {
    pub is_initialized: bool,
    pub yot_mint: Address,
    pub yos_mint: Address,
    pub sol_yot_pool: Address,
    pub admin: Address,
    pub swap_fee_bps: u16,
    pub admin_fee_bps: u16,
    pub yos_cashback_bps: u16,
    pub liquidity_contribution_bps: u16,
    pub authority_bump: u8,
}

/// A swap request as its strict wire form carries it: a tag byte, then the
/// fields, integers little-endian, and nothing after them.
#[derive(Clone, Copy, Debug, PartialEq, Eq, Structural)]
pub enum MultiHubSwapInstruction {
    /// Tag 0: create the swap configuration.
    Initialize { authority_bump: u8 },
    /// Tag 1: swap `amount_in` for at least `minimum_amount_out`.
    SwapToken { amount_in: u64, minimum_amount_out: u64 },
}

/// A swap request as the lenient reader takes it: a tag byte, then the fields,
/// integers little-endian; bytes after the fields are ignored.
#[derive(Clone, Copy, Debug, PartialEq, Eq, Structural)]
pub enum SwapInstruction {
    /// Tag 0: create the swap configuration.
    Initialize { authority_bump: u8 },
    /// Tag 1: swap `amount_in` for at least `minimum_amount_out`.
    SwapToken { amount_in: u64, minimum_amount_out: u64 },
}

/// The two amounts of a swap, without a tag.
#[derive(Clone, Copy, Debug, PartialEq, Eq, Structural)]
pub struct SwapTokenInstruction {
    pub amount_in: u64,
    pub minimum_amount_out: u64,
}

/// The amounts that a swap moves.
#[derive(Clone, Copy, Debug, PartialEq, Eq, Structural)]
pub struct SwapQuote {
    /// What the user pays in.
    pub amount_in: u64,
    /// What the user gets out, at one for one.
    pub amount_out: u64,
    /// The share of the input that goes to the liquidity pool.
    pub liquidity_amount: u64,
    /// The reward-token cashback on the input.
    pub cashback_amount: u64,
}

/// An accepted swap: its amounts, and which side is the stake token.
#[derive(Clone, Copy, Debug, PartialEq, Eq, Structural)]
pub struct SwapPlan {
    pub quote: SwapQuote,
    pub is_input_yot: bool,
    pub is_output_yot: bool,
}

/// An accepted creation of the swap configuration: the record to persist, the
/// bump of its address, and whether its account is still to be created.
#[derive(Clone, Copy, Debug, PartialEq, Eq)]
pub struct SwapInitialization {
    pub state: ProgramState,
    pub state_bump: u8,
    pub create_account: bool,
}

/// What an accepted swap request asks the host to do.
#[derive(Clone, Copy, Debug, PartialEq, Eq)]
pub enum SwapProcessed {
    Initialized(SwapInitialization),
    Swapped(SwapPlan),
}

impl ProgramState {
    /// The stored form: the live flag as one byte, stake mint, reward mint,
    /// liquidity pool, administrator, the four rates as two bytes each,
    /// little-endian, and the authority bump.
    pub open spec fn encoding(self) -> Seq<u8> {
        seq![flag_byte(self.is_initialized)] + self.yot_mint@ + self.yos_mint@
            + self.sol_yot_pool@ + self.admin@ + rate_bytes(self.swap_fee_bps) + rate_bytes(
            self.admin_fee_bps,
        ) + rate_bytes(self.yos_cashback_bps) + rate_bytes(self.liquidity_contribution_bps)
            + seq![self.authority_bump]
    }

    /// The configuration whose stored form is `data`, if there is one.
    pub open spec fn decoded(data: Seq<u8>) -> Option<ProgramState> {
        if exists|s: ProgramState| #[trigger] s.encoding() == data {
            Some(choose|s: ProgramState| #[trigger] s.encoding() == data)
        } else {
            None
        }
    }

    /// Whether `data` has the length of a configuration and a flag byte of 0 or 1.
    pub open spec fn well_formed(data: Seq<u8>) -> bool {
        data.len() == SWAP_STATE_LEN && data[0] <= 1
    }

    /// Writes the stored form of the configuration.
    pub fn to_bytes(&self) -> (out: Vec<u8>)
        ensures
            out@ == self.encoding(),
            out@.len() == SWAP_STATE_LEN,
    {
        let mut out: Vec<u8> = Vec::new();
        out.push(if self.is_initialized { 1u8 } else { 0u8 });
        write_address(&mut out, &self.yot_mint);
        write_address(&mut out, &self.yos_mint);
        write_address(&mut out, &self.sol_yot_pool);
        write_address(&mut out, &self.admin);
        write_rate(&mut out, self.swap_fee_bps);
        write_rate(&mut out, self.admin_fee_bps);
        write_rate(&mut out, self.yos_cashback_bps);
        write_rate(&mut out, self.liquidity_contribution_bps);
        out.push(self.authority_bump);
        assert(out@ =~= self.encoding());
        out
    }

    /// Reads a configuration from its stored form; succeeds on exactly
    /// `SWAP_STATE_LEN` bytes that start with 0 or 1.
    pub fn from_bytes(data: &[u8]) -> (r: Option<ProgramState>)
        ensures
            r == ProgramState::decoded(data@),
            r is Some <==> ProgramState::well_formed(data@),
    {
        if data.len() != SWAP_STATE_LEN || data[0] > 1 {
            proof {
                assert forall|s: ProgramState| #[trigger] s.encoding() != data@ by {
                    lemma_swap_state_fields(s);
                }
            }
            return None;
        }
        let state = ProgramState {
            is_initialized: data[0] == 1,
            yot_mint: read_address(data, 1),
            yos_mint: read_address(data, 33),
            sol_yot_pool: read_address(data, 65),
            admin: read_address(data, 97),
            swap_fee_bps: read_rate(data, 129),
            admin_fee_bps: read_rate(data, 131),
            yos_cashback_bps: read_rate(data, 133),
            liquidity_contribution_bps: read_rate(data, 135),
            authority_bump: data[137],
        };
        proof {
            lemma_rate_bytes(0, data@.subrange(129, 131));
            lemma_rate_bytes(0, data@.subrange(131, 133));
            lemma_rate_bytes(0, data@.subrange(133, 135));
            lemma_rate_bytes(0, data@.subrange(135, 137));
            assert(state.encoding() =~= data@);
            let chosen = choose|s: ProgramState| #[trigger] s.encoding() == data@;
            lemma_swap_state_injective(chosen, state);
        }
        Some(state)
    }
}

/// The fields of a swap configuration can be read back from fixed places in
/// its stored form.
pub proof fn lemma_swap_state_fields(s: ProgramState)
    ensures
        s.encoding().len() == SWAP_STATE_LEN,
        s.encoding()[0] == flag_byte(s.is_initialized),
        address_at(s.encoding(), 1) == s.yot_mint@,
        address_at(s.encoding(), 33) == s.yos_mint@,
        address_at(s.encoding(), 65) == s.sol_yot_pool@,
        address_at(s.encoding(), 97) == s.admin@,
        rate_at(s.encoding(), 129) == s.swap_fee_bps,
        rate_at(s.encoding(), 131) == s.admin_fee_bps,
        rate_at(s.encoding(), 133) == s.yos_cashback_bps,
        rate_at(s.encoding(), 135) == s.liquidity_contribution_bps,
        s.encoding()[137] == s.authority_bump,
{
    let e = s.encoding();
    lemma_address_ext(s.yot_mint, s.yos_mint);
    lemma_address_ext(s.sol_yot_pool, s.admin);
    lemma_address_ext(s.yos_mint, s.yot_mint);
    lemma_address_ext(s.admin, s.sol_yot_pool);
    lemma_rate_bytes(s.swap_fee_bps, seq![]);
    lemma_rate_bytes(s.admin_fee_bps, seq![]);
    lemma_rate_bytes(s.yos_cashback_bps, seq![]);
    lemma_rate_bytes(s.liquidity_contribution_bps, seq![]);
    assert(e.subrange(1, 33) =~= s.yot_mint@);
    assert(e.subrange(33, 65) =~= s.yos_mint@);
    assert(e.subrange(65, 97) =~= s.sol_yot_pool@);
    assert(e.subrange(97, 129) =~= s.admin@);
    assert(e.subrange(129, 131) =~= rate_bytes(s.swap_fee_bps));
    assert(e.subrange(131, 133) =~= rate_bytes(s.admin_fee_bps));
    assert(e.subrange(133, 135) =~= rate_bytes(s.yos_cashback_bps));
    assert(e.subrange(135, 137) =~= rate_bytes(s.liquidity_contribution_bps));
}

/// Two swap configurations with the same stored form are the same.
pub proof fn lemma_swap_state_injective(a: ProgramState, b: ProgramState)
    requires
        a.encoding() == b.encoding(),
    ensures
        a == b,
{
    lemma_swap_state_fields(a);
    lemma_swap_state_fields(b);
    lemma_address_ext(a.yot_mint, b.yot_mint);
    lemma_address_ext(a.yos_mint, b.yos_mint);
    lemma_address_ext(a.sol_yot_pool, b.sol_yot_pool);
    lemma_address_ext(a.admin, b.admin);
}

/// A swap configuration that is written and read back is unchanged.
pub proof fn lemma_swap_state_roundtrip(s: ProgramState)
    ensures
        ProgramState::decoded(s.encoding()) == Some(s),
{
    let chosen = choose|x: ProgramState| #[trigger] x.encoding() == s.encoding();
    lemma_swap_state_injective(chosen, s);
}

impl MultiHubSwapInstruction {
    /// The strict wire form of the request.
    pub open spec fn encoding(self) -> Seq<u8> {
        match self {
            MultiHubSwapInstruction::Initialize { authority_bump } => seq![0u8, authority_bump],
            MultiHubSwapInstruction::SwapToken { amount_in, minimum_amount_out } => seq![1u8]
                + amount_bytes(amount_in) + amount_bytes(minimum_amount_out),
        }
    }

    /// The request that `data` is the strict wire form of, if there is one.
    pub open spec fn decoded(data: Seq<u8>) -> Option<MultiHubSwapInstruction> {
        if data.len() == 2 && data[0] == 0 {
            Some(MultiHubSwapInstruction::Initialize { authority_bump: data[1] })
        } else if data.len() == 17 && data[0] == 1 {
            Some(
                MultiHubSwapInstruction::SwapToken {
                    amount_in: amount_at(data, 1),
                    minimum_amount_out: amount_at(data, 9),
                },
            )
        } else {
            None
        }
    }

    /// Writes the strict wire form of the request.
    pub fn to_bytes(&self) -> (out: Vec<u8>)
        ensures
            out@ == self.encoding(),
    {
        let mut out: Vec<u8> = Vec::new();
        match self {
            MultiHubSwapInstruction::Initialize { authority_bump } => {
                out.push(0u8);
                out.push(*authority_bump);
            },
            MultiHubSwapInstruction::SwapToken { amount_in, minimum_amount_out } => {
                out.push(1u8);
                write_amount(&mut out, *amount_in);
                write_amount(&mut out, *minimum_amount_out);
            },
        }
        assert(out@ =~= self.encoding());
        out
    }

    /// Reads a request from its strict wire form.
    pub fn from_bytes(data: &[u8]) -> (r: Option<MultiHubSwapInstruction>)
        ensures
            r == MultiHubSwapInstruction::decoded(data@),
    {
        if data.len() == 2 && data[0] == 0 {
            Some(MultiHubSwapInstruction::Initialize { authority_bump: data[1] })
        } else if data.len() == 17 && data[0] == 1 {
            Some(
                MultiHubSwapInstruction::SwapToken {
                    amount_in: read_amount(data, 1),
                    minimum_amount_out: read_amount(data, 9),
                },
            )
        } else {
            None
        }
    }
}

/// A swap request that is written in its strict form and read back is
/// unchanged, and whatever reads as a request is the strict form of it.
pub proof fn lemma_swap_instruction_roundtrip(i: MultiHubSwapInstruction, data: Seq<u8>)
    ensures
        MultiHubSwapInstruction::decoded(i.encoding()) == Some(i),
        MultiHubSwapInstruction::decoded(data) matches Some(j) ==> j.encoding() == data,
{
    let e = i.encoding();
    match i {
        MultiHubSwapInstruction::Initialize { .. } => {},
        MultiHubSwapInstruction::SwapToken { amount_in, minimum_amount_out } => {
            lemma_amount_bytes(amount_in, seq![]);
            lemma_amount_bytes(minimum_amount_out, seq![]);
            assert(e.subrange(1, 9) =~= amount_bytes(amount_in));
            assert(e.subrange(9, 17) =~= amount_bytes(minimum_amount_out));
        },
    }
    match MultiHubSwapInstruction::decoded(data) {
        Some(j) => {
            lemma_amount_bytes(0, data.subrange(1, 9));
            lemma_amount_bytes(0, data.subrange(9, 17));
            assert(j.encoding() =~= data);
        },
        None => {},
    }
}

impl SwapTokenInstruction {
    /// The wire form: the amount in, then the least amount out.
    pub open spec fn encoding(self) -> Seq<u8> {
        amount_bytes(self.amount_in) + amount_bytes(self.minimum_amount_out)
    }

    /// The amounts that `data` is the wire form of, if it has sixteen bytes.
    pub open spec fn decoded(data: Seq<u8>) -> Option<SwapTokenInstruction> {
        if data.len() == 16 {
            Some(
                SwapTokenInstruction {
                    amount_in: amount_at(data, 0),
                    minimum_amount_out: amount_at(data, 8),
                },
            )
        } else {
            None
        }
    }

    /// Writes the wire form.
    pub fn to_bytes(&self) -> (out: Vec<u8>)
        ensures
            out@ == self.encoding(),
    {
        let mut out: Vec<u8> = Vec::new();
        write_amount(&mut out, self.amount_in);
        write_amount(&mut out, self.minimum_amount_out);
        assert(out@ =~= self.encoding());
        out
    }

    /// Reads the two amounts from exactly sixteen bytes.
    pub fn from_bytes(data: &[u8]) -> (r: Option<SwapTokenInstruction>)
        ensures
            r == SwapTokenInstruction::decoded(data@),
    {
        if data.len() == 16 {
            Some(
                SwapTokenInstruction {
                    amount_in: read_amount(data, 0),
                    minimum_amount_out: read_amount(data, 8),
                },
            )
        } else {
            None
        }
    }
}

/// The two amounts survive being written and read back.
pub proof fn lemma_swap_amounts_roundtrip(i: SwapTokenInstruction)
    ensures
        SwapTokenInstruction::decoded(i.encoding()) == Some(i),
{
    let e = i.encoding();
    lemma_amount_bytes(i.amount_in, seq![]);
    lemma_amount_bytes(i.minimum_amount_out, seq![]);
    assert(e.subrange(0, 8) =~= amount_bytes(i.amount_in));
    assert(e.subrange(8, 16) =~= amount_bytes(i.minimum_amount_out));
}

impl SwapInstruction {
    /// What the lenient reader makes of `data`: the tag decides the kind, the
    /// fields must be there, and what follows them is not looked at.
    pub open spec fn unpacked(data: Seq<u8>) -> Result<SwapInstruction, SwapError> {
        if data.len() == 0 {
            Err(SwapError::InvalidInstructionData)
        } else if data[0] == 0 {
            if data.len() < 2 {
                Err(SwapError::InvalidInstructionData)
            } else {
                Ok(SwapInstruction::Initialize { authority_bump: data[1] })
            }
        } else if data[0] == 1 {
            if data.len() < 17 {
                Err(SwapError::InvalidInstructionData)
            } else {
                Ok(
                    SwapInstruction::SwapToken {
                        amount_in: amount_at(data, 1),
                        minimum_amount_out: amount_at(data, 9),
                    },
                )
            }
        } else {
            Err(SwapError::InvalidInstructionData)
        }
    }

    /// Reads a request leniently.
    pub fn unpack(data: &[u8]) -> (r: Result<SwapInstruction, SwapError>)
        ensures
            r == SwapInstruction::unpacked(data@),
    {
        if data.len() == 0 {
            return Err(SwapError::InvalidInstructionData);
        }
        let tag = data[0];
        if tag == 0 {
            if data.len() < 2 {
                return Err(SwapError::InvalidInstructionData);
            }
            Ok(SwapInstruction::Initialize { authority_bump: data[1] })
        } else if tag == 1 {
            if data.len() < 17 {
                return Err(SwapError::InvalidInstructionData);
            }
            Ok(
                SwapInstruction::SwapToken {
                    amount_in: read_amount(data, 1),
                    minimum_amount_out: read_amount(data, 9),
                },
            )
        } else {
            Err(SwapError::InvalidInstructionData)
        }
    }
}

/// The share of `amount` at `bps` basis points, rounded down; an overflow
/// where the product leaves 64 bits.
pub open spec fn bps_share(amount: u64, bps: u16) -> Result<u64, SwapError> {
    if amount * bps > u64::MAX {
        Err(SwapError::ArithmeticOverflow)
    } else {
        Ok((amount * bps / 10_000) as u64)
    }
}

/// What `quote_swap` returns: the amounts at one for one, the liquidity share
/// and the cashback; slippage where the output is under the least asked for.
pub open spec fn swap_quote_result(
    amount_in: u64,
    minimum_amount_out: u64,
    liquidity_contribution_bps: u16,
    yos_cashback_bps: u16,
) -> Result<SwapQuote, SwapError> {
    if amount_in < minimum_amount_out {
        Err(SwapError::Custom(MultiHubSwapError::SlippageExceeded))
    } else {
        match bps_share(amount_in, liquidity_contribution_bps) {
            Err(e) => Err(e),
            Ok(liquidity_amount) => match bps_share(amount_in, yos_cashback_bps) {
                Err(e) => Err(e),
                Ok(cashback_amount) => Ok(
                    SwapQuote {
                        amount_in,
                        amount_out: amount_in,
                        liquidity_amount,
                        cashback_amount,
                    },
                ),
            },
        }
    }
}

/// Computes the share of `amount` at `bps` basis points.
pub fn share_of(amount: u64, bps: u16) -> (r: Result<u64, SwapError>)
    ensures
        r == bps_share(amount, bps),
        r matches Ok(share) ==> share <= amount * bps,
{
    match amount.checked_mul(bps as u64) {
        None => Err(SwapError::ArithmeticOverflow),
        Some(product) => Ok(product / BPS_SCALE),
    }
}

/// Computes the amounts that a swap of `amount_in` moves.
pub fn quote_swap(
    amount_in: u64,
    minimum_amount_out: u64,
    liquidity_contribution_bps: u16,
    yos_cashback_bps: u16,
) -> (r: Result<SwapQuote, SwapError>)
    ensures
        r == swap_quote_result(
            amount_in,
            minimum_amount_out,
            liquidity_contribution_bps,
            yos_cashback_bps,
        ),
{
    if amount_in < minimum_amount_out {
        return Err(SwapError::Custom(MultiHubSwapError::SlippageExceeded));
    }
    let liquidity_amount = match share_of(amount_in, liquidity_contribution_bps) {
        Ok(share) => share,
        Err(e) => { return Err(e); },
    };
    let cashback_amount = match share_of(amount_in, yos_cashback_bps) {
        Ok(share) => share,
        Err(e) => { return Err(e); },
    };
    Ok(SwapQuote { amount_in, amount_out: amount_in, liquidity_amount, cashback_amount })
}

/// What is asked of a token balance that takes part in a swap: that the token
/// program reads it, that it is held in `mint` and that `user` owns it, in
/// this order.
pub open spec fn balance_refusal(
    balance: Option<(Seq<u8>, Seq<u8>, u64)>,
    mint: Seq<u8>,
    user: Seq<u8>,
) -> Option<SwapError> {
    match balance {
        None => Some(SwapError::InvalidAccountData),
        Some((held_in, owner, _)) => if held_in != mint {
            Some(SwapError::InvalidArgument)
        } else if owner != user {
            Some(SwapError::IllegalOwner)
        } else {
            None
        },
    }
}

/// What a swap request comes to. The accounts are, in order: the user, the
/// user's input balance, the user's output balance, the user's reward-token
/// balance, the swap configuration, the token program, the input mint, the
/// output mint. Checked in this order: eight accounts; the user's signature; a
/// reward-token balance that is not empty; the token program; the program
/// owning the configuration; the input balance, its mint, its owner and its
/// funding; the output balance, its mint and its owner; the reward-token
/// balance and its owner; the configuration, live; the mint of the
/// reward-token balance; then the rules of `swap_quote_result`.
pub open spec fn process_swap_token_result(
    program_id: Address,
    accounts: Seq<AccountEntry>,
    token_program_ok: bool,
    input: Option<(Seq<u8>, Seq<u8>, u64)>,
    output: Option<(Seq<u8>, Seq<u8>, u64)>,
    cashback: Option<(Seq<u8>, Seq<u8>, u64)>,
    amount_in: u64,
    minimum_amount_out: u64,
) -> Result<SwapPlan, SwapError> {
    if accounts.len() != 8 {
        Err(SwapError::InvalidArgument)
    } else if !accounts[0].is_signer {
        Err(SwapError::MissingRequiredSignature)
    } else if accounts[3].data@.len() == 0 {
        Err(SwapError::UninitializedAccount)
    } else if !token_program_ok {
        Err(SwapError::IncorrectProgramId)
    } else if accounts[4].owner@ != program_id@ {
        Err(SwapError::IllegalOwner)
    } else if balance_refusal(input, accounts[6].key@, accounts[0].key@) is Some {
        Err(balance_refusal(input, accounts[6].key@, accounts[0].key@)->0)
    } else if balance_amount(input) < amount_in {
        Err(SwapError::InsufficientFunds)
    } else if balance_refusal(output, accounts[7].key@, accounts[0].key@) is Some {
        Err(balance_refusal(output, accounts[7].key@, accounts[0].key@)->0)
    } else if cashback is None {
        Err(SwapError::InvalidAccountData)
    } else if balance_owner(cashback) != accounts[0].key@ {
        Err(SwapError::IllegalOwner)
    } else {
        match ProgramState::decoded(accounts[4].data@) {
            None => Err(SwapError::InvalidAccountData),
            Some(state) => if !state.is_initialized {
                Err(SwapError::Custom(MultiHubSwapError::NotInitialized))
            } else if balance_mint(cashback) != state.yos_mint@ {
                Err(SwapError::InvalidArgument)
            } else {
                match swap_quote_result(
                    amount_in,
                    minimum_amount_out,
                    state.liquidity_contribution_bps,
                    state.yos_cashback_bps,
                ) {
                    Err(e) => Err(e),
                    Ok(quote) => Ok(
                        SwapPlan {
                            quote,
                            is_input_yot: accounts[6].key@ == state.yot_mint@,
                            is_output_yot: accounts[7].key@ == state.yot_mint@,
                        },
                    ),
                }
            },
        }
    }
}

/// Checks a token balance that takes part in a swap.
pub fn check_balance(balance: &Option<TokenAccount>, mint: &Address, user: &Address) -> (r: Option<
    SwapError,
>)
    ensures
        r == balance_refusal(token_account_view(*balance), mint@, user@),
{
    match balance {
        None => Some(SwapError::InvalidAccountData),
        Some(account) => if !account.mint.same(mint) {
            Some(SwapError::InvalidArgument)
        } else if !account.owner.same(user) {
            Some(SwapError::IllegalOwner)
        } else {
            None
        },
    }
}

/// Decides a swap request, given whether the token program account names the
/// token program and the three balances as they were read.
pub fn settle_swap_token(
    program_id: &Address,
    accounts: &[AccountEntry],
    token_program_ok: bool,
    input: Option<TokenAccount>,
    output: Option<TokenAccount>,
    cashback: Option<TokenAccount>,
    amount_in: u64,
    minimum_amount_out: u64,
) -> (r: Result<SwapPlan, SwapError>)
    ensures
        r == process_swap_token_result(
            *program_id,
            accounts@,
            token_program_ok,
            token_account_view(input),
            token_account_view(output),
            token_account_view(cashback),
            amount_in,
            minimum_amount_out,
        ),
{
    if accounts.len() != 8 {
        return Err(SwapError::InvalidArgument);
    }
    let user = accounts[0].key;
    if !accounts[0].is_signer {
        return Err(SwapError::MissingRequiredSignature);
    }
    if accounts[3].data.len() == 0 {
        return Err(SwapError::UninitializedAccount);
    }
    if !token_program_ok {
        return Err(SwapError::IncorrectProgramId);
    }
    if !accounts[4].owner.same(program_id) {
        return Err(SwapError::IllegalOwner);
    }
    if let Some(e) = check_balance(&input, &accounts[6].key, &user) {
        return Err(e);
    }
    let funded = match input {
        Some(account) => account.amount >= amount_in,
        None => false,
    };
    if !funded {
        return Err(SwapError::InsufficientFunds);
    }
    if let Some(e) = check_balance(&output, &accounts[7].key, &user) {
        return Err(e);
    }
    let cashback_account = match cashback {
        Some(account) => account,
        None => { return Err(SwapError::InvalidAccountData); },
    };
    if !cashback_account.owner.same(&user) {
        return Err(SwapError::IllegalOwner);
    }
    let state = match ProgramState::from_bytes(accounts[4].data.as_slice()) {
        Some(state) => state,
        None => { return Err(SwapError::InvalidAccountData); },
    };
    if !state.is_initialized {
        return Err(SwapError::Custom(MultiHubSwapError::NotInitialized));
    }
    if !cashback_account.mint.same(&state.yos_mint) {
        return Err(SwapError::InvalidArgument);
    }
    match quote_swap(
        amount_in,
        minimum_amount_out,
        state.liquidity_contribution_bps,
        state.yos_cashback_bps,
    ) {
        Err(e) => Err(e),
        Ok(quote) => Ok(
            SwapPlan {
                quote,
                is_input_yot: accounts[6].key.same(&state.yot_mint),
                is_output_yot: accounts[7].key.same(&state.yot_mint),
            },
        ),
    }
}

/// Whether the sixth account of a swap request names the token program.
pub open spec fn token_program_at(accounts: Seq<AccountEntry>) -> bool {
    accounts.len() > 5 && is_token_program(accounts[5].key@)
}

/// Handles a swap request: asks the token program's library about the token
/// program account and the three balances, then decides as `settle_swap_token` does.
pub fn process_swap_token(
    program_id: &Address,
    accounts: &[AccountEntry],
    amount_in: u64,
    minimum_amount_out: u64,
) -> (r: Result<SwapPlan, SwapError>)
    ensures
        r == process_swap_token_result(
            *program_id,
            accounts@,
            token_program_at(accounts@),
            token_account_at(accounts@, 1),
            token_account_at(accounts@, 2),
            token_account_at(accounts@, 3),
            amount_in,
            minimum_amount_out,
        ),
{
    let token_program_ok = accounts.len() > 5 && token_program_matches(&accounts[5].key);
    settle_swap_token(
        program_id,
        accounts,
        token_program_ok,
        read_token_account(accounts, 1),
        read_token_account(accounts, 2),
        read_token_account(accounts, 3),
        amount_in,
        minimum_amount_out,
    )
}

/// Whether the configuration account holds a live configuration already.
pub open spec fn swap_is_live(data: Seq<u8>) -> bool {
    ProgramState::decoded(data) matches Some(state) && state.is_initialized
}

/// What a request to create the swap configuration comes to. The accounts
/// are, in order: the administrator, the configuration, the stake mint, the
/// reward mint, the liquidity pool, the system program, the rent record.
/// Checked in this order: seven accounts, the administrator's signature, the
/// configuration address, no live configuration.
pub open spec fn process_swap_initialize_result(
    accounts: Seq<AccountEntry>,
    state_address: Option<(Seq<u8>, u8)>,
    authority_bump: u8,
) -> Result<SwapInitialization, SwapError> {
    if accounts.len() < 7 {
        Err(SwapError::NotEnoughAccountKeys)
    } else if !accounts[0].is_signer {
        Err(SwapError::MissingRequiredSignature)
    } else if !derivation_matches(state_address, accounts[1].key@) {
        Err(SwapError::InvalidArgument)
    } else if swap_is_live(accounts[1].data@) {
        Err(SwapError::Custom(MultiHubSwapError::AlreadyInitialized))
    } else {
        Ok(
            SwapInitialization {
                state: ProgramState {
                    is_initialized: true,
                    yot_mint: accounts[2].key,
                    yos_mint: accounts[3].key,
                    sol_yot_pool: accounts[4].key,
                    admin: accounts[0].key,
                    swap_fee_bps: DEFAULT_SWAP_FEE_BPS,
                    admin_fee_bps: DEFAULT_ADMIN_FEE_BPS,
                    yos_cashback_bps: DEFAULT_YOS_CASHBACK_BPS,
                    liquidity_contribution_bps: DEFAULT_LIQUIDITY_CONTRIBUTION_BPS,
                    authority_bump,
                },
                state_bump: derived_bump(state_address),
                create_account: accounts[1].data@.len() == 0,
            },
        )
    }
}

/// Decides a request to create the swap configuration, given the
/// configuration address that was derived.
pub fn settle_swap_initialize(
    accounts: &[AccountEntry],
    state_address: Option<(Address, u8)>,
    authority_bump: u8,
) -> (r: Result<SwapInitialization, SwapError>)
    ensures
        r == process_swap_initialize_result(accounts@, derived_view(state_address), authority_bump),
{
    if accounts.len() < 7 {
        return Err(SwapError::NotEnoughAccountKeys);
    }
    if !accounts[0].is_signer {
        return Err(SwapError::MissingRequiredSignature);
    }
    let state_bump = match check_derivation(state_address, &accounts[1].key) {
        Ok(found) => found.bump,
        Err(_) => { return Err(SwapError::InvalidArgument); },
    };
    let live = match ProgramState::from_bytes(accounts[1].data.as_slice()) {
        Some(state) => state.is_initialized,
        None => false,
    };
    if live {
        return Err(SwapError::Custom(MultiHubSwapError::AlreadyInitialized));
    }
    Ok(
        SwapInitialization {
            state: ProgramState {
                is_initialized: true,
                yot_mint: accounts[2].key,
                yos_mint: accounts[3].key,
                sol_yot_pool: accounts[4].key,
                admin: accounts[0].key,
                swap_fee_bps: DEFAULT_SWAP_FEE_BPS,
                admin_fee_bps: DEFAULT_ADMIN_FEE_BPS,
                yos_cashback_bps: DEFAULT_YOS_CASHBACK_BPS,
                liquidity_contribution_bps: DEFAULT_LIQUIDITY_CONTRIBUTION_BPS,
                authority_bump,
            },
            state_bump,
            create_account: accounts[1].data.len() == 0,
        },
    )
}

/// Handles a request to create the swap configuration: derives the
/// configuration address again, then decides as `settle_swap_initialize` does.
pub fn process_initialize(program_id: &Address, accounts: &[AccountEntry], authority_bump: u8) -> (r:
    Result<SwapInitialization, SwapError>)
    ensures
        r == process_swap_initialize_result(
            accounts@,
            program_address(PROGRAM_STATE_SEED@, program_id@),
            authority_bump,
        ),
{
    settle_swap_initialize(accounts, find_program_state_address(program_id), authority_bump)
}

/// What a swap request in bytes comes to: what the lenient reader refuses is
/// refused, the rest goes to the handler of its kind.
pub open spec fn process_swap_instruction_result(
    program_id: Address,
    accounts: Seq<AccountEntry>,
    instruction: Result<SwapInstruction, SwapError>,
    state_address: Option<(Seq<u8>, u8)>,
    token_program_ok: bool,
    input: Option<(Seq<u8>, Seq<u8>, u64)>,
    output: Option<(Seq<u8>, Seq<u8>, u64)>,
    cashback: Option<(Seq<u8>, Seq<u8>, u64)>,
) -> Result<SwapProcessed, SwapError> {
    match instruction {
        Err(e) => Err(e),
        Ok(SwapInstruction::Initialize { authority_bump }) => match process_swap_initialize_result(
            accounts,
            state_address,
            authority_bump,
        ) {
            Ok(done) => Ok(SwapProcessed::Initialized(done)),
            Err(e) => Err(e),
        },
        Ok(
            SwapInstruction::SwapToken { amount_in, minimum_amount_out },
        ) => match process_swap_token_result(
            program_id,
            accounts,
            token_program_ok,
            input,
            output,
            cashback,
            amount_in,
            minimum_amount_out,
        ) {
            Ok(plan) => Ok(SwapProcessed::Swapped(plan)),
            Err(e) => Err(e),
        },
    }
}

/// Reads a swap request leniently from `instruction_data` and hands it to the
/// handler of its kind.
pub fn process_instruction(program_id: &Address, accounts: &[AccountEntry], instruction_data: &[u8]) -> (r:
    Result<SwapProcessed, SwapError>)
    ensures
        r == process_swap_instruction_result(
            *program_id,
            accounts@,
            SwapInstruction::unpacked(instruction_data@),
            program_address(PROGRAM_STATE_SEED@, program_id@),
            token_program_at(accounts@),
            token_account_at(accounts@, 1),
            token_account_at(accounts@, 2),
            token_account_at(accounts@, 3),
        ),
{
    match SwapInstruction::unpack(instruction_data) {
        Err(e) => Err(e),
        Ok(SwapInstruction::Initialize { authority_bump }) => {
            match process_initialize(program_id, accounts, authority_bump) {
                Ok(done) => Ok(SwapProcessed::Initialized(done)),
                Err(e) => Err(e),
            }
        },
        Ok(SwapInstruction::SwapToken { amount_in, minimum_amount_out }) => {
            match process_swap_token(program_id, accounts, amount_in, minimum_amount_out) {
                Ok(plan) => Ok(SwapProcessed::Swapped(plan)),
                Err(e) => Err(e),
            }
        },
    }
}

/// A swap never moves more than it takes in: the output equals the input,
/// which is at least what was asked for, and each share at a rate of at most
/// the whole is at most the input.
pub proof fn lemma_quote_bounds(
    amount_in: u64,
    minimum_amount_out: u64,
    liquidity_contribution_bps: u16,
    yos_cashback_bps: u16,
)
    ensures
        swap_quote_result(
            amount_in,
            minimum_amount_out,
            liquidity_contribution_bps,
            yos_cashback_bps,
        ) matches Ok(quote) ==> quote.amount_in == amount_in && quote.amount_out == amount_in
            && quote.amount_out >= minimum_amount_out && (liquidity_contribution_bps <= 10_000
            ==> quote.liquidity_amount <= amount_in) && (yos_cashback_bps <= 10_000
            ==> quote.cashback_amount <= amount_in),
{
    lemma_share_bound(amount_in, liquidity_contribution_bps);
    lemma_share_bound(amount_in, yos_cashback_bps);
}

/// A share at a rate of at most the whole is at most the amount.
proof fn lemma_share_bound(amount: u64, bps: u16)
    ensures
        bps <= 10_000 ==> amount * bps / 10_000 <= amount,
{
    if bps <= 10_000 {
        assert(amount * bps <= amount * 10_000) by (nonlinear_arith)
            requires
                bps <= 10_000,
                amount >= 0,
        ;
    }
}

} // verus!
