use crate::account::{AccountEntry, MintOrder, TransferOrder};
use crate::address::{lemma_address_ext, Address};
use crate::authority::{
    check_derivation, derivation_matches, derive_address, derived_bump, derived_view,
    find_authority_address, program_address, AUTHORITY_SEED, STATE_SEED,
};
use crate::codec::{
    address_at, amount_at, amount_bytes, lemma_amount_bytes, read_address, read_amount,
    write_address, write_amount,
};
use crate::error::SwapError;
use crate::instruction::{
    lemma_optional_at, lemma_optional_encodes, optional_at, optional_bytes, read_optional,
    write_optional,
};
use crate::state::flag_byte;
use crate::token::{
    balance_mint, balance_owner, read_token_account, token_account_at, token_account_view,
    TokenAccount,
};
use vstd::prelude::*;

verus! {

/// Length in bytes of the stored configuration of the rate-based swap.
pub const RATE_STATE_LEN: usize = 137;

/// The five rates of the rate-based swap, in basis points of the input.
#[derive(Clone, Copy, Debug, PartialEq, Eq, Structural)]
pub struct SwapRates {
    pub lp_contribution_rate: u64,
    pub admin_fee_rate: u64,
    pub yos_cashback_rate: u64,
    pub swap_fee_rate: u64,
    pub referral_rate: u64,
}

/// Rates to replace; `None` leaves one as it is.
#[derive(Clone, Copy, Debug, PartialEq, Eq, Structural)]
pub struct RateUpdate {
    pub lp_contribution_rate: Option<u64>,
    pub admin_fee_rate: Option<u64>,
    pub yos_cashback_rate: Option<u64>,
    pub swap_fee_rate: Option<u64>,
    pub referral_rate: Option<u64>,
}

/// The configuration of the rate-based swap.
#[derive(Clone, Copy, Debug, PartialEq, Eq)]
pub struct ProgramState {
    pub admin: Address,
    pub yot_mint: Address,
    pub yos_mint: Address,
    pub rates: SwapRates,
    pub is_initialized: bool,
}

/// A request to the rate-based swap as it arrives on the wire: one tag byte,
/// then the fields in the order written here, integers little-endian; an
/// optional value is a byte 0, or a byte 1 and the value.
#[derive(Clone, Copy, Debug, PartialEq, Eq)]
pub enum SwapInstruction {
    /// Tag 0: create the configuration.
    Initialize { admin: Address, yot_mint: Address, yos_mint: Address, rates: SwapRates },
    /// Tag 1: swap `amount_in` for at least `min_amount_out`.
    Swap { amount_in: u64, min_amount_out: u64 },
    /// Tag 2: replace the supplied rates.
    UpdateParameters { update: RateUpdate },
    /// Tag 3: hand the administration over.
    SetAdmin { new_admin: Address },
    /// Tag 4: close the configuration.
    CloseProgram,
}

/// The bytes of the five rates.
pub open spec fn rates_bytes(rates: SwapRates) -> Seq<u8> {
    amount_bytes(rates.lp_contribution_rate) + amount_bytes(rates.admin_fee_rate) + amount_bytes(
        rates.yos_cashback_rate,
    ) + amount_bytes(rates.swap_fee_rate) + amount_bytes(rates.referral_rate)
}

/// The five rates stored from `offset` on.
pub open spec fn rates_at(data: Seq<u8>, offset: int) -> SwapRates {
    SwapRates {
        lp_contribution_rate: amount_at(data, offset),
        admin_fee_rate: amount_at(data, offset + 8),
        yos_cashback_rate: amount_at(data, offset + 16),
        swap_fee_rate: amount_at(data, offset + 24),
        referral_rate: amount_at(data, offset + 32),
    }
}

/// The five optional rates that follow the tag byte and fill `data` to its end.
pub open spec fn update_at(data: Seq<u8>) -> Option<RateUpdate> {
    match optional_at(data, 1) {
        None => None,
        Some((a, p1)) => match optional_at(data, p1) {
            None => None,
            Some((b, p2)) => match optional_at(data, p2) {
                None => None,
                Some((c, p3)) => match optional_at(data, p3) {
                    None => None,
                    Some((d, p4)) => match optional_at(data, p4) {
                        None => None,
                        Some((e, p5)) => if p5 == data.len() {
                            Some(
                                RateUpdate {
                                    lp_contribution_rate: a,
                                    admin_fee_rate: b,
                                    yos_cashback_rate: c,
                                    swap_fee_rate: d,
                                    referral_rate: e,
                                },
                            )
                        } else {
                            None
                        },
                    },
                },
            },
        },
    }
}

/// Appends the bytes of the five rates.
pub fn write_rates(out: &mut Vec<u8>, rates: &SwapRates)
    ensures
        final(out)@ == old(out)@ + rates_bytes(*rates),
        final(out)@.len() == old(out)@.len() + 40,
{
    write_amount(out, rates.lp_contribution_rate);
    write_amount(out, rates.admin_fee_rate);
    write_amount(out, rates.yos_cashback_rate);
    write_amount(out, rates.swap_fee_rate);
    write_amount(out, rates.referral_rate);
    assert(out@ =~= old(out)@ + rates_bytes(*rates));
}

/// Reads the five rates stored from `offset` on.
pub fn read_rates(data: &[u8], offset: usize) -> (r: SwapRates)
    requires
        offset + 40 <= data@.len(),
    ensures
        r == rates_at(data@, offset as int),
{
    let len: usize = data.len();
    assert(offset + 40 <= len);
    SwapRates {
        lp_contribution_rate: read_amount(data, offset),
        admin_fee_rate: read_amount(data, offset + 8),
        yos_cashback_rate: read_amount(data, offset + 16),
        swap_fee_rate: read_amount(data, offset + 24),
        referral_rate: read_amount(data, offset + 32),
    }
}

/// Five rates that were written between `prefix` and `suffix` are read back
/// at the end of `prefix`.
pub proof fn lemma_rates_at(prefix: Seq<u8>, rates: SwapRates, suffix: Seq<u8>)
    ensures
        rates_bytes(rates).len() == 40,
        rates_at(prefix + rates_bytes(rates) + suffix, prefix.len() as int) == rates,
{
    let data = prefix + rates_bytes(rates) + suffix;
    let at = prefix.len() as int;
    lemma_amount_bytes(rates.lp_contribution_rate, seq![]);
    lemma_amount_bytes(rates.admin_fee_rate, seq![]);
    lemma_amount_bytes(rates.yos_cashback_rate, seq![]);
    lemma_amount_bytes(rates.swap_fee_rate, seq![]);
    lemma_amount_bytes(rates.referral_rate, seq![]);
    assert(data.subrange(at, at + 8) =~= amount_bytes(rates.lp_contribution_rate));
    assert(data.subrange(at + 8, at + 16) =~= amount_bytes(rates.admin_fee_rate));
    assert(data.subrange(at + 16, at + 24) =~= amount_bytes(rates.yos_cashback_rate));
    assert(data.subrange(at + 24, at + 32) =~= amount_bytes(rates.swap_fee_rate));
    assert(data.subrange(at + 32, at + 40) =~= amount_bytes(rates.referral_rate));
}

/// Forty bytes that were read as five rates are the bytes of those rates.
pub proof fn lemma_rates_encode(data: Seq<u8>, offset: int)
    requires
        0 <= offset,
        offset + 40 <= data.len(),
    ensures
        rates_bytes(rates_at(data, offset)) == data.subrange(offset, offset + 40),
{
    lemma_amount_bytes(0, data.subrange(offset, offset + 8));
    lemma_amount_bytes(0, data.subrange(offset + 8, offset + 16));
    lemma_amount_bytes(0, data.subrange(offset + 16, offset + 24));
    lemma_amount_bytes(0, data.subrange(offset + 24, offset + 32));
    lemma_amount_bytes(0, data.subrange(offset + 32, offset + 40));
    assert(rates_bytes(rates_at(data, offset)) =~= data.subrange(offset, offset + 40));
}

impl ProgramState {
    /// The stored form: administrator, stake mint, reward mint, the five
    /// rates, then the live flag as one byte.
    pub open spec fn encoding(self) -> Seq<u8> {
        self.admin@ + self.yot_mint@ + self.yos_mint@ + rates_bytes(self.rates) + seq![
            flag_byte(self.is_initialized),
        ]
    }

    /// The configuration whose stored form is `data`, if there is one.
    pub open spec fn decoded(data: Seq<u8>) -> Option<ProgramState> {
        if exists|s: ProgramState| #[trigger] s.encoding() == data {
            Some(choose|s: ProgramState| #[trigger] s.encoding() == data)
        } else {
            None
        }
    }

    /// Whether `data` has the length of a configuration and a flag byte of 0 or 1.
    pub open spec fn well_formed(data: Seq<u8>) -> bool {
        data.len() == RATE_STATE_LEN && data[136] <= 1
    }

    /// Writes the stored form of the configuration.
    pub fn to_bytes(&self) -> (out: Vec<u8>)
        ensures
            out@ == self.encoding(),
            out@.len() == RATE_STATE_LEN,
    {
        let mut out: Vec<u8> = Vec::new();
        write_address(&mut out, &self.admin);
        write_address(&mut out, &self.yot_mint);
        write_address(&mut out, &self.yos_mint);
        write_rates(&mut out, &self.rates);
        out.push(if self.is_initialized { 1u8 } else { 0u8 });
        assert(out@ =~= self.encoding());
        out
    }

    /// Reads a configuration from its stored form; succeeds on exactly
    /// `RATE_STATE_LEN` bytes that end with 0 or 1.
    pub fn from_bytes(data: &[u8]) -> (r: Option<ProgramState>)
        ensures
            r == ProgramState::decoded(data@),
            r is Some <==> ProgramState::well_formed(data@),
    {
        if data.len() != RATE_STATE_LEN || data[136] > 1 {
            proof {
                assert forall|s: ProgramState| #[trigger] s.encoding() != data@ by {
                    lemma_rate_state_fields(s);
                }
            }
            return None;
        }
        let state = ProgramState {
            admin: read_address(data, 0),
            yot_mint: read_address(data, 32),
            yos_mint: read_address(data, 64),
            rates: read_rates(data, 96),
            is_initialized: data[136] == 1,
        };
        proof {
            lemma_rates_encode(data@, 96);
            assert(state.encoding() =~= data@);
            let chosen = choose|s: ProgramState| #[trigger] s.encoding() == data@;
            lemma_rate_state_injective(chosen, state);
        }
        Some(state)
    }
}

/// The fields of a configuration can be read back from fixed places in its
/// stored form.
pub proof fn lemma_rate_state_fields(s: ProgramState)
    ensures
        s.encoding().len() == RATE_STATE_LEN,
        address_at(s.encoding(), 0) == s.admin@,
        address_at(s.encoding(), 32) == s.yot_mint@,
        address_at(s.encoding(), 64) == s.yos_mint@,
        rates_at(s.encoding(), 96) == s.rates,
        s.encoding()[136] == flag_byte(s.is_initialized),
{
    let e = s.encoding();
    lemma_address_ext(s.admin, s.yot_mint);
    lemma_address_ext(s.yot_mint, s.yos_mint);
    lemma_address_ext(s.yos_mint, s.admin);
    let prefix = s.admin@ + s.yot_mint@ + s.yos_mint@;
    lemma_rates_at(prefix, s.rates, seq![flag_byte(s.is_initialized)]);
    assert(e =~= prefix + rates_bytes(s.rates) + seq![flag_byte(s.is_initialized)]);
    assert(e.subrange(0, 32) =~= s.admin@);
    assert(e.subrange(32, 64) =~= s.yot_mint@);
    assert(e.subrange(64, 96) =~= s.yos_mint@);
}

/// Two configurations with the same stored form are the same.
pub proof fn lemma_rate_state_injective(a: ProgramState, b: ProgramState)
    requires
        a.encoding() == b.encoding(),
    ensures
        a == b,
{
    lemma_rate_state_fields(a);
    lemma_rate_state_fields(b);
    lemma_address_ext(a.admin, b.admin);
    lemma_address_ext(a.yot_mint, b.yot_mint);
    lemma_address_ext(a.yos_mint, b.yos_mint);
}

/// A configuration that is written and read back is unchanged.
pub proof fn lemma_rate_state_roundtrip(s: ProgramState)
    ensures
        ProgramState::decoded(s.encoding()) == Some(s),
{
    let chosen = choose|x: ProgramState| #[trigger] x.encoding() == s.encoding();
    lemma_rate_state_injective(chosen, s);
}

/// The bytes of five optional rates, after the tag byte of the request that
/// carries them.
pub open spec fn update_bytes(update: RateUpdate) -> Seq<u8> {
    seq![2u8] + optional_bytes(update.lp_contribution_rate) + optional_bytes(
        update.admin_fee_rate,
    ) + optional_bytes(update.yos_cashback_rate) + optional_bytes(update.swap_fee_rate)
        + optional_bytes(update.referral_rate)
}

/// Joining byte sequences does not depend on the grouping, and an empty
/// sequence adds nothing.
proof fn lemma_join(x: Seq<u8>, y: Seq<u8>, z: Seq<u8>)
    ensures
        (x + y) + z == x + (y + z),
        x + Seq::<u8>::empty() == x,
{
    assert((x + y) + z =~= x + (y + z));
    assert(x + Seq::<u8>::empty() =~= x);
}

/// Five optional rates that were written are read back, and fill the bytes to
/// their end.
pub proof fn lemma_update_fields(update: RateUpdate)
    ensures
        update_bytes(update).len() >= 1,
        update_bytes(update)[0] == 2,
        update_at(update_bytes(update)) == Some(update),
{
    let e = update_bytes(update);
    let a = optional_bytes(update.lp_contribution_rate);
    let b = optional_bytes(update.admin_fee_rate);
    let c = optional_bytes(update.yos_cashback_rate);
    let d = optional_bytes(update.swap_fee_rate);
    let f = optional_bytes(update.referral_rate);
    let x0 = seq![2u8];
    let x1 = x0 + a;
    let x2 = x1 + b;
    let x3 = x2 + c;
    let x4 = x3 + d;
    assert(optional_at(e, x0.len() as int) == Some(
        (update.lp_contribution_rate, x1.len() as int),
    )) by {
        lemma_join(x1, b, c);
        lemma_join(x1, b + c, d);
        lemma_join(x1, b + c + d, f);
        lemma_optional_at(x0, update.lp_contribution_rate, b + c + d + f);
    }
    assert(optional_at(e, x1.len() as int) == Some((update.admin_fee_rate, x2.len() as int))) by {
        lemma_join(x2, c, d);
        lemma_join(x2, c + d, f);
        lemma_optional_at(x1, update.admin_fee_rate, c + d + f);
    }
    assert(optional_at(e, x2.len() as int) == Some((update.yos_cashback_rate, x3.len() as int)))
        by {
        lemma_join(x3, d, f);
        lemma_optional_at(x2, update.yos_cashback_rate, d + f);
    }
    assert(optional_at(e, x3.len() as int) == Some((update.swap_fee_rate, x4.len() as int))) by {
        lemma_optional_at(x3, update.swap_fee_rate, f);
    }
    assert(optional_at(e, x4.len() as int) == Some((update.referral_rate, e.len() as int))) by {
        lemma_join(e, f, f);
        lemma_optional_at(x4, update.referral_rate, Seq::<u8>::empty());
    }
    assert(x0.len() == 1);
}

/// Bytes that read as five optional rates after the tag byte are the bytes of
/// those rates.
pub proof fn lemma_update_encodes(data: Seq<u8>, update: RateUpdate)
    requires
        data.len() >= 1,
        data[0] == 2,
        update_at(data) == Some(update),
    ensures
        update_bytes(update) == data,
{
    let (a, p1) = optional_at(data, 1)->0;
    let (b, p2) = optional_at(data, p1)->0;
    let (c, p3) = optional_at(data, p2)->0;
    let (d, p4) = optional_at(data, p3)->0;
    let (f, p5) = optional_at(data, p4)->0;
    lemma_optional_encodes(data, 1, a, p1);
    lemma_optional_encodes(data, p1, b, p2);
    lemma_optional_encodes(data, p2, c, p3);
    lemma_optional_encodes(data, p3, d, p4);
    lemma_optional_encodes(data, p4, f, p5);
    assert(data =~= seq![2u8] + data.subrange(1, p1) + data.subrange(p1, p2) + data.subrange(
        p2,
        p3,
    ) + data.subrange(p3, p4) + data.subrange(p4, p5));
}

impl SwapInstruction {
    /// The wire form of the request.
    pub open spec fn encoding(self) -> Seq<u8> {
        match self {
            SwapInstruction::Initialize { admin, yot_mint, yos_mint, rates } => seq![0u8] + admin@
                + yot_mint@ + yos_mint@ + rates_bytes(rates),
            SwapInstruction::Swap { amount_in, min_amount_out } => seq![1u8] + amount_bytes(
                amount_in,
            ) + amount_bytes(min_amount_out),
            SwapInstruction::UpdateParameters { update } => update_bytes(update),
            SwapInstruction::SetAdmin { new_admin } => seq![3u8] + new_admin@,
            SwapInstruction::CloseProgram => seq![4u8],
        }
    }

    /// The request whose wire form is `data`, if there is one.
    pub open spec fn decoded(data: Seq<u8>) -> Option<SwapInstruction> {
        if exists|i: SwapInstruction| #[trigger] i.encoding() == data {
            Some(choose|i: SwapInstruction| #[trigger] i.encoding() == data)
        } else {
            None
        }
    }

    /// Writes the wire form of the request.
    pub fn to_bytes(&self) -> (out: Vec<u8>)
        ensures
            out@ == self.encoding(),
    {
        let mut out: Vec<u8> = Vec::new();
        match self {
            SwapInstruction::Initialize { admin, yot_mint, yos_mint, rates } => {
                out.push(0u8);
                write_address(&mut out, admin);
                write_address(&mut out, yot_mint);
                write_address(&mut out, yos_mint);
                write_rates(&mut out, rates);
            },
            SwapInstruction::Swap { amount_in, min_amount_out } => {
                out.push(1u8);
                write_amount(&mut out, *amount_in);
                write_amount(&mut out, *min_amount_out);
            },
            SwapInstruction::UpdateParameters { update } => {
                out.push(2u8);
                write_optional(&mut out, update.lp_contribution_rate);
                write_optional(&mut out, update.admin_fee_rate);
                write_optional(&mut out, update.yos_cashback_rate);
                write_optional(&mut out, update.swap_fee_rate);
                write_optional(&mut out, update.referral_rate);
            },
            SwapInstruction::SetAdmin { new_admin } => {
                out.push(3u8);
                write_address(&mut out, new_admin);
            },
            SwapInstruction::CloseProgram => {
                out.push(4u8);
            },
        }
        assert(out@ =~= self.encoding());
        out
    }

    /// Reads a request from its wire form; every byte must belong to it.
    pub fn from_bytes(data: &[u8]) -> (r: Option<SwapInstruction>)
        ensures
            r == SwapInstruction::decoded(data@),
    {
        let parsed = parse_swap_instruction(data);
        proof {
            match parsed {
                Some(instruction) => {
                    let chosen = choose|i: SwapInstruction| #[trigger] i.encoding() == data@;
                    lemma_swap_request_injective(chosen, instruction);
                },
                None => {},
            }
        }
        parsed
    }
}

/// Reads a request from its wire form, or finds that no request has that form.
fn parse_swap_instruction(data: &[u8]) -> (r: Option<SwapInstruction>)
    ensures
        r matches Some(instruction) ==> instruction.encoding() == data@,
        r is None ==> forall|i: SwapInstruction| #[trigger] i.encoding() != data@,
{
    let len: usize = data.len();
    proof {
        assert forall|i: SwapInstruction| i.encoding() == data@ implies (match i {
            SwapInstruction::Initialize { .. } => data@.len() == 137 && data@[0] == 0,
            SwapInstruction::Swap { .. } => data@.len() == 17 && data@[0] == 1,
            SwapInstruction::UpdateParameters { .. } => data@.len() >= 1 && data@[0] == 2
                && update_at(data@) is Some,
            SwapInstruction::SetAdmin { .. } => data@.len() == 33 && data@[0] == 3,
            SwapInstruction::CloseProgram => data@.len() == 1 && data@[0] == 4,
        }) by {
            lemma_swap_request_fields(i);
        }
    }
    if len == 0 {
        return None;
    }
    let tag = data[0];
    if tag == 0 {
        if len != 137 {
            return None;
        }
        let instruction = SwapInstruction::Initialize {
            admin: read_address(data, 1),
            yot_mint: read_address(data, 33),
            yos_mint: read_address(data, 65),
            rates: read_rates(data, 97),
        };
        proof {
            lemma_rates_encode(data@, 97);
            assert(instruction.encoding() =~= data@);
        }
        Some(instruction)
    } else if tag == 1 {
        if len != 17 {
            return None;
        }
        let instruction = SwapInstruction::Swap {
            amount_in: read_amount(data, 1),
            min_amount_out: read_amount(data, 9),
        };
        proof {
            lemma_amount_bytes(0, data@.subrange(1, 9));
            lemma_amount_bytes(0, data@.subrange(9, 17));
            assert(instruction.encoding() =~= data@);
        }
        Some(instruction)
    } else if tag == 2 {
        let (a, p1) = match read_optional(data, 1) {
            Some(found) => found,
            None => { return None; },
        };
        let (b, p2) = match read_optional(data, p1) {
            Some(found) => found,
            None => { return None; },
        };
        let (c, p3) = match read_optional(data, p2) {
            Some(found) => found,
            None => { return None; },
        };
        let (d, p4) = match read_optional(data, p3) {
            Some(found) => found,
            None => { return None; },
        };
        let (e, p5) = match read_optional(data, p4) {
            Some(found) => found,
            None => { return None; },
        };
        if p5 != len {
            return None;
        }
        let instruction = SwapInstruction::UpdateParameters {
            update: RateUpdate {
                lp_contribution_rate: a,
                admin_fee_rate: b,
                yos_cashback_rate: c,
                swap_fee_rate: d,
                referral_rate: e,
            },
        };
        proof {
            lemma_update_encodes(data@, instruction->update);
        }
        Some(instruction)
    } else if tag == 3 {
        if len != 33 {
            return None;
        }
        let instruction = SwapInstruction::SetAdmin { new_admin: read_address(data, 1) };
        assert(instruction.encoding() =~= data@);
        Some(instruction)
    } else if tag == 4 {
        if len != 1 {
            return None;
        }
        assert(SwapInstruction::CloseProgram.encoding() =~= data@);
        Some(SwapInstruction::CloseProgram)
    } else {
        None
    }
}

/// The fields of a request can be read back from its wire form.
pub proof fn lemma_swap_request_fields(i: SwapInstruction)
    ensures
        match i {
            SwapInstruction::Initialize { admin, yot_mint, yos_mint, rates } => i.encoding().len()
                == 137 && i.encoding()[0] == 0 && address_at(i.encoding(), 1) == admin@
                && address_at(i.encoding(), 33) == yot_mint@ && address_at(i.encoding(), 65)
                == yos_mint@ && rates_at(i.encoding(), 97) == rates,
            SwapInstruction::Swap { amount_in, min_amount_out } => i.encoding().len() == 17
                && i.encoding()[0] == 1 && amount_at(i.encoding(), 1) == amount_in && amount_at(
                i.encoding(),
                9,
            ) == min_amount_out,
            SwapInstruction::UpdateParameters { update } => i.encoding().len() >= 1
                && i.encoding()[0] == 2 && update_at(i.encoding()) == Some(update),
            SwapInstruction::SetAdmin { new_admin } => i.encoding().len() == 33 && i.encoding()[0]
                == 3 && address_at(i.encoding(), 1) == new_admin@,
            SwapInstruction::CloseProgram => i.encoding().len() == 1 && i.encoding()[0] == 4,
        },
{
    let e = i.encoding();
    match i {
        SwapInstruction::Initialize { admin, yot_mint, yos_mint, rates } => {
            lemma_address_ext(admin, yot_mint);
            lemma_address_ext(yot_mint, yos_mint);
            lemma_address_ext(yos_mint, admin);
            let prefix = seq![0u8] + admin@ + yot_mint@ + yos_mint@;
            lemma_rates_at(prefix, rates, seq![]);
            assert(e =~= prefix + rates_bytes(rates) + seq![]);
            assert(e.subrange(1, 33) =~= admin@);
            assert(e.subrange(33, 65) =~= yot_mint@);
            assert(e.subrange(65, 97) =~= yos_mint@);
        },
        SwapInstruction::Swap { amount_in, min_amount_out } => {
            lemma_amount_bytes(amount_in, seq![]);
            lemma_amount_bytes(min_amount_out, seq![]);
            assert(e.subrange(1, 9) =~= amount_bytes(amount_in));
            assert(e.subrange(9, 17) =~= amount_bytes(min_amount_out));
        },
        SwapInstruction::UpdateParameters { update } => {
            lemma_update_fields(update);
        },
        SwapInstruction::SetAdmin { new_admin } => {
            lemma_address_ext(new_admin, new_admin);
            assert(e.subrange(1, 33) =~= new_admin@);
        },
        SwapInstruction::CloseProgram => {},
    }
}

/// Two requests with the same wire form are the same request.
pub proof fn lemma_swap_request_injective(a: SwapInstruction, b: SwapInstruction)
    requires
        a.encoding() == b.encoding(),
    ensures
        a == b,
{
    lemma_swap_request_fields(a);
    lemma_swap_request_fields(b);
    match (a, b) {
        (
            SwapInstruction::Initialize { admin: a1, yot_mint: m1, yos_mint: s1, .. },
            SwapInstruction::Initialize { admin: a2, yot_mint: m2, yos_mint: s2, .. },
        ) => {
            lemma_address_ext(a1, a2);
            lemma_address_ext(m1, m2);
            lemma_address_ext(s1, s2);
        },
        (SwapInstruction::SetAdmin { new_admin: n1 }, SwapInstruction::SetAdmin { new_admin: n2 }) => {
            lemma_address_ext(n1, n2);
        },
        _ => {},
    }
}

/// A request that is written and read back is unchanged.
pub proof fn lemma_swap_request_roundtrip(i: SwapInstruction)
    ensures
        SwapInstruction::decoded(i.encoding()) == Some(i),
{
    let chosen = choose|x: SwapInstruction| #[trigger] x.encoding() == i.encoding();
    lemma_swap_request_injective(chosen, i);
}

/// The amounts of a rate-based swap: what comes in, what each rate takes of
/// it, what goes out, and the cashback.
#[derive(Clone, Copy, Debug, PartialEq, Eq, Structural)]
pub struct SwapAmounts {
    pub amount_in: u64,
    pub lp_contribution_amount: u64,
    pub admin_fee_amount: u64,
    pub swap_fee_amount: u64,
    pub referral_amount: u64,
    pub amount_out: u64,
    pub yos_cashback_amount: u64,
}

/// An accepted swap: its amounts, then the deposit, the payout and the
/// cashback to carry out, in this order.
#[derive(Clone, Copy, Debug, PartialEq, Eq)]
pub struct SwapPlan {
    pub amounts: SwapAmounts,
    pub deposit: TransferOrder,
    pub payout: TransferOrder,
    pub cashback: MintOrder,
}

/// An accepted creation of the configuration: the record to persist, the bump
/// of its address, and whether its account is still to be created.
#[derive(Clone, Copy, Debug, PartialEq, Eq)]
pub struct Initialization {
    pub state: ProgramState,
    pub state_bump: u8,
    pub create_account: bool,
}

/// An accepted closing: who gets the balance of the configuration account,
/// whose bytes are then cleared.
#[derive(Clone, Copy, Debug, PartialEq, Eq)]
pub struct ClosePlan {
    pub refund_to: Address,
}

/// What an accepted request to the rate-based swap asks the host to do.
#[derive(Clone, Copy, Debug, PartialEq, Eq)]
pub enum Processed {
    Initialized(Initialization),
    Swapped(SwapPlan),
    ParametersUpdated(ProgramState),
    AdminChanged(ProgramState),
    Closed(ClosePlan),
}

/// The share of `amount` at `rate` basis points, rounded down.
pub open spec fn rate_share(amount: u64, rate: u64) -> int {
    amount * rate / 10_000
}

/// Whether every product of the amount and a rate fits 64 bits and the four
/// deductions together do not exceed the amount.
pub open spec fn amounts_fit(amount_in: u64, rates: SwapRates) -> bool {
    &&& amount_in * rates.lp_contribution_rate <= u64::MAX
    &&& amount_in * rates.admin_fee_rate <= u64::MAX
    &&& amount_in * rates.swap_fee_rate <= u64::MAX
    &&& amount_in * rates.referral_rate <= u64::MAX
    &&& amount_in * rates.yos_cashback_rate <= u64::MAX
    &&& rate_share(amount_in, rates.lp_contribution_rate) + rate_share(
        amount_in,
        rates.admin_fee_rate,
    ) + rate_share(amount_in, rates.swap_fee_rate) + rate_share(amount_in, rates.referral_rate)
        <= amount_in
}

/// What is left of the amount after the four deductions.
pub open spec fn net_amount(amount_in: u64, rates: SwapRates) -> int {
    amount_in - rate_share(amount_in, rates.lp_contribution_rate) - rate_share(
        amount_in,
        rates.admin_fee_rate,
    ) - rate_share(amount_in, rates.swap_fee_rate) - rate_share(amount_in, rates.referral_rate)
}

/// What `swap_amounts` returns: an overflow where the amounts do not fit, a
/// refusal where less would go out than was asked for, else the amounts, the
/// output being what is left after the deductions, at one for one.
pub open spec fn swap_amounts_result(amount_in: u64, min_amount_out: u64, rates: SwapRates) -> Result<
    SwapAmounts,
    SwapError,
> {
    if !amounts_fit(amount_in, rates) {
        Err(SwapError::ArithmeticOverflow)
    } else if net_amount(amount_in, rates) < min_amount_out {
        Err(SwapError::InvalidInstructionData)
    } else {
        Ok(
            SwapAmounts {
                amount_in,
                lp_contribution_amount: rate_share(amount_in, rates.lp_contribution_rate) as u64,
                admin_fee_amount: rate_share(amount_in, rates.admin_fee_rate) as u64,
                swap_fee_amount: rate_share(amount_in, rates.swap_fee_rate) as u64,
                referral_amount: rate_share(amount_in, rates.referral_rate) as u64,
                amount_out: net_amount(amount_in, rates) as u64,
                yos_cashback_amount: rate_share(amount_in, rates.yos_cashback_rate) as u64,
            },
        )
    }
}

/// Computes the share of `amount` at `rate` basis points, or finds that the
/// product leaves 64 bits.
pub fn share_at_rate(amount: u64, rate: u64) -> (r: Option<u64>)
    ensures
        r is Some <==> amount * rate <= u64::MAX,
        r matches Some(share) ==> share == rate_share(amount, rate),
{
    match amount.checked_mul(rate) {
        Some(product) => Some(product / 10_000),
        None => None,
    }
}

/// Computes the amounts of a swap of `amount_in` at the given rates.
pub fn swap_amounts(amount_in: u64, min_amount_out: u64, rates: &SwapRates) -> (r: Result<
    SwapAmounts,
    SwapError,
>)
    ensures
        r == swap_amounts_result(amount_in, min_amount_out, *rates),
{
    let lp = share_at_rate(amount_in, rates.lp_contribution_rate);
    let admin = share_at_rate(amount_in, rates.admin_fee_rate);
    let fee = share_at_rate(amount_in, rates.swap_fee_rate);
    let referral = share_at_rate(amount_in, rates.referral_rate);
    let cashback = share_at_rate(amount_in, rates.yos_cashback_rate);
    match (lp, admin, fee, referral, cashback) {
        (Some(lp), Some(admin), Some(fee), Some(referral), Some(cashback)) => {
            let after_lp = match amount_in.checked_sub(lp) {
                Some(left) => left,
                None => { return Err(SwapError::ArithmeticOverflow); },
            };
            let after_admin = match after_lp.checked_sub(admin) {
                Some(left) => left,
                None => { return Err(SwapError::ArithmeticOverflow); },
            };
            let after_fee = match after_admin.checked_sub(fee) {
                Some(left) => left,
                None => { return Err(SwapError::ArithmeticOverflow); },
            };
            let amount_out = match after_fee.checked_sub(referral) {
                Some(left) => left,
                None => { return Err(SwapError::ArithmeticOverflow); },
            };
            if amount_out < min_amount_out {
                return Err(SwapError::InvalidInstructionData);
            }
            Ok(
                SwapAmounts {
                    amount_in,
                    lp_contribution_amount: lp,
                    admin_fee_amount: admin,
                    swap_fee_amount: fee,
                    referral_amount: referral,
                    amount_out,
                    yos_cashback_amount: cashback,
                },
            )
        },
        _ => Err(SwapError::ArithmeticOverflow),
    }
}

/// What goes out and what is deducted add up to what came in.
pub proof fn lemma_amounts_add_up(amount_in: u64, min_amount_out: u64, rates: SwapRates)
    ensures
        swap_amounts_result(amount_in, min_amount_out, rates) matches Ok(amounts)
            ==> amounts.amount_out + amounts.lp_contribution_amount + amounts.admin_fee_amount
            + amounts.swap_fee_amount + amounts.referral_amount == amount_in && amounts.amount_out
            >= min_amount_out && amounts.amount_out <= amount_in,
{
}

/// Derives the address that signs for the swap's balances.
pub fn find_program_authority(program_id: &Address) -> (r: Option<(Address, u8)>)
    ensures
        derived_view(r) == program_address(AUTHORITY_SEED@, program_id@),
{
    find_authority_address(program_id)
}

/// Derives the address that holds the configuration of the rate-based swap.
pub fn find_program_state_address(program_id: &Address) -> (r: Option<(Address, u8)>)
    ensures
        derived_view(r) == program_address(STATE_SEED@, program_id@),
{
    derive_address(STATE_SEED.as_slice(), program_id)
}

/// Whether a reward-token balance was read, is held in `mint` and belongs to `user`.
pub open spec fn cashback_balance_ok(
    balance: Option<(Seq<u8>, Seq<u8>, u64)>,
    mint: Seq<u8>,
    user: Seq<u8>,
) -> bool {
    balance is Some && balance_mint(balance) == mint && balance_owner(balance) == user
}

/// What a swap request comes to. The accounts are, in order: the user, the
/// configuration, the program authority, the user's input balance, the user's
/// output balance, the user's reward-token balance, the token program.
/// Checked in this order: seven accounts; the user's signature; the
/// configuration, live; the authority address; the reward-token balance, its
/// mint and its owner; then the rules of `swap_amounts_result`.
pub open spec fn process_swap_result(
    accounts: Seq<AccountEntry>,
    authority: Option<(Seq<u8>, u8)>,
    cashback: Option<(Seq<u8>, Seq<u8>, u64)>,
    amount_in: u64,
    min_amount_out: u64,
) -> Result<SwapPlan, SwapError> {
    if accounts.len() < 7 {
        Err(SwapError::NotEnoughAccountKeys)
    } else if !accounts[0].is_signer {
        Err(SwapError::MissingRequiredSignature)
    } else {
        match ProgramState::decoded(accounts[1].data@) {
            None => Err(SwapError::InvalidAccountData),
            Some(state) => if !state.is_initialized {
                Err(SwapError::UninitializedAccount)
            } else if !derivation_matches(authority, accounts[2].key@) {
                Err(SwapError::InvalidAccountData)
            } else if !cashback_balance_ok(cashback, state.yos_mint@, accounts[0].key@) {
                Err(SwapError::InvalidAccountData)
            } else {
                match swap_amounts_result(amount_in, min_amount_out, state.rates) {
                    Err(e) => Err(e),
                    Ok(amounts) => Ok(
                        SwapPlan {
                            amounts,
                            deposit: TransferOrder {
                                source: accounts[3].key,
                                destination: accounts[2].key,
                                authority: accounts[0].key,
                                amount: amounts.amount_in,
                                bump: None,
                            },
                            payout: TransferOrder {
                                source: accounts[2].key,
                                destination: accounts[4].key,
                                authority: accounts[2].key,
                                amount: amounts.amount_out,
                                bump: Some(derived_bump(authority)),
                            },
                            cashback: MintOrder {
                                mint: state.yos_mint,
                                destination: accounts[5].key,
                                authority: accounts[2].key,
                                amount: amounts.yos_cashback_amount,
                                bump: derived_bump(authority),
                            },
                        },
                    ),
                }
            },
        }
    }
}

/// Decides a swap request, given the authority that was derived and the
/// user's reward-token balance as it was read.
pub fn settle_swap(
    accounts: &[AccountEntry],
    authority: Option<(Address, u8)>,
    cashback: Option<TokenAccount>,
    amount_in: u64,
    min_amount_out: u64,
) -> (r: Result<SwapPlan, SwapError>)
    ensures
        r == process_swap_result(
            accounts@,
            derived_view(authority),
            token_account_view(cashback),
            amount_in,
            min_amount_out,
        ),
{
    if accounts.len() < 7 {
        return Err(SwapError::NotEnoughAccountKeys);
    }
    if !accounts[0].is_signer {
        return Err(SwapError::MissingRequiredSignature);
    }
    let state = match ProgramState::from_bytes(accounts[1].data.as_slice()) {
        Some(state) => state,
        None => { return Err(SwapError::InvalidAccountData); },
    };
    if !state.is_initialized {
        return Err(SwapError::UninitializedAccount);
    }
    let bump = match check_derivation(authority, &accounts[2].key) {
        Ok(found) => found.bump,
        Err(_) => { return Err(SwapError::InvalidAccountData); },
    };
    let balance_ok = match cashback {
        Some(balance) => balance.mint.same(&state.yos_mint) && balance.owner.same(
            &accounts[0].key,
        ),
        None => false,
    };
    if !balance_ok {
        return Err(SwapError::InvalidAccountData);
    }
    match swap_amounts(amount_in, min_amount_out, &state.rates) {
        Err(e) => Err(e),
        Ok(amounts) => Ok(
            SwapPlan {
                amounts,
                deposit: TransferOrder {
                    source: accounts[3].key,
                    destination: accounts[2].key,
                    authority: accounts[0].key,
                    amount: amounts.amount_in,
                    bump: None,
                },
                payout: TransferOrder {
                    source: accounts[2].key,
                    destination: accounts[4].key,
                    authority: accounts[2].key,
                    amount: amounts.amount_out,
                    bump: Some(bump),
                },
                cashback: MintOrder {
                    mint: state.yos_mint,
                    destination: accounts[5].key,
                    authority: accounts[2].key,
                    amount: amounts.yos_cashback_amount,
                    bump,
                },
            },
        ),
    }
}

/// Handles a swap request: derives the authority again, reads the user's
/// reward-token balance, then decides as `settle_swap` does.
pub fn process_swap(
    program_id: &Address,
    accounts: &[AccountEntry],
    amount_in: u64,
    min_amount_out: u64,
) -> (r: Result<SwapPlan, SwapError>)
    ensures
        r == process_swap_result(
            accounts@,
            program_address(AUTHORITY_SEED@, program_id@),
            token_account_at(accounts@, 5),
            amount_in,
            min_amount_out,
        ),
{
    settle_swap(
        accounts,
        find_program_authority(program_id),
        read_token_account(accounts, 5),
        amount_in,
        min_amount_out,
    )
}

/// What a request to create the configuration comes to. The accounts are, in
/// order: the payer, the configuration, the program authority, the system
/// program, the rent record. Checked in this order: five accounts, the
/// payer's signature, the configuration address, the authority address, then
/// the bytes of a configuration account that is not empty: they must read as
/// a configuration, and it must not be live.
pub open spec fn process_initialize_result(
    accounts: Seq<AccountEntry>,
    state_address: Option<(Seq<u8>, u8)>,
    authority: Option<(Seq<u8>, u8)>,
    admin: Address,
    yot_mint: Address,
    yos_mint: Address,
    rates: SwapRates,
) -> Result<Initialization, SwapError> {
    if accounts.len() < 5 {
        Err(SwapError::NotEnoughAccountKeys)
    } else if !accounts[0].is_signer {
        Err(SwapError::MissingRequiredSignature)
    } else if !derivation_matches(state_address, accounts[1].key@) {
        Err(SwapError::InvalidAccountData)
    } else if !derivation_matches(authority, accounts[2].key@) {
        Err(SwapError::InvalidAccountData)
    } else if accounts[1].data@.len() > 0 && ProgramState::decoded(accounts[1].data@) is None {
        Err(SwapError::InvalidAccountData)
    } else if accounts[1].data@.len() > 0 && ProgramState::decoded(
        accounts[1].data@,
    )->0.is_initialized {
        Err(SwapError::AccountAlreadyInitialized)
    } else {
        Ok(
            Initialization {
                state: ProgramState { admin, yot_mint, yos_mint, rates, is_initialized: true },
                state_bump: derived_bump(state_address),
                create_account: accounts[1].data@.len() == 0,
            },
        )
    }
}

/// Decides a request to create the configuration, given the two addresses
/// that were derived.
pub fn settle_initialize(
    accounts: &[AccountEntry],
    state_address: Option<(Address, u8)>,
    authority: Option<(Address, u8)>,
    admin: &Address,
    yot_mint: &Address,
    yos_mint: &Address,
    rates: &SwapRates,
) -> (r: Result<Initialization, SwapError>)
    ensures
        r == process_initialize_result(
            accounts@,
            derived_view(state_address),
            derived_view(authority),
            *admin,
            *yot_mint,
            *yos_mint,
            *rates,
        ),
{
    if accounts.len() < 5 {
        return Err(SwapError::NotEnoughAccountKeys);
    }
    if !accounts[0].is_signer {
        return Err(SwapError::MissingRequiredSignature);
    }
    let state_bump = match check_derivation(state_address, &accounts[1].key) {
        Ok(found) => found.bump,
        Err(_) => { return Err(SwapError::InvalidAccountData); },
    };
    if check_derivation(authority, &accounts[2].key).is_err() {
        return Err(SwapError::InvalidAccountData);
    }
    let create_account = accounts[1].data.len() == 0;
    if !create_account {
        match ProgramState::from_bytes(accounts[1].data.as_slice()) {
            None => { return Err(SwapError::InvalidAccountData); },
            Some(state) => if state.is_initialized {
                return Err(SwapError::AccountAlreadyInitialized);
            },
        }
    }
    Ok(
        Initialization {
            state: ProgramState {
                admin: *admin,
                yot_mint: *yot_mint,
                yos_mint: *yos_mint,
                rates: *rates,
                is_initialized: true,
            },
            state_bump,
            create_account,
        },
    )
}

/// Handles a request to create the configuration: derives both addresses
/// again, then decides as `settle_initialize` does.
pub fn process_initialize(
    program_id: &Address,
    accounts: &[AccountEntry],
    admin: &Address,
    yot_mint: &Address,
    yos_mint: &Address,
    rates: &SwapRates,
) -> (r: Result<Initialization, SwapError>)
    ensures
        r == process_initialize_result(
            accounts@,
            program_address(STATE_SEED@, program_id@),
            program_address(AUTHORITY_SEED@, program_id@),
            *admin,
            *yot_mint,
            *yos_mint,
            *rates,
        ),
{
    settle_initialize(
        accounts,
        find_program_state_address(program_id),
        find_program_authority(program_id),
        admin,
        yot_mint,
        yos_mint,
        rates,
    )
}

/// The configuration that an administrator's request may change. The accounts
/// are, in order: the administrator, the configuration. Checked in this
/// order: two accounts, the configuration address, the configuration, live,
/// the caller being the administrator, the administrator's signature.
pub open spec fn admin_gate(accounts: Seq<AccountEntry>, state_address: Option<(Seq<u8>, u8)>) -> Result<
    ProgramState,
    SwapError,
> {
    if accounts.len() < 2 {
        Err(SwapError::NotEnoughAccountKeys)
    } else if !derivation_matches(state_address, accounts[1].key@) {
        Err(SwapError::InvalidAccountData)
    } else {
        match ProgramState::decoded(accounts[1].data@) {
            None => Err(SwapError::InvalidAccountData),
            Some(state) => if !state.is_initialized {
                Err(SwapError::UninitializedAccount)
            } else if state.admin@ != accounts[0].key@ {
                Err(SwapError::InvalidAccountData)
            } else if !accounts[0].is_signer {
                Err(SwapError::MissingRequiredSignature)
            } else {
                Ok(state)
            },
        }
    }
}

/// A rate that is replaced only where a new one is supplied.
pub open spec fn replaced_rate(current: u64, supplied: Option<u64>) -> u64 {
    match supplied {
        Some(rate) => rate,
        None => current,
    }
}

/// The rates after an update: the supplied ones in place, the others as they were.
pub open spec fn updated_rates(rates: SwapRates, update: RateUpdate) -> SwapRates {
    SwapRates {
        lp_contribution_rate: replaced_rate(rates.lp_contribution_rate, update.lp_contribution_rate),
        admin_fee_rate: replaced_rate(rates.admin_fee_rate, update.admin_fee_rate),
        yos_cashback_rate: replaced_rate(rates.yos_cashback_rate, update.yos_cashback_rate),
        swap_fee_rate: replaced_rate(rates.swap_fee_rate, update.swap_fee_rate),
        referral_rate: replaced_rate(rates.referral_rate, update.referral_rate),
    }
}

/// What a request to replace rates comes to.
pub open spec fn process_update_parameters_result(
    accounts: Seq<AccountEntry>,
    state_address: Option<(Seq<u8>, u8)>,
    update: RateUpdate,
) -> Result<ProgramState, SwapError> {
    match admin_gate(accounts, state_address) {
        Err(e) => Err(e),
        Ok(state) => Ok(ProgramState { rates: updated_rates(state.rates, update), ..state }),
    }
}

/// What a request to hand the administration over comes to.
pub open spec fn process_set_admin_result(
    accounts: Seq<AccountEntry>,
    state_address: Option<(Seq<u8>, u8)>,
    new_admin: Address,
) -> Result<ProgramState, SwapError> {
    match admin_gate(accounts, state_address) {
        Err(e) => Err(e),
        Ok(state) => Ok(ProgramState { admin: new_admin, ..state }),
    }
}

/// What a request to close the configuration comes to.
pub open spec fn process_close_program_result(
    accounts: Seq<AccountEntry>,
    state_address: Option<(Seq<u8>, u8)>,
) -> Result<ClosePlan, SwapError> {
    match admin_gate(accounts, state_address) {
        Err(e) => Err(e),
        Ok(_) => Ok(ClosePlan { refund_to: accounts[0].key }),
    }
}

/// Reads the configuration for an administrator's request, or refuses the request.
pub fn pass_admin_gate(accounts: &[AccountEntry], state_address: Option<(Address, u8)>) -> (r:
    Result<ProgramState, SwapError>)
    ensures
        r == admin_gate(accounts@, derived_view(state_address)),
{
    if accounts.len() < 2 {
        return Err(SwapError::NotEnoughAccountKeys);
    }
    if check_derivation(state_address, &accounts[1].key).is_err() {
        return Err(SwapError::InvalidAccountData);
    }
    let state = match ProgramState::from_bytes(accounts[1].data.as_slice()) {
        Some(state) => state,
        None => { return Err(SwapError::InvalidAccountData); },
    };
    if !state.is_initialized {
        return Err(SwapError::UninitializedAccount);
    }
    if !state.admin.same(&accounts[0].key) {
        return Err(SwapError::InvalidAccountData);
    }
    if !accounts[0].is_signer {
        return Err(SwapError::MissingRequiredSignature);
    }
    Ok(state)
}

/// One rate after an update.
pub fn replace_rate(current: u64, supplied: Option<u64>) -> (r: u64)
    ensures
        r == replaced_rate(current, supplied),
{
    match supplied {
        Some(rate) => rate,
        None => current,
    }
}

/// Handles a request to replace rates: derives the configuration address
/// again, passes the administrator's gate, and replaces the supplied rates.
pub fn process_update_parameters(
    program_id: &Address,
    accounts: &[AccountEntry],
    update: &RateUpdate,
) -> (r: Result<ProgramState, SwapError>)
    ensures
        r == process_update_parameters_result(
            accounts@,
            program_address(STATE_SEED@, program_id@),
            *update,
        ),
{
    let state = match pass_admin_gate(accounts, find_program_state_address(program_id)) {
        Ok(state) => state,
        Err(e) => { return Err(e); },
    };
    Ok(
        ProgramState {
            admin: state.admin,
            yot_mint: state.yot_mint,
            yos_mint: state.yos_mint,
            rates: SwapRates {
                lp_contribution_rate: replace_rate(
                    state.rates.lp_contribution_rate,
                    update.lp_contribution_rate,
                ),
                admin_fee_rate: replace_rate(state.rates.admin_fee_rate, update.admin_fee_rate),
                yos_cashback_rate: replace_rate(
                    state.rates.yos_cashback_rate,
                    update.yos_cashback_rate,
                ),
                swap_fee_rate: replace_rate(state.rates.swap_fee_rate, update.swap_fee_rate),
                referral_rate: replace_rate(state.rates.referral_rate, update.referral_rate),
            },
            is_initialized: state.is_initialized,
        },
    )
}

/// Handles a request to hand the administration over.
pub fn process_set_admin(program_id: &Address, accounts: &[AccountEntry], new_admin: &Address) -> (r:
    Result<ProgramState, SwapError>)
    ensures
        r == process_set_admin_result(
            accounts@,
            program_address(STATE_SEED@, program_id@),
            *new_admin,
        ),
{
    let state = match pass_admin_gate(accounts, find_program_state_address(program_id)) {
        Ok(state) => state,
        Err(e) => { return Err(e); },
    };
    Ok(
        ProgramState {
            admin: *new_admin,
            yot_mint: state.yot_mint,
            yos_mint: state.yos_mint,
            rates: state.rates,
            is_initialized: state.is_initialized,
        },
    )
}

/// Handles a request to close the configuration.
pub fn process_close_program(program_id: &Address, accounts: &[AccountEntry]) -> (r: Result<
    ClosePlan,
    SwapError,
>)
    ensures
        r == process_close_program_result(accounts@, program_address(STATE_SEED@, program_id@)),
{
    match pass_admin_gate(accounts, find_program_state_address(program_id)) {
        Ok(_) => Ok(ClosePlan { refund_to: accounts[0].key }),
        Err(e) => Err(e),
    }
}

/// What a request in bytes comes to: refused where the bytes are no request,
/// else what the handler of its kind decides.
pub open spec fn process_instruction_result(
    accounts: Seq<AccountEntry>,
    instruction: Option<SwapInstruction>,
    state_address: Option<(Seq<u8>, u8)>,
    authority: Option<(Seq<u8>, u8)>,
    cashback: Option<(Seq<u8>, Seq<u8>, u64)>,
) -> Result<Processed, SwapError> {
    match instruction {
        None => Err(SwapError::InvalidInstructionData),
        Some(
            SwapInstruction::Initialize { admin, yot_mint, yos_mint, rates },
        ) => match process_initialize_result(
            accounts,
            state_address,
            authority,
            admin,
            yot_mint,
            yos_mint,
            rates,
        ) {
            Ok(done) => Ok(Processed::Initialized(done)),
            Err(e) => Err(e),
        },
        Some(SwapInstruction::Swap { amount_in, min_amount_out }) => match process_swap_result(
            accounts,
            authority,
            cashback,
            amount_in,
            min_amount_out,
        ) {
            Ok(plan) => Ok(Processed::Swapped(plan)),
            Err(e) => Err(e),
        },
        Some(SwapInstruction::UpdateParameters { update }) => match process_update_parameters_result(
            accounts,
            state_address,
            update,
        ) {
            Ok(state) => Ok(Processed::ParametersUpdated(state)),
            Err(e) => Err(e),
        },
        Some(SwapInstruction::SetAdmin { new_admin }) => match process_set_admin_result(
            accounts,
            state_address,
            new_admin,
        ) {
            Ok(state) => Ok(Processed::AdminChanged(state)),
            Err(e) => Err(e),
        },
        Some(SwapInstruction::CloseProgram) => match process_close_program_result(
            accounts,
            state_address,
        ) {
            Ok(plan) => Ok(Processed::Closed(plan)),
            Err(e) => Err(e),
        },
    }
}

/// Reads a request from `instruction_data` and hands it to the handler of its kind.
pub fn process_instruction(program_id: &Address, accounts: &[AccountEntry], instruction_data: &[u8]) -> (r:
    Result<Processed, SwapError>)
    ensures
        r == process_instruction_result(
            accounts@,
            SwapInstruction::decoded(instruction_data@),
            program_address(STATE_SEED@, program_id@),
            program_address(AUTHORITY_SEED@, program_id@),
            token_account_at(accounts@, 5),
        ),
{
    let instruction = match SwapInstruction::from_bytes(instruction_data) {
        Some(instruction) => instruction,
        None => { return Err(SwapError::InvalidInstructionData); },
    };
    match instruction {
        SwapInstruction::Initialize { admin, yot_mint, yos_mint, rates } => {
            match process_initialize(program_id, accounts, &admin, &yot_mint, &yos_mint, &rates) {
                Ok(done) => Ok(Processed::Initialized(done)),
                Err(e) => Err(e),
            }
        },
        SwapInstruction::Swap { amount_in, min_amount_out } => {
            match process_swap(program_id, accounts, amount_in, min_amount_out) {
                Ok(plan) => Ok(Processed::Swapped(plan)),
                Err(e) => Err(e),
            }
        },
        SwapInstruction::UpdateParameters { update } => {
            match process_update_parameters(program_id, accounts, &update) {
                Ok(state) => Ok(Processed::ParametersUpdated(state)),
                Err(e) => Err(e),
            }
        },
        SwapInstruction::SetAdmin { new_admin } => {
            match process_set_admin(program_id, accounts, &new_admin) {
                Ok(state) => Ok(Processed::AdminChanged(state)),
                Err(e) => Err(e),
            }
        },
        SwapInstruction::CloseProgram => {
            match process_close_program(program_id, accounts) {
                Ok(plan) => Ok(Processed::Closed(plan)),
                Err(e) => Err(e),
            }
        },
    }
}

} // verus!
