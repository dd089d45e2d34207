use crate::address::{lemma_address_ext, Address};
use crate::codec::{
    address_at, amount_at, amount_bytes, lemma_amount_bytes, lemma_timestamp_bits, read_address,
    read_amount, read_timestamp, timestamp_at, timestamp_bits, timestamp_bytes, write_address,
    write_amount, write_timestamp,
};
use vstd::prelude::*;

verus! {

/// Length in bytes of a stored staking record.
pub const STAKING_ACCOUNT_LEN: usize = 64;

/// Length in bytes of a stored configuration record.
pub const PROGRAM_STATE_LEN: usize = 129;

/// One depositor's staking record.
#[derive(Clone, Copy, Debug, PartialEq, Eq)]
pub struct StakingAccount {
    /// The depositor; fixed when the record is opened.
    pub owner: Address,
    /// Principal deposited and not yet withdrawn, in raw units.
    pub staked_amount: u64,
    /// When reward was last settled; the elapsed window starts here.
    pub last_harvest_time: i64,
    /// When principal was last added.
    pub last_stake_time: i64,
    /// Reward credited so far, in raw units.
    pub total_harvested: u64,
}

/// The global parameters of one deployment.
#[derive(Clone, Copy, Debug, PartialEq, Eq)]
pub struct ProgramState {
    /// Whether the record is live.
    pub is_initialized: bool,
    /// Who may change the parameters.
    pub admin: Address,
    /// Mint of the stake token.
    pub yot_mint: Address,
    /// Mint of the reward token.
    pub yos_mint: Address,
    /// Reward per raw unit of principal per second, scaled by `RATE_SCALE`.
    pub stake_rate_per_second: u64,
    /// Least reward that may be harvested.
    pub harvest_threshold: u64,
    /// Least amount that may be staked.
    pub stake_threshold: u64,
    /// Least amount that may be unstaked.
    pub unstake_threshold: u64,
}

impl StakingAccount {
    /// The stored form: owner, staked amount, last harvest time, last stake
    /// time, total harvested; integers little-endian.
    pub open spec fn encoding(self) -> Seq<u8> {
        self.owner@ + amount_bytes(self.staked_amount) + timestamp_bytes(self.last_harvest_time)
            + timestamp_bytes(self.last_stake_time) + amount_bytes(self.total_harvested)
    }

    /// The record whose stored form is `data`, if there is one.
    pub open spec fn decoded(data: Seq<u8>) -> Option<StakingAccount> {
        if exists|a: StakingAccount| #[trigger] a.encoding() == data {
            Some(choose|a: StakingAccount| #[trigger] a.encoding() == data)
        } else {
            None
        }
    }

    /// A record opened at `now` for `owner`, with nothing staked or harvested.
    pub open spec fn opened(owner: Address, now: i64) -> StakingAccount {
        StakingAccount {
            owner,
            staked_amount: 0,
            last_harvest_time: now,
            last_stake_time: now,
            total_harvested: 0,
        }
    }

    /// Opens a record at `now` for `owner`.
    pub fn open(owner: Address, now: i64) -> (r: StakingAccount)
        ensures
            r == StakingAccount::opened(owner, now),
    {
        StakingAccount {
            owner,
            staked_amount: 0,
            last_harvest_time: now,
            last_stake_time: now,
            total_harvested: 0,
        }
    }

    /// Writes the stored form of the record.
    pub fn to_bytes(&self) -> (out: Vec<u8>)
        ensures
            out@ == self.encoding(),
            out@.len() == STAKING_ACCOUNT_LEN,
    {
        let mut out: Vec<u8> = Vec::new();
        write_address(&mut out, &self.owner);
        write_amount(&mut out, self.staked_amount);
        write_timestamp(&mut out, self.last_harvest_time);
        write_timestamp(&mut out, self.last_stake_time);
        write_amount(&mut out, self.total_harvested);
        assert(out@ =~= self.encoding());
        out
    }

    /// Reads a record from its stored form; succeeds on exactly
    /// `STAKING_ACCOUNT_LEN` bytes.
    pub fn from_bytes(data: &[u8]) -> (r: Option<StakingAccount>)
        ensures
            r == StakingAccount::decoded(data@),
            r is Some <==> data@.len() == STAKING_ACCOUNT_LEN,
    {
        if data.len() != STAKING_ACCOUNT_LEN {
            proof {
                assert forall|a: StakingAccount| #[trigger] a.encoding() != data@ by {
                    lemma_staking_encoding_fields(a);
                }
            }
            return None;
        }
        let account = StakingAccount {
            owner: read_address(data, 0),
            staked_amount: read_amount(data, 32),
            last_harvest_time: read_timestamp(data, 40),
            last_stake_time: read_timestamp(data, 48),
            total_harvested: read_amount(data, 56),
        };
        proof {
            lemma_amount_bytes(0, data@.subrange(32, 40));
            lemma_amount_bytes(0, data@.subrange(40, 48));
            lemma_amount_bytes(0, data@.subrange(48, 56));
            lemma_amount_bytes(0, data@.subrange(56, 64));
            lemma_timestamp_bits(0, amount_at(data@, 40));
            lemma_timestamp_bits(0, amount_at(data@, 48));
            assert(account.encoding() =~= data@);
            let chosen = choose|a: StakingAccount| #[trigger] a.encoding() == data@;
            lemma_staking_encoding_injective(chosen, account);
        }
        Some(account)
    }
}

/// The fields of a record can be read back from fixed places in its stored form.
pub proof fn lemma_staking_encoding_fields(a: StakingAccount)
    ensures
        a.encoding().len() == STAKING_ACCOUNT_LEN,
        address_at(a.encoding(), 0) == a.owner@,
        amount_at(a.encoding(), 32) == a.staked_amount,
        timestamp_at(a.encoding(), 40) == a.last_harvest_time,
        timestamp_at(a.encoding(), 48) == a.last_stake_time,
        amount_at(a.encoding(), 56) == a.total_harvested,
{
    let e = a.encoding();
    lemma_address_ext(a.owner, a.owner);
    lemma_amount_bytes(a.staked_amount, seq![]);
    lemma_amount_bytes(timestamp_bits(a.last_harvest_time), seq![]);
    lemma_amount_bytes(timestamp_bits(a.last_stake_time), seq![]);
    lemma_amount_bytes(a.total_harvested, seq![]);
    lemma_timestamp_bits(a.last_harvest_time, 0);
    lemma_timestamp_bits(a.last_stake_time, 0);
    assert(e.subrange(0, 32) =~= a.owner@);
    assert(e.subrange(32, 40) =~= amount_bytes(a.staked_amount));
    assert(e.subrange(40, 48) =~= timestamp_bytes(a.last_harvest_time));
    assert(e.subrange(48, 56) =~= timestamp_bytes(a.last_stake_time));
    assert(e.subrange(56, 64) =~= amount_bytes(a.total_harvested));
}

/// Two records with the same stored form are the same record.
pub proof fn lemma_staking_encoding_injective(a: StakingAccount, b: StakingAccount)
    requires
        a.encoding() == b.encoding(),
    ensures
        a == b,
{
    lemma_staking_encoding_fields(a);
    lemma_staking_encoding_fields(b);
    lemma_address_ext(a.owner, b.owner);
}

/// A record that is written and read back is unchanged.
pub proof fn lemma_staking_roundtrip(a: StakingAccount)
    ensures
        StakingAccount::decoded(a.encoding()) == Some(a),
{
    let chosen = choose|x: StakingAccount| #[trigger] x.encoding() == a.encoding();
    lemma_staking_encoding_injective(chosen, a);
}

/// Whatever bytes read as a record are the stored form of that record.
pub proof fn lemma_staking_decoded_encodes(data: Seq<u8>)
    ensures
        StakingAccount::decoded(data) matches Some(a) ==> a.encoding() == data,
{
}

/// The byte that stands for a flag.
pub open spec fn flag_byte(flag: bool) -> u8 {
    if flag {
        1
    } else {
        0
    }
}

impl ProgramState {
    /// The stored form: the live flag as one byte, admin, stake mint, reward
    /// mint, rate, harvest threshold, stake threshold, unstake threshold;
    /// integers little-endian.
    pub open spec fn encoding(self) -> Seq<u8> {
        seq![flag_byte(self.is_initialized)] + self.admin@ + self.yot_mint@ + self.yos_mint@
            + amount_bytes(self.stake_rate_per_second) + amount_bytes(self.harvest_threshold)
            + amount_bytes(self.stake_threshold) + amount_bytes(self.unstake_threshold)
    }

    /// The record whose stored form is `data`, if there is one.
    pub open spec fn decoded(data: Seq<u8>) -> Option<ProgramState> {
        if exists|s: ProgramState| #[trigger] s.encoding() == data {
            Some(choose|s: ProgramState| #[trigger] s.encoding() == data)
        } else {
            None
        }
    }

    /// Whether `data` has the length of a record and a flag byte of 0 or 1.
    pub open spec fn well_formed(data: Seq<u8>) -> bool {
        data.len() == PROGRAM_STATE_LEN && data[0] <= 1
    }

    /// Writes the stored form of the record.
    pub fn to_bytes(&self) -> (out: Vec<u8>)
        ensures
            out@ == self.encoding(),
            out@.len() == PROGRAM_STATE_LEN,
    {
        let mut out: Vec<u8> = Vec::new();
        out.push(if self.is_initialized { 1u8 } else { 0u8 });
        write_address(&mut out, &self.admin);
        write_address(&mut out, &self.yot_mint);
        write_address(&mut out, &self.yos_mint);
        write_amount(&mut out, self.stake_rate_per_second);
        write_amount(&mut out, self.harvest_threshold);
        write_amount(&mut out, self.stake_threshold);
        write_amount(&mut out, self.unstake_threshold);
        assert(out@ =~= self.encoding());
        out
    }

    /// Reads a record from its stored form; succeeds on exactly
    /// `PROGRAM_STATE_LEN` bytes that start with 0 or 1.
    pub fn from_bytes(data: &[u8]) -> (r: Option<ProgramState>)
        ensures
            r == ProgramState::decoded(data@),
            r is Some <==> ProgramState::well_formed(data@),
    {
        if data.len() != PROGRAM_STATE_LEN || data[0] > 1 {
            proof {
                assert forall|s: ProgramState| #[trigger] s.encoding() != data@ by {
                    lemma_state_encoding_fields(s);
                }
            }
            return None;
        }
        let state = ProgramState {
            is_initialized: data[0] == 1,
            admin: read_address(data, 1),
            yot_mint: read_address(data, 33),
            yos_mint: read_address(data, 65),
            stake_rate_per_second: read_amount(data, 97),
            harvest_threshold: read_amount(data, 105),
            stake_threshold: read_amount(data, 113),
            unstake_threshold: read_amount(data, 121),
        };
        proof {
            lemma_amount_bytes(0, data@.subrange(97, 105));
            lemma_amount_bytes(0, data@.subrange(105, 113));
            lemma_amount_bytes(0, data@.subrange(113, 121));
            lemma_amount_bytes(0, data@.subrange(121, 129));
            assert(state.encoding() =~= data@);
            let chosen = choose|s: ProgramState| #[trigger] s.encoding() == data@;
            lemma_state_encoding_injective(chosen, state);
        }
        Some(state)
    }
}

/// The fields of a configuration record can be read back from fixed places in
/// its stored form.
pub proof fn lemma_state_encoding_fields(s: ProgramState)
    ensures
        s.encoding().len() == PROGRAM_STATE_LEN,
        s.encoding()[0] == flag_byte(s.is_initialized),
        address_at(s.encoding(), 1) == s.admin@,
        address_at(s.encoding(), 33) == s.yot_mint@,
        address_at(s.encoding(), 65) == s.yos_mint@,
        amount_at(s.encoding(), 97) == s.stake_rate_per_second,
        amount_at(s.encoding(), 105) == s.harvest_threshold,
        amount_at(s.encoding(), 113) == s.stake_threshold,
        amount_at(s.encoding(), 121) == s.unstake_threshold,
{
    let e = s.encoding();
    lemma_address_ext(s.admin, s.admin);
    lemma_address_ext(s.yot_mint, s.yot_mint);
    lemma_address_ext(s.yos_mint, s.yos_mint);
    lemma_amount_bytes(s.stake_rate_per_second, seq![]);
    lemma_amount_bytes(s.harvest_threshold, seq![]);
    lemma_amount_bytes(s.stake_threshold, seq![]);
    lemma_amount_bytes(s.unstake_threshold, seq![]);
    assert(e.subrange(1, 33) =~= s.admin@);
    assert(e.subrange(33, 65) =~= s.yot_mint@);
    assert(e.subrange(65, 97) =~= s.yos_mint@);
    assert(e.subrange(97, 105) =~= amount_bytes(s.stake_rate_per_second));
    assert(e.subrange(105, 113) =~= amount_bytes(s.harvest_threshold));
    assert(e.subrange(113, 121) =~= amount_bytes(s.stake_threshold));
    assert(e.subrange(121, 129) =~= amount_bytes(s.unstake_threshold));
}

/// Two configuration records with the same stored form are the same record.
pub proof fn lemma_state_encoding_injective(a: ProgramState, b: ProgramState)
    requires
        a.encoding() == b.encoding(),
    ensures
        a == b,
{
    lemma_state_encoding_fields(a);
    lemma_state_encoding_fields(b);
    lemma_address_ext(a.admin, b.admin);
    lemma_address_ext(a.yot_mint, b.yot_mint);
    lemma_address_ext(a.yos_mint, b.yos_mint);
}

/// A configuration record that is written and read back is unchanged.
pub proof fn lemma_state_roundtrip(s: ProgramState)
    ensures
        ProgramState::decoded(s.encoding()) == Some(s),
{
    let chosen = choose|x: ProgramState| #[trigger] x.encoding() == s.encoding();
    lemma_state_encoding_injective(chosen, s);
}

} // verus!
