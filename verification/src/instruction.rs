use crate::address::{lemma_address_ext, Address};
use crate::codec::{
    address_at, amount_at, amount_bytes, lemma_amount_bytes, read_address, read_amount,
    write_address, write_amount,
};
use vstd::prelude::*;

verus! {

/// A request as it arrives on the wire: one tag byte, then the fields in the
/// order written here, integers little-endian; an optional value is a byte 0,
/// or a byte 1 and the value.
#[derive(Clone, Copy, Debug, PartialEq, Eq)]
#[allow(inconsistent_fields)]
pub enum StakingInstruction {
    /// Tag 0: create the configuration record.
    Initialize {
        yot_mint: Address,
        yos_mint: Address,
        stake_rate_per_second: u64,
        harvest_threshold: u64,
        stake_threshold: u64,
        unstake_threshold: u64,
    },
    /// Tag 1: deposit principal.
    Stake { amount: u64 },
    /// Tag 2: withdraw principal.
    Unstake { amount: u64 },
    /// Tag 3: collect the accrued reward.
    Harvest,
    /// Tag 4: change the supplied parameters.
    UpdateParameters {
        stake_rate_per_second: Option<u64>,
        harvest_threshold: Option<u64>,
        stake_threshold: Option<u64>,
        unstake_threshold: Option<u64>,
    },
    /// Tag 5: hand the administration over.
    SetAdmin { new_admin: Address },
}

/// The bytes of an optional amount.
pub open spec fn optional_bytes(value: Option<u64>) -> Seq<u8> {
    match value {
        Some(v) => seq![1u8] + amount_bytes(v),
        None => seq![0u8],
    }
}

/// The optional amount that starts at `pos`, with the place where it ends.
pub open spec fn optional_at(data: Seq<u8>, pos: int) -> Option<(Option<u64>, int)> {
    if 0 <= pos < data.len() && data[pos] == 0 {
        Some((None, pos + 1))
    } else if 0 <= pos && pos + 9 <= data.len() && data[pos] == 1 {
        Some((Some(amount_at(data, pos + 1)), pos + 9))
    } else {
        None
    }
}

/// The four optional amounts that follow the tag byte and fill `data` to its end.
pub open spec fn update_fields(data: Seq<u8>) -> Option<
    (Option<u64>, Option<u64>, Option<u64>, Option<u64>),
> {
    match optional_at(data, 1) {
        None => None,
        Some((a, p1)) => match optional_at(data, p1) {
            None => None,
            Some((b, p2)) => match optional_at(data, p2) {
                None => None,
                Some((c, p3)) => match optional_at(data, p3) {
                    None => None,
                    Some((d, p4)) => if p4 == data.len() {
                        Some((a, b, c, d))
                    } else {
                        None
                    },
                },
            },
        },
    }
}

impl StakingInstruction {
    /// The wire form of the request.
    pub open spec fn encoding(self) -> Seq<u8> {
        match self {
            StakingInstruction::Initialize {
                yot_mint,
                yos_mint,
                stake_rate_per_second,
                harvest_threshold,
                stake_threshold,
                unstake_threshold,
            } => seq![0u8] + yot_mint@ + yos_mint@ + amount_bytes(stake_rate_per_second)
                + amount_bytes(harvest_threshold) + amount_bytes(stake_threshold) + amount_bytes(
                unstake_threshold,
            ),
            StakingInstruction::Stake { amount } => seq![1u8] + amount_bytes(amount),
            StakingInstruction::Unstake { amount } => seq![2u8] + amount_bytes(amount),
            StakingInstruction::Harvest => seq![3u8],
            StakingInstruction::UpdateParameters {
                stake_rate_per_second,
                harvest_threshold,
                stake_threshold,
                unstake_threshold,
            } => seq![4u8] + optional_bytes(stake_rate_per_second) + optional_bytes(
                harvest_threshold,
            ) + optional_bytes(stake_threshold) + optional_bytes(unstake_threshold),
            StakingInstruction::SetAdmin { new_admin } => seq![5u8] + new_admin@,
        }
    }

    /// The request whose wire form is `data`, if there is one.
    pub open spec fn decoded(data: Seq<u8>) -> Option<StakingInstruction> {
        if exists|i: StakingInstruction| #[trigger] i.encoding() == data {
            Some(choose|i: StakingInstruction| #[trigger] i.encoding() == data)
        } else {
            None
        }
    }

    /// Writes the wire form of the request.
    pub fn to_bytes(&self) -> (out: Vec<u8>)
        ensures
            out@ == self.encoding(),
    {
        let mut out: Vec<u8> = Vec::new();
        match self {
            StakingInstruction::Initialize {
                yot_mint,
                yos_mint,
                stake_rate_per_second,
                harvest_threshold,
                stake_threshold,
                unstake_threshold,
            } => {
                out.push(0u8);
                write_address(&mut out, yot_mint);
                write_address(&mut out, yos_mint);
                write_amount(&mut out, *stake_rate_per_second);
                write_amount(&mut out, *harvest_threshold);
                write_amount(&mut out, *stake_threshold);
                write_amount(&mut out, *unstake_threshold);
            },
            StakingInstruction::Stake { amount } => {
                out.push(1u8);
                write_amount(&mut out, *amount);
            },
            StakingInstruction::Unstake { amount } => {
                out.push(2u8);
                write_amount(&mut out, *amount);
            },
            StakingInstruction::Harvest => {
                out.push(3u8);
            },
            StakingInstruction::UpdateParameters {
                stake_rate_per_second,
                harvest_threshold,
                stake_threshold,
                unstake_threshold,
            } => {
                out.push(4u8);
                write_optional(&mut out, *stake_rate_per_second);
                write_optional(&mut out, *harvest_threshold);
                write_optional(&mut out, *stake_threshold);
                write_optional(&mut out, *unstake_threshold);
            },
            StakingInstruction::SetAdmin { new_admin } => {
                out.push(5u8);
                write_address(&mut out, new_admin);
            },
        }
        assert(out@ =~= self.encoding());
        out
    }

    /// Reads a request from its wire form; every byte must belong to it.
    pub fn from_bytes(data: &[u8]) -> (r: Option<StakingInstruction>)
        ensures
            r == StakingInstruction::decoded(data@),
    {
        let parsed = parse_instruction(data);
        proof {
            match parsed {
                Some(instruction) => {
                    let chosen = choose|i: StakingInstruction| #[trigger] i.encoding() == data@;
                    lemma_instruction_injective(chosen, instruction);
                },
                None => {},
            }
        }
        parsed
    }
}

/// Appends the bytes of an optional amount.
pub fn write_optional(out: &mut Vec<u8>, value: Option<u64>)
    ensures
        final(out)@ == old(out)@ + optional_bytes(value),
{
    match value {
        Some(v) => {
            out.push(1u8);
            write_amount(out, v);
            assert(out@ =~= old(out)@ + optional_bytes(value));
        },
        None => {
            out.push(0u8);
            assert(out@ =~= old(out)@ + optional_bytes(value));
        },
    }
}

/// Reads the optional amount that starts at `pos`.
pub fn read_optional(data: &[u8], pos: usize) -> (r: Option<(Option<u64>, usize)>)
    ensures
        match r {
            Some((value, next)) => optional_at(data@, pos as int) == Some((value, next as int)),
            None => optional_at(data@, pos as int) is None,
        },
{
    let len: usize = data.len();
    if pos >= len {
        return None;
    }
    if data[pos] == 0 {
        Some((None, pos + 1))
    } else if data[pos] == 1 && len - pos >= 9 {
        Some((Some(read_amount(data, pos + 1)), pos + 9))
    } else {
        None
    }
}

/// Reads a request from its wire form, or finds that no request has that form.
fn parse_instruction(data: &[u8]) -> (r: Option<StakingInstruction>)
    ensures
        r matches Some(instruction) ==> instruction.encoding() == data@,
        r is None ==> forall|i: StakingInstruction| #[trigger] i.encoding() != data@,
{
    let len: usize = data.len();
    proof {
        assert forall|i: StakingInstruction| i.encoding() == data@ implies (match i {
            StakingInstruction::Initialize { .. } => data@.len() == 97 && data@[0] == 0,
            StakingInstruction::Stake { .. } => data@.len() == 9 && data@[0] == 1,
            StakingInstruction::Unstake { .. } => data@.len() == 9 && data@[0] == 2,
            StakingInstruction::Harvest => data@.len() == 1 && data@[0] == 3,
            StakingInstruction::UpdateParameters { .. } => data@.len() >= 1 && data@[0] == 4
                && update_fields(data@) is Some,
            StakingInstruction::SetAdmin { .. } => data@.len() == 33 && data@[0] == 5,
        }) by {
            lemma_instruction_fields(i);
        }
    }
    if len == 0 {
        return None;
    }
    let tag = data[0];
    if tag == 0 {
        if len != 97 {
            return None;
        }
        let instruction = StakingInstruction::Initialize {
            yot_mint: read_address(data, 1),
            yos_mint: read_address(data, 33),
            stake_rate_per_second: read_amount(data, 65),
            harvest_threshold: read_amount(data, 73),
            stake_threshold: read_amount(data, 81),
            unstake_threshold: read_amount(data, 89),
        };
        proof {
            lemma_amount_bytes(0, data@.subrange(65, 73));
            lemma_amount_bytes(0, data@.subrange(73, 81));
            lemma_amount_bytes(0, data@.subrange(81, 89));
            lemma_amount_bytes(0, data@.subrange(89, 97));
            assert(instruction.encoding() =~= data@);
        }
        Some(instruction)
    } else if tag == 1 || tag == 2 {
        if len != 9 {
            return None;
        }
        let amount = read_amount(data, 1);
        let instruction = if tag == 1 {
            StakingInstruction::Stake { amount }
        } else {
            StakingInstruction::Unstake { amount }
        };
        proof {
            lemma_amount_bytes(0, data@.subrange(1, 9));
            assert(instruction.encoding() =~= data@);
        }
        Some(instruction)
    } else if tag == 3 {
        if len != 1 {
            return None;
        }
        assert(StakingInstruction::Harvest.encoding() =~= data@);
        Some(StakingInstruction::Harvest)
    } else if tag == 4 {
        let (a, p1) = match read_optional(data, 1) {
            Some(found) => found,
            None => { return None; },
        };
        let (b, p2) = match read_optional(data, p1) {
            Some(found) => found,
            None => { return None; },
        };
        let (c, p3) = match read_optional(data, p2) {
            Some(found) => found,
            None => { return None; },
        };
        let (d, p4) = match read_optional(data, p3) {
            Some(found) => found,
            None => { return None; },
        };
        if p4 != len {
            return None;
        }
        let instruction = StakingInstruction::UpdateParameters {
            stake_rate_per_second: a,
            harvest_threshold: b,
            stake_threshold: c,
            unstake_threshold: d,
        };
        proof {
            lemma_optional_encodes(data@, 1, a, p1 as int);
            lemma_optional_encodes(data@, p1 as int, b, p2 as int);
            lemma_optional_encodes(data@, p2 as int, c, p3 as int);
            lemma_optional_encodes(data@, p3 as int, d, p4 as int);
            assert(instruction.encoding() =~= data@);
        }
        Some(instruction)
    } else if tag == 5 {
        if len != 33 {
            return None;
        }
        let instruction = StakingInstruction::SetAdmin { new_admin: read_address(data, 1) };
        assert(instruction.encoding() =~= data@);
        Some(instruction)
    } else {
        None
    }
}

/// An optional amount that was read at `pos` stands there in its bytes.
pub proof fn lemma_optional_encodes(data: Seq<u8>, pos: int, value: Option<u64>, next: int)
    requires
        optional_at(data, pos) == Some((value, next)),
    ensures
        pos < next <= data.len(),
        data.subrange(pos, next) == optional_bytes(value),
{
    match value {
        Some(v) => {
            lemma_amount_bytes(0, data.subrange(pos + 1, pos + 9));
            assert(data.subrange(pos, next) =~= seq![1u8] + data.subrange(pos + 1, pos + 9));
        },
        None => {
            assert(data.subrange(pos, next) =~= seq![0u8]);
        },
    }
}

/// An optional amount that was written between `prefix` and `suffix` is read
/// back at the end of `prefix`.
pub proof fn lemma_optional_at(prefix: Seq<u8>, value: Option<u64>, suffix: Seq<u8>)
    ensures
        optional_at(prefix + optional_bytes(value) + suffix, prefix.len() as int) == Some(
            (value, (prefix.len() + optional_bytes(value).len()) as int),
        ),
        optional_bytes(value).len() == 1 || optional_bytes(value).len() == 9,
{
    let data = prefix + optional_bytes(value) + suffix;
    let pos = prefix.len() as int;
    match value {
        Some(v) => {
            lemma_amount_bytes(v, seq![]);
            assert(data[pos] == 1);
            assert(data.subrange(pos + 1, pos + 9) =~= amount_bytes(v));
        },
        None => {
            assert(data[pos] == 0);
        },
    }
}

/// The fields of a request can be read back from its wire form.
pub proof fn lemma_instruction_fields(i: StakingInstruction)
    ensures
        match i {
            StakingInstruction::Initialize {
                yot_mint,
                yos_mint,
                stake_rate_per_second,
                harvest_threshold,
                stake_threshold,
                unstake_threshold,
            } => i.encoding().len() == 97 && i.encoding()[0] == 0 && address_at(i.encoding(), 1)
                == yot_mint@ && address_at(i.encoding(), 33) == yos_mint@ && amount_at(
                i.encoding(),
                65,
            ) == stake_rate_per_second && amount_at(i.encoding(), 73) == harvest_threshold
                && amount_at(i.encoding(), 81) == stake_threshold && amount_at(i.encoding(), 89)
                == unstake_threshold,
            StakingInstruction::Stake { amount } => i.encoding().len() == 9 && i.encoding()[0] == 1
                && amount_at(i.encoding(), 1) == amount,
            StakingInstruction::Unstake { amount } => i.encoding().len() == 9 && i.encoding()[0]
                == 2 && amount_at(i.encoding(), 1) == amount,
            StakingInstruction::Harvest => i.encoding().len() == 1 && i.encoding()[0] == 3,
            StakingInstruction::UpdateParameters {
                stake_rate_per_second,
                harvest_threshold,
                stake_threshold,
                unstake_threshold,
            } => i.encoding().len() >= 1 && i.encoding()[0] == 4 && update_fields(i.encoding())
                == Some(
                (stake_rate_per_second, harvest_threshold, stake_threshold, unstake_threshold),
            ),
            StakingInstruction::SetAdmin { new_admin } => i.encoding().len() == 33 && i.encoding()[0]
                == 5 && address_at(i.encoding(), 1) == new_admin@,
        },
{
    let e = i.encoding();
    match i {
        StakingInstruction::Initialize {
            yot_mint,
            yos_mint,
            stake_rate_per_second,
            harvest_threshold,
            stake_threshold,
            unstake_threshold,
        } => {
            lemma_address_ext(yot_mint, yos_mint);
            lemma_address_ext(yos_mint, yot_mint);
            lemma_amount_bytes(stake_rate_per_second, seq![]);
            lemma_amount_bytes(harvest_threshold, seq![]);
            lemma_amount_bytes(stake_threshold, seq![]);
            lemma_amount_bytes(unstake_threshold, seq![]);
            assert(e.subrange(1, 33) =~= yot_mint@);
            assert(e.subrange(33, 65) =~= yos_mint@);
            assert(e.subrange(65, 73) =~= amount_bytes(stake_rate_per_second));
            assert(e.subrange(73, 81) =~= amount_bytes(harvest_threshold));
            assert(e.subrange(81, 89) =~= amount_bytes(stake_threshold));
            assert(e.subrange(89, 97) =~= amount_bytes(unstake_threshold));
        },
        StakingInstruction::Stake { amount } => {
            lemma_amount_bytes(amount, seq![]);
            assert(e.subrange(1, 9) =~= amount_bytes(amount));
        },
        StakingInstruction::Unstake { amount } => {
            lemma_amount_bytes(amount, seq![]);
            assert(e.subrange(1, 9) =~= amount_bytes(amount));
        },
        StakingInstruction::Harvest => {},
        StakingInstruction::UpdateParameters {
            stake_rate_per_second,
            harvest_threshold,
            stake_threshold,
            unstake_threshold,
        } => {
            let a = optional_bytes(stake_rate_per_second);
            let b = optional_bytes(harvest_threshold);
            let c = optional_bytes(stake_threshold);
            let d = optional_bytes(unstake_threshold);
            let tag = seq![4u8];
            lemma_optional_at(tag, stake_rate_per_second, b + c + d);
            assert(e =~= tag + a + (b + c + d));
            lemma_optional_at(tag + a, harvest_threshold, c + d);
            assert(e =~= (tag + a) + b + (c + d));
            lemma_optional_at(tag + a + b, stake_threshold, d);
            assert(e =~= (tag + a + b) + c + d);
            lemma_optional_at(tag + a + b + c, unstake_threshold, seq![]);
            assert(e =~= (tag + a + b + c) + d + seq![]);
        },
        StakingInstruction::SetAdmin { new_admin } => {
            lemma_address_ext(new_admin, new_admin);
            assert(e.subrange(1, 33) =~= new_admin@);
        },
    }
}

/// Two requests with the same wire form are the same request.
pub proof fn lemma_instruction_injective(a: StakingInstruction, b: StakingInstruction)
    requires
        a.encoding() == b.encoding(),
    ensures
        a == b,
{
    lemma_instruction_fields(a);
    lemma_instruction_fields(b);
    match (a, b) {
        (
            StakingInstruction::Initialize { yot_mint: m1, yos_mint: s1, .. },
            StakingInstruction::Initialize { yot_mint: m2, yos_mint: s2, .. },
        ) => {
            lemma_address_ext(m1, m2);
            lemma_address_ext(s1, s2);
        },
        (
            StakingInstruction::SetAdmin { new_admin: n1 },
            StakingInstruction::SetAdmin { new_admin: n2 },
        ) => {
            lemma_address_ext(n1, n2);
        },
        _ => {},
    }
}

/// A request that is written and read back is unchanged.
pub proof fn lemma_instruction_roundtrip(i: StakingInstruction)
    ensures
        StakingInstruction::decoded(i.encoding()) == Some(i),
{
    let chosen = choose|x: StakingInstruction| #[trigger] x.encoding() == i.encoding();
    lemma_instruction_injective(chosen, i);
}

} // verus!
