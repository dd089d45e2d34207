use crate::account::AccountEntry;
use crate::address::Address;
use crate::codec::{address_at, amount_at};
use solana_program::program_pack::Pack;
use solana_program::pubkey::Pubkey;
use vstd::prelude::*;

verus! {

/// Length in bytes of a token balance as the token program stores it.
pub const TOKEN_ACCOUNT_LEN: usize = 165;

/// What the settlement rules read of a custodial token balance.
#[derive(Clone, Copy, Debug, PartialEq, Eq)]
pub struct TokenAccount {
    /// The token that the balance is held in.
    pub mint: Address,
    /// Who may move the balance.
    pub owner: Address,
    /// The balance in raw units.
    pub amount: u64,
}

/// The identity of the token program, `TokenkegQfeZyiNwAJbNbGKPFXCWuBvf9Ss623VQ5DA`
/// in the usual base-58 notation.
pub const TOKEN_PROGRAM_ID: [u8; 32] = [
    6, 221, 246, 225, 215, 101, 161, 147, 217, 203, 225, 70, 206, 235, 121, 172,
    28, 180, 133, 237, 95, 91, 55, 145, 58, 140, 245, 133, 126, 255, 0, 169,
];

/// Whether `id` is the identity of the token program.
pub open spec fn is_token_program(id: Seq<u8>) -> bool {
    id == TOKEN_PROGRAM_ID@
}

/// Whether the four bytes at `offset` mark an optional field as absent
/// (0, 0, 0, 0) or present (1, 0, 0, 0).
pub open spec fn option_tag_ok(data: Seq<u8>, offset: int) -> bool {
    (data[offset] == 0 || data[offset] == 1) && data[offset + 1] == 0 && data[offset + 2] == 0
        && data[offset + 3] == 0
}

/// Whether the token program reads `data` as an initialized token balance: it
/// has `TOKEN_ACCOUNT_LEN` bytes, the tags of its three optional fields
/// (delegate at 72, native reserve at 109, close authority at 129) are well
/// formed, and its state byte at 108 says initialized (1) or frozen (2).
pub open spec fn token_account_accepted(data: Seq<u8>) -> bool {
    &&& data.len() == TOKEN_ACCOUNT_LEN
    &&& option_tag_ok(data, 72)
    &&& (data[108] == 1 || data[108] == 2)
    &&& option_tag_ok(data, 109)
    &&& option_tag_ok(data, 129)
}

/// Mint, owner and amount of the initialized token balance that `data` holds:
/// the mint in the first 32 bytes, the owner in the next 32, the amount,
/// little-endian, in the 8 after those; `None` where `data` is not accepted.
pub open spec fn unpacked_token_account(data: Seq<u8>) -> Option<(Seq<u8>, Seq<u8>, u64)> {
    if token_account_accepted(data) {
        Some((address_at(data, 0), address_at(data, 32), amount_at(data, 64)))
    } else {
        None
    }
}

/// A token balance by its plain values.
pub open spec fn token_account_view(account: Option<TokenAccount>) -> Option<(Seq<u8>, Seq<u8>, u64)> {
    match account {
        Some(account) => Some((account.mint@, account.owner@, account.amount)),
        None => None,
    }
}

/// Calls `Account::unpack` of spl_token and keeps mint, owner and amount. The
/// contract claims that it accepts exactly the bytes that
/// `token_account_accepted` describes, and reads the three fields from the
/// places that `unpacked_token_account` names.
#[verifier::external_body]
fn unpack_token_account(data: &[u8]) -> (r: Option<TokenAccount>)
    ensures
        token_account_view(r) == unpacked_token_account(data@),
{
    match spl_token::state::Account::unpack(data) {
        Ok(account) => Some(
            TokenAccount {
                mint: Address { bytes: account.mint.to_bytes() },
                owner: Address { bytes: account.owner.to_bytes() },
                amount: account.amount,
            },
        ),
        Err(_) => None,
    }
}

/// Calls `check_program_account` of spl_token. The contract claims that it
/// accepts exactly the identity that spl_token declares as its own, which is
/// `TOKEN_PROGRAM_ID`.
#[verifier::external_body]
fn check_token_program(id: &Address) -> (r: bool)
    ensures
        r == is_token_program(id@),
{
    spl_token::check_program_account(&Pubkey::new_from_array(id.bytes)).is_ok()
}

impl TokenAccount {
    /// Reads a token balance from the bytes that the token program stored.
    pub fn unpack(data: &[u8]) -> (r: Option<TokenAccount>)
        ensures
            token_account_view(r) == unpacked_token_account(data@),
            r is Some <==> token_account_accepted(data@),
    {
        unpack_token_account(data)
    }
}

/// Whether `id` names the token program.
pub fn token_program_matches(id: &Address) -> (r: bool)
    ensures
        r == is_token_program(id@),
{
    check_token_program(id)
}

/// The token balance that the account at `index` holds, as the token program
/// reads it; `None` where the list is too short.
pub open spec fn token_account_at(accounts: Seq<AccountEntry>, index: int) -> Option<
    (Seq<u8>, Seq<u8>, u64),
> {
    if 0 <= index < accounts.len() {
        unpacked_token_account(accounts[index].data@)
    } else {
        None
    }
}

/// Reads the token balance that the account at `index` holds.
pub fn read_token_account(accounts: &[AccountEntry], index: usize) -> (r: Option<TokenAccount>)
    ensures
        token_account_view(r) == token_account_at(accounts@, index as int),
{
    if index < accounts.len() {
        TokenAccount::unpack(accounts[index].data.as_slice())
    } else {
        None
    }
}

/// The mint of a token balance that was read; empty where none was.
pub open spec fn balance_mint(balance: Option<(Seq<u8>, Seq<u8>, u64)>) -> Seq<u8> {
    match balance {
        Some((mint, _, _)) => mint,
        None => Seq::empty(),
    }
}

/// The owner of a token balance that was read; empty where none was.
pub open spec fn balance_owner(balance: Option<(Seq<u8>, Seq<u8>, u64)>) -> Seq<u8> {
    match balance {
        Some((_, owner, _)) => owner,
        None => Seq::empty(),
    }
}

/// The amount of a token balance that was read; nothing where none was.
pub open spec fn balance_amount(balance: Option<(Seq<u8>, Seq<u8>, u64)>) -> u64 {
    match balance {
        Some((_, _, amount)) => amount,
        None => 0,
    }
}

} // verus!
