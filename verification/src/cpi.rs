use crate::account::{MintOrder, TransferOrder};
use crate::address::Address;
use crate::codec::amount_bytes;
use crate::token::is_token_program;
use solana_program::pubkey::Pubkey;
use vstd::prelude::*;

verus! {

/// One account that an instruction names, with what the instruction may do to it.
#[derive(Clone, Copy, Debug, PartialEq, Eq)]
pub struct AccountRole {
    pub key: Address,
    pub is_signer: bool,
    pub is_writable: bool,
}

/// An instruction for another program, ready for the host to invoke.
#[derive(Clone, Debug, PartialEq, Eq)]
pub struct CrossProgramInstruction {
    pub program_id: Address,
    pub accounts: Vec<AccountRole>,
    pub data: Vec<u8>,
}

/// The accounts of a token instruction that moves or mints: the first two may
/// be written, the third authorizes by its signature.
pub open spec fn token_roles(first: Address, second: Address, authority: Address) -> Seq<AccountRole> {
    seq![
        AccountRole { key: first, is_signer: false, is_writable: true },
        AccountRole { key: second, is_signer: false, is_writable: true },
        AccountRole { key: authority, is_signer: true, is_writable: false },
    ]
}

/// The bytes of a token instruction: its tag, then the amount, little-endian.
pub open spec fn token_data(tag: u8, amount: u64) -> Seq<u8> {
    seq![tag] + amount_bytes(amount)
}

/// Tag of the token program's transfer instruction.
pub const TRANSFER_TAG: u8 = 3;

/// Tag of the token program's mint instruction.
pub const MINT_TO_TAG: u8 = 7;

/// Calls `instruction::transfer` of spl_token without further signers and
/// copies what it built. The contract claims that it builds an instruction
/// exactly for the token program's own identity, addressed to that program,
/// naming source and destination as writable and the authority as a read-only
/// signer, with tag 3 and the amount as its bytes.
#[verifier::external_body]
fn token_transfer(token_program: &Address, order: &TransferOrder) -> (r: Option<
    CrossProgramInstruction,
>)
    ensures
        r is Some <==> is_token_program(token_program@),
        r matches Some(built) ==> built.program_id == *token_program && built.accounts@
            == token_roles(order.source, order.destination, order.authority) && built.data@
            == token_data(TRANSFER_TAG, order.amount),
{
    let (program, authority) = (Pubkey::from(token_program.bytes), Pubkey::from(order.authority.bytes));
    let (from, to) = (Pubkey::from(order.source.bytes), Pubkey::from(order.destination.bytes));
    let built = spl_token::instruction::transfer(&program, &from, &to, &authority, &[], order.amount);
    built.ok().map(|built| CrossProgramInstruction {
        program_id: Address { bytes: built.program_id.to_bytes() },
        accounts: built.accounts.iter().map(|meta| AccountRole {
            key: Address { bytes: meta.pubkey.to_bytes() },
            is_signer: meta.is_signer,
            is_writable: meta.is_writable,
        }).collect(),
        data: built.data,
    })
}

/// Calls `instruction::mint_to` of spl_token without further signers and
/// copies what it built. The contract claims that it builds an instruction
/// exactly for the token program's own identity, addressed to that program,
/// naming mint and destination as writable and the authority as a read-only
/// signer, with tag 7 and the amount as its bytes.
#[verifier::external_body]
fn token_mint_to(token_program: &Address, order: &MintOrder) -> (r: Option<CrossProgramInstruction>)
    ensures
        r is Some <==> is_token_program(token_program@),
        r matches Some(built) ==> built.program_id == *token_program && built.accounts@
            == token_roles(order.mint, order.destination, order.authority) && built.data@
            == token_data(MINT_TO_TAG, order.amount),
{
    let (program, authority) = (Pubkey::from(token_program.bytes), Pubkey::from(order.authority.bytes));
    let (mint, to) = (Pubkey::from(order.mint.bytes), Pubkey::from(order.destination.bytes));
    let built = spl_token::instruction::mint_to(&program, &mint, &to, &authority, &[], order.amount);
    built.ok().map(|built| CrossProgramInstruction {
        program_id: Address { bytes: built.program_id.to_bytes() },
        accounts: built.accounts.iter().map(|meta| AccountRole {
            key: Address { bytes: meta.pubkey.to_bytes() },
            is_signer: meta.is_signer,
            is_writable: meta.is_writable,
        }).collect(),
        data: built.data,
    })
}

/// Builds the token program's instruction for a transfer that was ordered;
/// `None` where `token_program` is not the token program.
pub fn transfer_instruction(token_program: &Address, order: &TransferOrder) -> (r: Option<
    CrossProgramInstruction,
>)
    ensures
        r is Some <==> is_token_program(token_program@),
        r matches Some(built) ==> built.program_id == *token_program && built.accounts@
            == token_roles(order.source, order.destination, order.authority) && built.data@
            == token_data(TRANSFER_TAG, order.amount),
{
    token_transfer(token_program, order)
}

/// Builds the token program's instruction for a minting that was ordered;
/// `None` where `token_program` is not the token program.
pub fn mint_instruction(token_program: &Address, order: &MintOrder) -> (r: Option<
    CrossProgramInstruction,
>)
    ensures
        r is Some <==> is_token_program(token_program@),
        r matches Some(built) ==> built.program_id == *token_program && built.accounts@
            == token_roles(order.mint, order.destination, order.authority) && built.data@
            == token_data(MINT_TO_TAG, order.amount),
{
    token_mint_to(token_program, order)
}

} // verus!
