use crate::address::Address;
use vstd::prelude::*;

verus! {

/// One entry of the account list that comes with a request.
#[derive(Clone, Debug, PartialEq, Eq)]
pub struct AccountEntry {
    /// The address of the account.
    pub key: Address,
    /// The program that owns the account.
    pub owner: Address,
    /// Whether the account signed the request.
    pub is_signer: bool,
    /// Whether the request may change the account.
    pub is_writable: bool,
    /// The bytes that the account holds.
    pub data: Vec<u8>,
}

/// A custodial transfer that the host is to carry out.
#[derive(Clone, Copy, Debug, PartialEq, Eq)]
pub struct TransferOrder {
    /// The balance that is debited.
    pub source: Address,
    /// The balance that is credited.
    pub destination: Address,
    /// Who authorizes the debit.
    pub authority: Address,
    /// Raw units to move.
    pub amount: u64,
    /// The bump of the derived authority where the program signs itself,
    /// `None` where the caller's signature authorizes the debit.
    pub bump: Option<u8>,
}

/// An order to mint reward tokens, signed by the program's derived authority.
#[derive(Clone, Copy, Debug, PartialEq, Eq)]
pub struct MintOrder {
    pub mint: Address,
    pub destination: Address,
    pub authority: Address,
    pub amount: u64,
    pub bump: u8,
}

} // verus!
