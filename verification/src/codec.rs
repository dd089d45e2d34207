use crate::address::Address;
use vstd::bytes::{
    spec_u16_from_le_bytes, spec_u16_to_le_bytes, spec_u64_from_le_bytes, spec_u64_to_le_bytes,
    u16_from_le_bytes, u16_to_le_bytes, u64_from_le_bytes, u64_to_le_bytes,
};
use vstd::prelude::*;
use vstd::slice::slice_subrange;

verus! {

/// The unsigned 64-bit pattern that stands for a signed timestamp (two's complement).
pub open spec fn timestamp_bits(t: i64) -> u64 {
    if t >= 0 {
        t as u64
    } else {
        (t + 0x1_0000_0000_0000_0000) as u64
    }
}

/// The signed timestamp that a 64-bit pattern stands for.
pub open spec fn bits_timestamp(u: u64) -> i64 {
    if u <= 0x7fff_ffff_ffff_ffff {
        u as i64
    } else {
        (u - 0x1_0000_0000_0000_0000) as i64
    }
}

/// Little-endian bytes of an unsigned amount.
pub open spec fn amount_bytes(x: u64) -> Seq<u8> {
    spec_u64_to_le_bytes(x)
}

/// Little-endian bytes of a signed timestamp.
pub open spec fn timestamp_bytes(t: i64) -> Seq<u8> {
    spec_u64_to_le_bytes(timestamp_bits(t))
}

/// The unsigned amount stored at `offset`.
pub open spec fn amount_at(data: Seq<u8>, offset: int) -> u64 {
    spec_u64_from_le_bytes(data.subrange(offset, offset + 8))
}

/// The signed timestamp stored at `offset`.
pub open spec fn timestamp_at(data: Seq<u8>, offset: int) -> i64 {
    bits_timestamp(amount_at(data, offset))
}

/// The thirty-two identity bytes stored at `offset`.
pub open spec fn address_at(data: Seq<u8>, offset: int) -> Seq<u8> {
    data.subrange(offset, offset + 32)
}

/// Signed timestamps and their bit patterns correspond one to one.
pub proof fn lemma_timestamp_bits(t: i64, u: u64)
    ensures
        bits_timestamp(timestamp_bits(t)) == t,
        timestamp_bits(bits_timestamp(u)) == u,
{
}

/// An amount survives being written and read back, and eight bytes read as an
/// amount are written back unchanged.
pub proof fn lemma_amount_bytes(x: u64, s: Seq<u8>)
    ensures
        amount_bytes(x).len() == 8,
        spec_u64_from_le_bytes(amount_bytes(x)) == x,
        s.len() == 8 ==> amount_bytes(spec_u64_from_le_bytes(s)) == s,
{
    vstd::bytes::lemma_auto_spec_u64_to_from_le_bytes();
}

/// Bit pattern of a signed timestamp.
pub fn timestamp_to_bits(t: i64) -> (u: u64)
    ensures
        u == timestamp_bits(t),
{
    if t >= 0 {
        t as u64
    } else {
        (t as i128 + 0x1_0000_0000_0000_0000i128) as u64
    }
}

/// Signed timestamp of a bit pattern.
pub fn timestamp_from_bits(u: u64) -> (t: i64)
    ensures
        t == bits_timestamp(u),
{
    if u <= 0x7fff_ffff_ffff_ffffu64 {
        u as i64
    } else {
        (u as i128 - 0x1_0000_0000_0000_0000i128) as i64
    }
}

/// Reads the amount stored at `offset`.
pub fn read_amount(data: &[u8], offset: usize) -> (x: u64)
    requires
        offset + 8 <= data@.len(),
    ensures
        x == amount_at(data@, offset as int),
{
    let len: usize = data.len();
    assert(offset + 8 <= len);
    u64_from_le_bytes(slice_subrange(data, offset, offset + 8))
}

/// Reads the timestamp stored at `offset`.
pub fn read_timestamp(data: &[u8], offset: usize) -> (t: i64)
    requires
        offset + 8 <= data@.len(),
    ensures
        t == timestamp_at(data@, offset as int),
{
    timestamp_from_bits(read_amount(data, offset))
}

/// Reads the identity stored at `offset`.
pub fn read_address(data: &[u8], offset: usize) -> (a: Address)
    requires
        offset + 32 <= data@.len(),
    ensures
        a@ == address_at(data@, offset as int),
{
    let len: usize = data.len();
    let mut bytes: [u8; 32] = [0u8; 32];
    let mut i: usize = 0;
    while i < 32
        invariant
            i <= 32,
            offset + 32 <= len,
            len == data@.len(),
            bytes@.len() == 32,
            forall|j: int| 0 <= j < i ==> bytes@[j] == data@[offset + j],
        decreases 32 - i,
    {
        bytes[i] = data[offset + i];
        i += 1;
    }
    assert(bytes@ =~= data@.subrange(offset as int, offset + 32));
    Address::new(bytes)
}

/// Appends the little-endian bytes of an amount.
pub fn write_amount(out: &mut Vec<u8>, x: u64)
    ensures
        final(out)@ == old(out)@ + amount_bytes(x),
        final(out)@.len() == old(out)@.len() + 8,
{
    let mut bytes = u64_to_le_bytes(x);
    out.append(&mut bytes);
}

/// Appends the little-endian bytes of a timestamp.
pub fn write_timestamp(out: &mut Vec<u8>, t: i64)
    ensures
        final(out)@ == old(out)@ + timestamp_bytes(t),
        final(out)@.len() == old(out)@.len() + 8,
{
    write_amount(out, timestamp_to_bits(t));
}

/// Appends the thirty-two bytes of an identity.
pub fn write_address(out: &mut Vec<u8>, a: &Address)
    ensures
        final(out)@ == old(out)@ + a@,
        final(out)@.len() == old(out)@.len() + 32,
{
    let mut i: usize = 0;
    while i < 32
        invariant
            i <= 32,
            a@.len() == 32,
            out@ == old(out)@ + a@.subrange(0, i as int),
        decreases 32 - i,
    {
        out.push(a.bytes[i]);
        assert(a@.subrange(0, i + 1) =~= a@.subrange(0, i as int).push(a@[i as int]));
        i += 1;
    }
    assert(a@.subrange(0, 32) =~= a@);
}

/// Little-endian bytes of a rate in basis points.
pub open spec fn rate_bytes(x: u16) -> Seq<u8> {
    spec_u16_to_le_bytes(x)
}

/// The rate in basis points stored at `offset`.
pub open spec fn rate_at(data: Seq<u8>, offset: int) -> u16 {
    spec_u16_from_le_bytes(data.subrange(offset, offset + 2))
}

/// A rate survives being written and read back, and two bytes read as a rate
/// are written back unchanged.
pub proof fn lemma_rate_bytes(x: u16, s: Seq<u8>)
    ensures
        rate_bytes(x).len() == 2,
        spec_u16_from_le_bytes(rate_bytes(x)) == x,
        s.len() == 2 ==> rate_bytes(spec_u16_from_le_bytes(s)) == s,
{
    vstd::bytes::lemma_auto_spec_u16_to_from_le_bytes();
}

/// Reads the rate stored at `offset`.
pub fn read_rate(data: &[u8], offset: usize) -> (x: u16)
    requires
        offset + 2 <= data@.len(),
    ensures
        x == rate_at(data@, offset as int),
{
    let len: usize = data.len();
    assert(offset + 2 <= len);
    u16_from_le_bytes(slice_subrange(data, offset, offset + 2))
}

/// Appends the little-endian bytes of a rate.
pub fn write_rate(out: &mut Vec<u8>, x: u16)
    ensures
        final(out)@ == old(out)@ + rate_bytes(x),
        final(out)@.len() == old(out)@.len() + 2,
{
    let mut bytes = u16_to_le_bytes(x);
    out.append(&mut bytes);
}

} // verus!
