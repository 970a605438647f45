//! Little-endian byte layout of half-words and words, as sequences of bytes.

use vstd::prelude::*;

verus! {

/// The half-word whose low byte is `b0` and high byte is `b1`.
pub open spec fn le_u16(b0: u8, b1: u8) -> u16 {
    ((b1 as u16) << 8u16) | (b0 as u16)
}

/// The word whose bytes, from least to most significant, are `b0`, `b1`, `b2`, `b3`.
pub open spec fn le_u32(b0: u8, b1: u8, b2: u8, b3: u8) -> u32 {
    ((b3 as u32) << 24u32) | ((b2 as u32) << 16u32) | ((b1 as u32) << 8u32) | (b0 as u32)
}

/// The byte at `address`.
pub open spec fn read_u8(bytes: Seq<u8>, address: int) -> u8 {
    bytes[address]
}

/// The half-word stored little-endian at `address`.
pub open spec fn read_u16(bytes: Seq<u8>, address: int) -> u16 {
    le_u16(bytes[address], bytes[address + 1])
}

/// The word stored little-endian at `address`.
pub open spec fn read_u32(bytes: Seq<u8>, address: int) -> u32 {
    le_u32(bytes[address], bytes[address + 1], bytes[address + 2], bytes[address + 3])
}

/// `bytes` with `value` stored at `address`.
pub open spec fn write_u8(bytes: Seq<u8>, address: int, value: u8) -> Seq<u8> {
    bytes.update(address, value)
}

/// `bytes` with `value` stored little-endian at `address`.
pub open spec fn write_u16(bytes: Seq<u8>, address: int, value: u16) -> Seq<u8> {
    bytes.update(address, value as u8).update(address + 1, (value >> 8u16) as u8)
}

/// `bytes` with `value` stored little-endian at `address`.
pub open spec fn write_u32(bytes: Seq<u8>, address: int, value: u32) -> Seq<u8> {
    bytes.update(address, value as u8).update(address + 1, (value >> 8u32) as u8).update(
        address + 2,
        (value >> 16u32) as u8,
    ).update(address + 3, (value >> 24u32) as u8)
}

/// Splitting a half-word into its two bytes and joining them again gives it back.
pub proof fn lemma_le_u16_of_bytes(v: u16)
    ensures
        le_u16(v as u8, (v >> 8u16) as u8) == v,
{
    assert((((v >> 8u16) as u8) as u16) << 8u16 | ((v as u8) as u16) == v) by (bit_vector);
}

/// Splitting a word into its four bytes and joining them again gives it back.
pub proof fn lemma_le_u32_of_bytes(v: u32)
    ensures
        le_u32(v as u8, (v >> 8u32) as u8, (v >> 16u32) as u8, (v >> 24u32) as u8) == v,
{
    assert((((v >> 24u32) as u8) as u32) << 24u32 | (((v >> 16u32) as u8) as u32) << 16u32 | (((
    v >> 8u32) as u8) as u32) << 8u32 | ((v as u8) as u32) == v) by (bit_vector);
}

/// Round trip at byte granularity: a byte written at `address` reads back unchanged.
pub proof fn lemma_write_read_u8(bytes: Seq<u8>, address: int, value: u8)
    requires
        0 <= address < bytes.len(),
    ensures
        read_u8(write_u8(bytes, address, value), address) == value,
        write_u8(bytes, address, value).len() == bytes.len(),
{
}

/// Round trip at half-word granularity: a half-word written at `address` reads back unchanged.
pub proof fn lemma_write_read_u16(bytes: Seq<u8>, address: int, value: u16)
    requires
        0 <= address,
        address + 2 <= bytes.len(),
    ensures
        read_u16(write_u16(bytes, address, value), address) == value,
        write_u16(bytes, address, value).len() == bytes.len(),
{
    lemma_le_u16_of_bytes(value);
}

/// Round trip at word granularity: a word written at `address` reads back unchanged.
pub proof fn lemma_write_read_u32(bytes: Seq<u8>, address: int, value: u32)
    requires
        0 <= address,
        address + 4 <= bytes.len(),
    ensures
        read_u32(write_u32(bytes, address, value), address) == value,
        write_u32(bytes, address, value).len() == bytes.len(),
{
    lemma_le_u32_of_bytes(value);
}

/// Sub-fields of a stored word, as the narrower reads see them: the half-word at
/// `address` is its low half, the half-word at `address + 2` its high half, and
/// the byte at `address + 3` its top byte.
pub proof fn lemma_word_subfields(bytes: Seq<u8>, address: int, value: u32)
    requires
        0 <= address,
        address + 4 <= bytes.len(),
    ensures
        read_u16(write_u32(bytes, address, value), address) == value as u16,
        read_u16(write_u32(bytes, address, value), address + 2) == (value >> 16u32) as u16,
        read_u8(write_u32(bytes, address, value), address) == value as u8,
        read_u8(write_u32(bytes, address, value), address + 3) == (value >> 24u32) as u8,
{
    assert((((value >> 8u32) as u8) as u16) << 8u16 | ((value as u8) as u16) == value as u16)
        by (bit_vector);
    assert((((value >> 24u32) as u8) as u16) << 8u16 | (((value >> 16u32) as u8) as u16) == (value
        >> 16u32) as u16) by (bit_vector);
}

} // verus!
