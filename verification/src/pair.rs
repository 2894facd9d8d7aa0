//! A guest pointer and a length, packed into one 64-bit word.

use vstd::prelude::*;

verus! {

/// An offset into the guest's linear memory.
pub type GuestPtr = u32;

/// A count of bytes in the guest's linear memory.
pub type Len = u32;

/// The word that carries a pointer in its high half and a length in its low half.
pub type GuestPtrLen = u64;

/// Two to the power of 32: the weight of the pointer inside a packed word.
pub open spec fn half_word() -> int {
    0x1_0000_0000
}

/// The word that stands for the byte range of `len` bytes at `ptr`.
pub open spec fn pair_word(ptr: GuestPtr, len: Len) -> int {
    ptr as int * half_word() + len as int
}

/// The pointer that a packed word carries.
pub open spec fn word_ptr(word: GuestPtrLen) -> int {
    word as int / half_word()
}

/// The length that a packed word carries.
pub open spec fn word_len(word: GuestPtrLen) -> int {
    word as int % half_word()
}

/// Packs a pointer and a length into one word. Every pair has a word.
pub fn encode_pair(ptr: GuestPtr, len: Len) -> (word: GuestPtrLen)
    ensures
        word == pair_word(ptr, len),
{
    let high: u64 = ptr as u64;
    let low: u64 = len as u64;
    assert((high << 32) | low == high * 0x1_0000_0000 + low) by (bit_vector)
        requires
            high <= 0xffff_ffff,
            low <= 0xffff_ffff,
    ;
    (high << 32) | low
}

/// Unpacks a word into its pointer and its length. Every word has a pair;
/// nothing is said here of the bytes that the pair points at.
pub fn decode_pair(word: GuestPtrLen) -> (pair: (GuestPtr, Len))
    ensures
        pair.0 == word_ptr(word),
        pair.1 == word_len(word),
{
    assert(word >> 32 == word / 0x1_0000_0000) by (bit_vector);
    assert(word & 0xffff_ffff == word % 0x1_0000_0000) by (bit_vector);
    ((word >> 32) as u32, (word & 0xffff_ffff) as u32)
}

/// Unpacking undoes packing: the word of a pair carries that pointer and that
/// length, and it fits in 64 bits.
pub proof fn lemma_decode_of_encode(ptr: GuestPtr, len: Len)
    ensures
        0 <= pair_word(ptr, len) <= u64::MAX,
        word_ptr(pair_word(ptr, len) as u64) == ptr,
        word_len(pair_word(ptr, len) as u64) == len,
{
    let p: int = ptr as int;
    let l: int = len as int;
    assert(0 <= p * 0x1_0000_0000 + l <= 0xffff_ffff_ffff_ffff) by (nonlinear_arith)
        requires
            0 <= p <= 0xffff_ffff,
            0 <= l <= 0xffff_ffff,
    ;
    assert((p * 0x1_0000_0000 + l) / 0x1_0000_0000 == p && (p * 0x1_0000_0000 + l)
        % 0x1_0000_0000 == l) by (nonlinear_arith)
        requires
            0 <= p,
            0 <= l < 0x1_0000_0000,
    ;
}

/// Packing undoes unpacking: a word is the word of the pair that it carries.
pub proof fn lemma_encode_of_decode(word: GuestPtrLen)
    ensures
        0 <= word_ptr(word) <= u32::MAX,
        0 <= word_len(word) <= u32::MAX,
        pair_word(word_ptr(word) as u32, word_len(word) as u32) == word,
{
    let w: int = word as int;
    assert(0 <= w / 0x1_0000_0000 <= 0xffff_ffff && 0 <= w % 0x1_0000_0000 <= 0xffff_ffff && (w
        / 0x1_0000_0000) * 0x1_0000_0000 + w % 0x1_0000_0000 == w) by (nonlinear_arith)
        requires
            0 <= w <= 0xffff_ffff_ffff_ffff,
    ;
}

/// Two pairs with one word are one pair.
pub proof fn lemma_pair_word_injective(ptr: GuestPtr, len: Len, other_ptr: GuestPtr, other_len: Len)
    requires
        pair_word(ptr, len) == pair_word(other_ptr, other_len),
    ensures
        ptr == other_ptr,
        len == other_len,
{
    lemma_decode_of_encode(ptr, len);
    lemma_decode_of_encode(other_ptr, other_len);
}

} // verus!
