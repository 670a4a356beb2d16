//! Words and their bytes.
//!
//! The bridge moves the channels of a pixel but never computes with them, so
//! a channel is held as the word that encodes it: 32 bits or 16 bits wide,
//! according to the pixel encoding. In a byte buffer the least significant
//! byte of a word comes first.
//!
//! Bytes become 16-bit words, and 16-bit words bytes, through `bytemuck`;
//! 32-bit words are put together from two 16-bit words.

use vstd::arithmetic::div_mod::lemma_fundamental_div_mod_converse;
use vstd::prelude::*;
use vstd::slice::slice_subrange;

verus! {

/// The 32-bit word whose bytes, least significant first, are `bytes`.
pub open spec fn word_of_bytes(bytes: Seq<u8>) -> u32
    recommends
        bytes.len() == 4,
{
    (bytes[0] + 0x100 * bytes[1] + 0x1_0000 * bytes[2] + 0x100_0000 * bytes[3]) as u32
}

/// The four bytes of a 32-bit word, least significant first.
pub open spec fn bytes_of_word(word: u32) -> Seq<u8> {
    seq![
        (word % 0x100) as u8,
        (word / 0x100 % 0x100) as u8,
        (word / 0x1_0000 % 0x100) as u8,
        (word / 0x100_0000) as u8,
    ]
}

/// The 16-bit word whose bytes, least significant first, are `bytes`.
pub open spec fn half_word_of_bytes(bytes: Seq<u8>) -> u16
    recommends
        bytes.len() == 2,
{
    (bytes[0] + 0x100 * bytes[1]) as u16
}

/// The two bytes of a 16-bit word, least significant first.
pub open spec fn bytes_of_half_word(word: u16) -> Seq<u8> {
    seq![(word % 0x100) as u8, (word / 0x100) as u8]
}

/// The bytes of a 32-bit word are four, and they are the bytes of no other
/// word.
pub proof fn lemma_word_of_its_bytes(word: u32)
    ensures
        bytes_of_word(word).len() == 4,
        word_of_bytes(bytes_of_word(word)) == word,
{
    let w = word as int;
    let q1 = w / 0x100;
    let q2 = q1 / 0x100;
    let q3 = q2 / 0x100;
    assert(w == 0x100 * q1 + w % 0x100);
    assert(q1 == 0x100 * q2 + q1 % 0x100);
    assert(q2 == 0x100 * q3 + q2 % 0x100);
    lemma_fundamental_div_mod_converse(w, 0x1_0000, q2, 0x100 * (q1 % 0x100) + w % 0x100);
    lemma_fundamental_div_mod_converse(
        w,
        0x100_0000,
        q3,
        0x1_0000 * (q2 % 0x100) + 0x100 * (q1 % 0x100) + w % 0x100,
    );
}

/// Four bytes are the bytes of their 32-bit word.
pub proof fn lemma_bytes_of_their_word(bytes: Seq<u8>)
    requires
        bytes.len() == 4,
    ensures
        bytes_of_word(word_of_bytes(bytes)) == bytes,
{
    let b0 = bytes[0] as int;
    let b1 = bytes[1] as int;
    let b2 = bytes[2] as int;
    let b3 = bytes[3] as int;
    let w = b0 + 0x100 * b1 + 0x1_0000 * b2 + 0x100_0000 * b3;
    lemma_fundamental_div_mod_converse(w, 0x100, b1 + 0x100 * b2 + 0x1_0000 * b3, b0);
    lemma_fundamental_div_mod_converse(w, 0x1_0000, b2 + 0x100 * b3, b0 + 0x100 * b1);
    lemma_fundamental_div_mod_converse(w, 0x100_0000, b3, b0 + 0x100 * b1 + 0x1_0000 * b2);
    lemma_fundamental_div_mod_converse(b1 + 0x100 * b2 + 0x1_0000 * b3, 0x100, b2 + 0x100 * b3, b1);
    lemma_fundamental_div_mod_converse(b2 + 0x100 * b3, 0x100, b3, b2);
    assert(bytes_of_word(word_of_bytes(bytes)) =~= bytes);
}

/// The bytes of a 16-bit word are two, and they are the bytes of no other
/// word.
pub proof fn lemma_half_word_of_its_bytes(word: u16)
    ensures
        bytes_of_half_word(word).len() == 2,
        half_word_of_bytes(bytes_of_half_word(word)) == word,
{
}

/// Two bytes are the bytes of their 16-bit word.
pub proof fn lemma_bytes_of_their_half_word(bytes: Seq<u8>)
    requires
        bytes.len() == 2,
    ensures
        bytes_of_half_word(half_word_of_bytes(bytes)) == bytes,
{
    let b0 = bytes[0] as int;
    let b1 = bytes[1] as int;
    lemma_fundamental_div_mod_converse(b0 + 0x100 * b1, 0x100, b1, b0);
    assert(bytes_of_half_word(half_word_of_bytes(bytes)) =~= bytes);
}

/// Reads a 16-bit word from two bytes with `bytemuck::pod_read_unaligned`,
/// which reads them in the machine's byte order; `u16::from_le` makes the
/// first byte the least significant on every machine.
#[verifier::external_body]
pub(crate) fn read_half_word(bytes: &[u8]) -> (word: u16)
    requires
        bytes@.len() == 2,
    ensures
        word == half_word_of_bytes(bytes@),
{
    u16::from_le(bytemuck::pod_read_unaligned(bytes))
}

/// Splits a 16-bit word into its two bytes with `bytemuck::cast`, which gives
/// them in the machine's byte order; `u16::to_le` puts the least significant
/// byte first on every machine.
#[verifier::external_body]
pub(crate) fn half_word_bytes(word: u16) -> (bytes: [u8; 2])
    ensures
        bytes@ == bytes_of_half_word(word),
{
    bytemuck::cast(word.to_le())
}

/// Reads a 32-bit word from four bytes: the first two are its low half, the
/// last two its high half.
pub(crate) fn read_word(bytes: &[u8]) -> (word: u32)
    requires
        bytes@.len() == 4,
    ensures
        word == word_of_bytes(bytes@),
{
    let low: u16 = read_half_word(slice_subrange(bytes, 0, 2));
    let high: u16 = read_half_word(slice_subrange(bytes, 2, 4));
    (low as u32) + 0x1_0000 * (high as u32)
}

/// The bytes of a 32-bit word are the bytes of its low half and then those
/// of its high half.
proof fn lemma_bytes_of_halves(word: u32)
    ensures
        bytes_of_word(word) == bytes_of_half_word((word % 0x1_0000) as u16) + bytes_of_half_word(
            (word / 0x1_0000) as u16,
        ),
{
    let w = word as int;
    let low = w % 0x1_0000;
    let high = w / 0x1_0000;
    let b0 = w % 0x100;
    let b1 = w / 0x100 % 0x100;
    assert(w == 0x100 * (w / 0x100) + b0);
    assert(w / 0x100 == 0x100 * (w / 0x100 / 0x100) + b1);
    assert(w == 0x1_0000 * (w / 0x100 / 0x100) + (0x100 * b1 + b0));
    lemma_fundamental_div_mod_converse(w, 0x1_0000, w / 0x100 / 0x100, 0x100 * b1 + b0);
    assert(low == 0x100 * b1 + b0);
    lemma_fundamental_div_mod_converse(low, 0x100, b1, b0);
    assert(high == 0x100 * (high / 0x100) + high % 0x100);
    assert(w == 0x100_0000 * (high / 0x100) + (0x1_0000 * (high % 0x100) + low));
    lemma_fundamental_div_mod_converse(
        w,
        0x100_0000,
        high / 0x100,
        0x1_0000 * (high % 0x100) + low,
    );
    assert(bytes_of_word(word) =~= bytes_of_half_word(low as u16) + bytes_of_half_word(
        high as u16,
    ));
}

/// Splits a 32-bit word into its four bytes: those of its low half, then
/// those of its high half.
pub(crate) fn word_bytes(word: u32) -> (bytes: [u8; 4])
    ensures
        bytes@ == bytes_of_word(word),
{
    let low: [u8; 2] = half_word_bytes((word % 0x1_0000) as u16);
    let high: [u8; 2] = half_word_bytes((word / 0x1_0000) as u16);
    let bytes: [u8; 4] = [low[0], low[1], high[0], high[1]];
    proof {
        lemma_bytes_of_halves(word);
        assert(bytes@ =~= low@ + high@);
    }
    bytes
}

} // verus!
