//! Decoding raw byte buffers into 32-bit little-endian words.

use vstd::prelude::*;

verus! {

/// The 32-bit word stored little-endian as the bytes `b0 b1 b2 b3`.
pub open spec fn word_of_bytes(b0: u8, b1: u8, b2: u8, b3: u8) -> u32 {
    (b0 as u32) | ((b1 as u32) << 8) | ((b2 as u32) << 16) | ((b3 as u32) << 24)
}

/// The word decoded from the `i`-th 4-byte group of `bytes`.
pub open spec fn word_at(bytes: Seq<u8>, i: int) -> u32 {
    word_of_bytes(bytes[4 * i], bytes[4 * i + 1], bytes[4 * i + 2], bytes[4 * i + 3])
}

/// All words decoded from `bytes`, one per 4-byte little-endian group.
pub open spec fn decode_words(bytes: Seq<u8>) -> Seq<u32> {
    Seq::new(bytes.len() / 4, |i: int| word_at(bytes, i))
}

/// The 4 little-endian bytes of `w`.
pub open spec fn le_bytes_of_word(w: u32) -> Seq<u8> {
    seq![
        (w & 0xff) as u8,
        ((w >> 8) & 0xff) as u8,
        ((w >> 16) & 0xff) as u8,
        ((w >> 24) & 0xff) as u8,
    ]
}

/// The little-endian byte stream of `ws`.
pub open spec fn encode_words(ws: Seq<u32>) -> Seq<u8> {
    Seq::new(4 * ws.len(), |j: int| le_bytes_of_word(ws[j / 4])[j % 4])
}

proof fn lemma_word_of_le_bytes(w: u32)
    ensures
        word_of_bytes(
            (w & 0xff) as u8,
            ((w >> 8) & 0xff) as u8,
            ((w >> 16) & 0xff) as u8,
            ((w >> 24) & 0xff) as u8,
        ) == w,
{
    assert((((w & 0xff) as u8) as u32) | ((((w >> 8) & 0xff) as u8) as u32) << 8 | ((((w >> 16)
        & 0xff) as u8) as u32) << 16 | ((((w >> 24) & 0xff) as u8) as u32) << 24 == w)
        by (bit_vector);
}

/// Law: decoding the little-endian encoding of any word sequence gives the
/// sequence back, so decode-then-compare is exact for every representable
/// 32-bit value.
pub proof fn lemma_decode_encode_round_trip(ws: Seq<u32>)
    ensures
        decode_words(encode_words(ws)) == ws,
{
    let bytes = encode_words(ws);
    assert forall|i: int| 0 <= i < ws.len() implies decode_words(bytes)[i] == ws[i] by {
        assert forall|k: int| 0 <= k < 4 implies bytes[4 * i + k] == le_bytes_of_word(ws[i])[k] by {
            assert((4 * i + k) / 4 == i && (4 * i + k) % 4 == k) by (nonlinear_arith)
                requires 0 <= k < 4;
        }
        lemma_word_of_le_bytes(ws[i]);
    }
    assert(decode_words(encode_words(ws)) =~= ws);
}

/// Decodes a raw byte buffer into its sequence of 32-bit little-endian
/// words; `None` exactly when the length is not a multiple of 4.
pub fn decode_le_words(bytes: &Vec<u8>) -> (r: Option<Vec<u32>>)
    ensures
        r is Some <==> bytes@.len() % 4 == 0,
        r matches Some(ws) ==> ws@ == decode_words(bytes@),
{
    if bytes.len() % 4 != 0 {
        return None;
    }
    let n = bytes.len() / 4;
    let mut out: Vec<u32> = Vec::new();
    let mut i: usize = 0;
    while i < n
        invariant
            i <= n,
            4 * n <= usize::MAX,
            bytes@.len() == 4 * n,
            out@.len() == i,
            forall|j: int| 0 <= j < i ==> out@[j] == word_at(bytes@, j),
        decreases n - i,
    {
        let b0 = bytes[4 * i] as u32;
        let b1 = bytes[4 * i + 1] as u32;
        let b2 = bytes[4 * i + 2] as u32;
        let b3 = bytes[4 * i + 3] as u32;
        let w = b0 | (b1 << 8u32) | (b2 << 16u32) | (b3 << 24u32);
        assert(w == word_at(bytes@, i as int));
        out.push(w);
        i += 1;
    }
    assert(out@ =~= decode_words(bytes@));
    Some(out)
}

} // verus!
