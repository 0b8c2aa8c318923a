use vstd::prelude::*;

verus! {

/// The 32-bit word whose little-endian bytes are `b0`, `b1`, `b2`, `b3`.
pub open spec fn word_le(b0: u8, b1: u8, b2: u8, b3: u8) -> u32 {
    (b0 as u32) | ((b1 as u32) << 8u32) | ((b2 as u32) << 16u32) | ((b3 as u32) << 24u32)
}

/// Byte `k` (0 the lowest) of `w`.
pub open spec fn byte_of(w: u32, k: int) -> u8 {
    if k == 0 {
        w as u8
    } else if k == 1 {
        (w >> 8u32) as u8
    } else if k == 2 {
        (w >> 16u32) as u8
    } else {
        (w >> 24u32) as u8
    }
}

/// The words read from `b` four bytes at a time, little-endian; bytes past
/// the last full group of four are not read.
pub open spec fn words_of_bytes(b: Seq<u8>) -> Seq<u32> {
    Seq::new(
        b.len() / 4,
        |i: int| word_le(b[4 * i], b[4 * i + 1], b[4 * i + 2], b[4 * i + 3]),
    )
}

/// Each word of `ws` as four little-endian bytes, in order.
pub open spec fn bytes_of_words(ws: Seq<u32>) -> Seq<u8> {
    Seq::new(4 * ws.len(), |j: int| byte_of(ws[j / 4], j % 4))
}

proof fn lemma_word_of_own_bytes(w: u32)
    ensures
        word_le(byte_of(w, 0), byte_of(w, 1), byte_of(w, 2), byte_of(w, 3)) == w,
{
    assert(((w as u8) as u32) | ((((w >> 8u32) as u8) as u32) << 8u32) | ((((w >> 16u32) as u8)
        as u32) << 16u32) | ((((w >> 24u32) as u8) as u32) << 24u32) == w) by (bit_vector);
}

/// Writing words as little-endian bytes and reading them back gives the
/// same words.
pub proof fn lemma_round_trip(ws: Seq<u32>)
    ensures
        words_of_bytes(bytes_of_words(ws)) == ws,
{
    let b = bytes_of_words(ws);
    assert forall|i: int| 0 <= i < ws.len() implies #[trigger] words_of_bytes(b)[i] == ws[i] by {
        assert((4 * i) / 4 == i && (4 * i) % 4 == 0);
        assert((4 * i + 1) / 4 == i && (4 * i + 1) % 4 == 1);
        assert((4 * i + 2) / 4 == i && (4 * i + 2) % 4 == 2);
        assert((4 * i + 3) / 4 == i && (4 * i + 3) % 4 == 3);
        lemma_word_of_own_bytes(ws[i]);
    }
    assert(words_of_bytes(b) =~= ws);
}

/// Reads a raw payload of little-endian 32-bit samples. Trailing bytes that
/// do not make up a full sample are dropped.
pub fn bytes_to_sample_bits(bytes: &[u8]) -> (r: Vec<u32>)
    ensures
        r@ == words_of_bytes(bytes@),
        r@.len() == bytes@.len() / 4,
{
    let n: usize = bytes.len() / 4;
    let mut r: Vec<u32> = Vec::with_capacity(n);
    let mut i: usize = 0;
    while i < n
        invariant
            n == bytes@.len() / 4,
            4 * n <= bytes@.len(),
            i <= n,
            r@ == words_of_bytes(bytes@).subrange(0, i as int),
        decreases n - i,
    {
        assert(4 * i + 3 < bytes@.len());
        assert(bytes@.len() == bytes.len());
        let j: usize = 4 * i;
        let w: u32 = (bytes[j] as u32) | ((bytes[j + 1] as u32) << 8u32) | ((bytes[j + 2] as u32)
            << 16u32) | ((bytes[j + 3] as u32) << 24u32);
        r.push(w);
        i = i + 1;
        assert(r@ =~= words_of_bytes(bytes@).subrange(0, i as int));
    }
    assert(words_of_bytes(bytes@).subrange(0, n as int) =~= words_of_bytes(bytes@));
    r
}

} // verus!
