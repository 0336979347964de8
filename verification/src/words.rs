//! The word-oriented transport protocol: a logical value of 16 to 60 bits
//! is carried as one or two 32-bit words, low word first, and recombined
//! on the way back.
use vstd::prelude::*;

use crate::MAX_BIT_WIDTH;
use crate::MIN_BIT_WIDTH;
use crate::QUEUE_DEPTH;

verus! {

/// Mask selecting the low `bw` bits of a 64-bit value.
pub open spec fn spec_mask(bw: u64) -> u64
    recommends
        bw <= 63,
{
    ((1u64 << bw) - 1) as u64
}

/// Number of 32-bit transport words needed for one transfer of `bw` bits:
/// `bw / 32`, rounded up.
pub open spec fn spec_words_needed(bw: u64) -> nat {
    ((bw + 31) / 32) as nat
}

/// The transport words of a value already masked to `bw` bits, low word
/// first: the first word holds bits 31 to 0, the second (for widths over
/// 32) holds the remaining high bits.
pub open spec fn split_words_spec(d: u64, bw: u64) -> Seq<u32>
    recommends
        MIN_BIT_WIDTH <= bw <= MAX_BIT_WIDTH,
        d & spec_mask(bw) == d,
{
    if bw <= 32 {
        seq![d as u32]
    } else {
        seq![(d & 0xFFFF_FFFF) as u32, (d >> 32) as u32]
    }
}

/// A 64-bit value reassembled from at most two 32-bit words, low word
/// first.
pub open spec fn spec_combined(words: Seq<u32>) -> u64
    recommends
        1 <= words.len() <= 2,
{
    if words.len() <= 1 {
        words[0] as u64
    } else {
        (words[0] as u64) | ((words[1] as u64) << 32)
    }
}

/// The words the host pushes for a transfer of `v`: only the low `bw`
/// bits of `v`, split low word first.
pub open spec fn tx_words_spec(v: u64, bw: u64) -> Seq<u32>
    recommends
        MIN_BIT_WIDTH <= bw <= MAX_BIT_WIDTH,
{
    split_words_spec(v & spec_mask(bw), bw)
}

/// The value the host recombines from the drained words, masked to `bw`
/// bits.
pub open spec fn combine_spec(words: Seq<u32>, bw: u64) -> u64
    recommends
        1 <= words.len() <= 2,
        bw <= 63,
{
    spec_combined(words) & spec_mask(bw)
}

/// The mask for a transfer width, as executed by the host.
pub fn mask_u64(bw: usize) -> (m: u64)
    requires
        bw <= 63,
    ensures
        m == spec_mask(bw as u64),
{
    proof {
        assert(1u64 << bw as u64 >= 1) by (bit_vector)
            requires
                bw as u64 <= 63,
        ;
    }
    (1u64 << bw) - 1
}

/// Word count for one transfer, as executed by the host.
pub fn words_needed(bw: usize) -> (n: usize)
    requires
        bw <= MAX_BIT_WIDTH,
    ensures
        n == spec_words_needed(bw as u64),
{
    (bw + 31) / 32
}

/// Splits a transfer value into its transport words: exactly
/// `spec_words_needed(bw)` of them, low word first, holding only the low
/// `bw` bits of `v`.
pub fn tx_words(v: u64, bw: usize) -> (w: Vec<u32>)
    requires
        MIN_BIT_WIDTH <= bw <= MAX_BIT_WIDTH,
    ensures
        w@ == tx_words_spec(v, bw as u64),
        w@.len() == spec_words_needed(bw as u64),
{
    let mask = mask_u64(bw);
    let d = v & mask;
    let mut w: Vec<u32> = Vec::new();
    w.push((d & 0xFFFF_FFFF) as u32);
    if bw > 32 {
        w.push((d >> 32) as u32);
        assert(w@ =~= tx_words_spec(v, bw as u64));
    } else {
        assert((d & 0xFFFF_FFFF) as u32 == d as u32) by (bit_vector);
        assert(w@ =~= tx_words_spec(v, bw as u64));
    }
    w
}

/// Recombines drained transport words into the transfer result, masked to
/// `bw` bits.
pub fn combine_words(words: &Vec<u32>, bw: usize) -> (r: u64)
    requires
        MIN_BIT_WIDTH <= bw <= MAX_BIT_WIDTH,
        words@.len() == spec_words_needed(bw as u64),
    ensures
        r == combine_spec(words@, bw as u64),
{
    let mask = mask_u64(bw);
    let mut r: u64 = words[0] as u64;
    if words.len() > 1 {
        r = r | ((words[1] as u64) << 32u64);
    }
    r & mask
}

/// Masking idempotence: a transfer sees only the low `bw` bits of its
/// value — the transport words of `v` and of `v` with all higher bits
/// cleared are identical.
pub proof fn lemma_masking_idempotent(v: u64, bw: u64)
    requires
        MIN_BIT_WIDTH <= bw <= MAX_BIT_WIDTH,
    ensures
        tx_words_spec(v, bw) == tx_words_spec(v & spec_mask(bw), bw),
{
    assert((v & spec_mask(bw)) & spec_mask(bw) == v & spec_mask(bw)) by (bit_vector);
}

/// Word-count law: every transfer pushes and pulls exactly
/// `ceil(bw / 32)` words — one for widths up to 32 bits, two above.
pub proof fn lemma_word_count(v: u64, m: u64, bw: u64)
    requires
        MIN_BIT_WIDTH <= bw <= MAX_BIT_WIDTH,
    ensures
        spec_words_needed(bw) == if bw <= 32 { 1nat } else { 2nat },
        tx_words_spec(v, bw).len() == spec_words_needed(bw),
        split_words_spec(m & spec_mask(bw), bw).len() == spec_words_needed(bw),
{
}

/// Deadlock freedom of a single transfer: its words always fit the
/// bounded hardware queues, so a transfer can only stall waiting for its
/// peer, never on its own word count.
pub proof fn lemma_transfer_fits_queues(bw: u64)
    requires
        MIN_BIT_WIDTH <= bw <= MAX_BIT_WIDTH,
    ensures
        spec_words_needed(bw) <= QUEUE_DEPTH,
{
}

/// Splitting a masked value into its transport words and recombining them
/// gives the value back unchanged.
pub proof fn lemma_split_combine_roundtrip(d: u64, bw: u64)
    requires
        MIN_BIT_WIDTH <= bw <= MAX_BIT_WIDTH,
        d & spec_mask(bw) == d,
    ensures
        combine_spec(split_words_spec(d, bw), bw) == d,
        spec_combined(split_words_spec(d, bw)) & spec_mask(bw) == d,
{
    if bw <= 32 {
        assert(((d as u32) as u64) & spec_mask(bw) == d) by (bit_vector)
            requires
                16 <= bw <= 32,
                d & spec_mask(bw) == d,
        ;
    } else {
        let lo = (d & 0xFFFF_FFFF) as u32;
        let hi = (d >> 32) as u32;
        assert(((lo as u64) | ((hi as u64) << 32)) & spec_mask(bw) == d) by (bit_vector)
            requires
                32 < bw <= 60,
                d & spec_mask(bw) == d,
                lo == (d & 0xFFFF_FFFF) as u32,
                hi == (d >> 32) as u32,
        ;
    }
}

/// Loopback round trip: with the data-out line wired to the data-in line,
/// the value that comes back from a transfer of `v` is `v` masked to the
/// transfer width.
pub proof fn lemma_loopback_roundtrip(v: u64, bw: u64)
    requires
        MIN_BIT_WIDTH <= bw <= MAX_BIT_WIDTH,
    ensures
        ({
            let wire = spec_combined(tx_words_spec(v, bw)) & spec_mask(bw);
            combine_spec(split_words_spec(wire, bw), bw) == v & spec_mask(bw)
        }),
{
    let d = v & spec_mask(bw);
    assert(d & spec_mask(bw) == d) by (bit_vector)
        requires
            d == v & spec_mask(bw),
    ;
    lemma_split_combine_roundtrip(d, bw);
}

/// No cross-transfer contamination: when the drained words of two
/// back-to-back transfers sit in the shared queue in order, pulling
/// exactly `spec_words_needed(bw)` words per transfer hands each transfer
/// precisely its own bits and no others.
pub proof fn lemma_no_cross_transfer(m1: u64, m2: u64, bw: u64)
    requires
        MIN_BIT_WIDTH <= bw <= MAX_BIT_WIDTH,
    ensures
        ({
            let n = spec_words_needed(bw) as int;
            let s = split_words_spec(m1 & spec_mask(bw), bw) + split_words_spec(
                m2 & spec_mask(bw),
                bw,
            );
            &&& combine_spec(s.take(n), bw) == m1 & spec_mask(bw)
            &&& combine_spec(s.skip(n), bw) == m2 & spec_mask(bw)
        }),
{
    let n = spec_words_needed(bw) as int;
    let d1 = m1 & spec_mask(bw);
    let d2 = m2 & spec_mask(bw);
    let s = split_words_spec(d1, bw) + split_words_spec(d2, bw);
    assert(s.take(n) =~= split_words_spec(d1, bw));
    assert(s.skip(n) =~= split_words_spec(d2, bw));
    assert(d1 & spec_mask(bw) == d1) by (bit_vector)
        requires
            d1 == m1 & spec_mask(bw),
    ;
    assert(d2 & spec_mask(bw) == d2) by (bit_vector)
        requires
            d2 == m2 & spec_mask(bw),
    ;
    lemma_split_combine_roundtrip(d1, bw);
    lemma_split_combine_roundtrip(d2, bw);
}

} // verus!
