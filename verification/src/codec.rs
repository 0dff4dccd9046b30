//! The identifier word layout: a 42-bit relative timestamp packed above a
//! 22-bit sequence counter, and the pure helpers that combine and split the
//! two fields.

use vstd::prelude::*;

verus! {

/// Unix timestamp of Jan 01 2026 00:00:00 GMT+0000 in milliseconds: the
/// reference epoch. Wall-clock readings are taken relative to it before
/// being packed into an identifier.
pub const EPOCH: u128 = 1_767_225_600_000;

/// Out of the 64 bits of an identifier, the low 22 are reserved for the
/// sequence counter.
pub const SEQUENCE_BITS: u64 = 22;

/// Mask for the sequence bits: `(1 << 22) - 1`.
pub const SEQUENCE_MASK: u64 = 0x3F_FFFF;

/// Largest relative timestamp that fits the 42 high bits of an identifier:
/// `(1 << 42) - 1`.
pub const TIMESTAMP_MAX: u64 = 0x3FF_FFFF_FFFF;

/// The relative-timestamp field of a packed identifier word: its 42 high bits.
pub open spec fn word_timestamp(w: u64) -> u64 {
    w >> SEQUENCE_BITS
}

/// The sequence field of a packed identifier word: its 22 low bits.
pub open spec fn word_sequence(w: u64) -> u64 {
    w & SEQUENCE_MASK
}

/// The word that holds `ts` in its 42 high bits and `seq`, masked to 22 bits,
/// in its low bits.
pub open spec fn packed(ts: u64, seq: u64) -> u64 {
    (ts << SEQUENCE_BITS) | (seq & SEQUENCE_MASK)
}

/// Strict lexicographic order on the (timestamp, sequence) pairs of two
/// packed words.
pub open spec fn lex_lt(a: u64, b: u64) -> bool {
    ||| word_timestamp(a) < word_timestamp(b)
    ||| (word_timestamp(a) == word_timestamp(b) && word_sequence(a) < word_sequence(b))
}

/// Combines a relative timestamp and a sequence counter into one word:
/// the timestamp in the 42 high bits, the sequence masked to the 22 low bits.
pub fn pack(ts: u64, seq: u64) -> (r: u64)
    requires
        ts <= TIMESTAMP_MAX,
    ensures
        r == packed(ts, seq),
{
    (ts << SEQUENCE_BITS) | (seq & SEQUENCE_MASK)
}

/// Splits the relative timestamp back out of a packed word.
pub fn unpack_timestamp(w: u64) -> (r: u64)
    ensures
        r == word_timestamp(w),
        r <= TIMESTAMP_MAX,
{
    proof {
        assert(w >> 22u64 <= 0x3FF_FFFF_FFFFu64) by (bit_vector);
    }
    w >> SEQUENCE_BITS
}

/// Splits the sequence counter back out of a packed word.
pub fn unpack_sequence(w: u64) -> (r: u64)
    ensures
        r == word_sequence(w),
        r <= SEQUENCE_MASK,
{
    proof {
        assert(w & 0x3F_FFFFu64 <= 0x3F_FFFFu64) by (bit_vector);
    }
    w & SEQUENCE_MASK
}

/// A generated identifier: one 64-bit word, the relative timestamp in the
/// 42 high bits and the sequence counter in the 22 low bits. Converts
/// losslessly to and from its raw representation.
#[derive(Debug, Clone, Copy, PartialEq, Eq, Structural)]
pub struct Snowflake(pub u64);

impl Snowflake {
    /// Construct a [`Snowflake`] from an absolute millisecond timestamp and
    /// a sequence counter. The timestamp must lie at or after the reference
    /// epoch and within the 42-bit relative range; the sequence is masked to
    /// its 22 bits.
    pub fn new(timestamp: u128, sequence: u64) -> (r: Self)
        requires
            EPOCH <= timestamp,
            timestamp - EPOCH <= TIMESTAMP_MAX,
        ensures
            r.0 == packed((timestamp - EPOCH) as u64, sequence),
    {
        let shifted: u64 = ((timestamp - EPOCH) as u64) << SEQUENCE_BITS;
        Snowflake(shifted | (sequence & SEQUENCE_MASK))
    }

    /// Extract the millisecond-based UNIX timestamp of a [`Snowflake`].
    ///
    /// The resulting timestamp is relative to the UNIX epoch, Jan 01 1970
    /// 00:00:00 GMT+0000: the reference epoch added back onto the word's
    /// timestamp field.
    pub fn extract_unix_timestamp(&self) -> (r: u128)
        ensures
            r == EPOCH + word_timestamp(self.0),
    {
        (self.0 >> SEQUENCE_BITS) as u128 + EPOCH
    }
}

impl core::convert::From<Snowflake> for u64 {
    /// The raw 64-bit word of the identifier.
    fn from(value: Snowflake) -> (r: u64) {
        value.0
    }
}

impl vstd::std_specs::convert::FromSpecImpl<Snowflake> for u64 {
    open spec fn obeys_from_spec() -> bool {
        true
    }

    open spec fn from_spec(v: Snowflake) -> u64 {
        v.0
    }
}

/// Round trip: repacking the two unpacked fields of any word gives the word
/// back unchanged.
pub proof fn lemma_round_trip(w: u64)
    ensures
        packed(word_timestamp(w), word_sequence(w)) == w,
{
    assert(packed(word_timestamp(w), word_sequence(w)) == w) by (bit_vector);
}

/// Packing is inverted exactly by unpacking whenever both fields are in
/// range.
pub proof fn lemma_pack_inverts(ts: u64, seq: u64)
    by (bit_vector)
    requires
        ts <= TIMESTAMP_MAX,
        seq <= SEQUENCE_MASK,
    ensures
        word_timestamp(packed(ts, seq)) == ts,
        word_sequence(packed(ts, seq)) == seq,
{
}

/// Packing is injective on in-range fields: two equal packed words can only
/// have come from the same (timestamp, sequence) pair.
pub proof fn lemma_pack_injective(ts1: u64, seq1: u64, ts2: u64, seq2: u64)
    requires
        ts1 <= TIMESTAMP_MAX,
        seq1 <= SEQUENCE_MASK,
        ts2 <= TIMESTAMP_MAX,
        seq2 <= SEQUENCE_MASK,
        packed(ts1, seq1) == packed(ts2, seq2),
    ensures
        ts1 == ts2,
        seq1 == seq2,
{
    lemma_pack_inverts(ts1, seq1);
    lemma_pack_inverts(ts2, seq2);
}

/// The plain `u64` order of packed words coincides with the lexicographic
/// order of their (timestamp, sequence) pairs.
pub proof fn lemma_word_order_is_lex(a: u64, b: u64)
    by (bit_vector)
    ensures
        (a < b) <==> lex_lt(a, b),
{
}

} // verus!
