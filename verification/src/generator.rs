//! The generator core: a single atomically-updated state word holding the
//! last issued identifier, advanced by a compare-and-swap retry loop.

use core::sync::atomic::AtomicU64;
use core::sync::atomic::Ordering;
use vstd::prelude::*;

use crate::clock::spin_hint;
use crate::clock::unix_timestamp_now_ms;
use crate::codec::lemma_word_order_is_lex;
use crate::codec::lex_lt;
use crate::codec::pack;
use crate::codec::packed;
use crate::codec::unpack_sequence;
use crate::codec::unpack_timestamp;
use crate::codec::word_sequence;
use crate::codec::word_timestamp;
use crate::codec::Snowflake;
use crate::codec::EPOCH;
use crate::codec::SEQUENCE_MASK;
use crate::codec::TIMESTAMP_MAX;

verus! {

/// The outcome of one generation attempt against a loaded state word and a
/// clock reading.
#[derive(Debug, Clone, Copy, PartialEq, Eq, Structural)]
pub enum Attempt {
    /// The attempt may try to install this word as the new state; on a
    /// successful compare-and-swap it is the generated identifier.
    Install(u64),
    /// The clock still reads the stored millisecond and its sequence space
    /// is used up: spin until the clock ticks.
    SequenceExhausted,
    /// The clock reads an earlier millisecond than the stored state: spin
    /// until it catches up, never regress.
    ClockRegressed,
}

/// A fatal, non-recoverable condition: the wall clock lies outside the
/// range that the identifier layout can encode.
#[derive(Debug, Clone, Copy, PartialEq, Eq, Structural)]
pub enum EpochError {
    /// The clock reports a time before the reference epoch.
    ClockBeforeEpoch,
    /// The time since the reference epoch no longer fits the 42-bit
    /// timestamp field.
    TimestampOverflow,
    /// The generation retry loop gave up after `u64::MAX` attempts. Spinning
    /// on sequence exhaustion or clock regression resolves within about a
    /// millisecond under a working clock, so reaching this bound would take
    /// centuries of continuous retries; it exists so that the retry loop is
    /// a finite loop with an explicit bound rather than an unbounded one.
    RetryLimit,
}

/// What one generation attempt decides, given the loaded state word and the
/// current relative timestamp.
pub open spec fn step_spec(cur: u64, now_ts: u64) -> Attempt {
    if now_ts > word_timestamp(cur) {
        Attempt::Install(packed(now_ts, 0))
    } else if now_ts < word_timestamp(cur) {
        Attempt::ClockRegressed
    } else if word_sequence(cur) == SEQUENCE_MASK {
        Attempt::SequenceExhausted
    } else {
        Attempt::Install(packed(word_timestamp(cur), (word_sequence(cur) + 1) as u64))
    }
}

/// Any word an attempt may install is strictly greater than the word it was
/// computed from, its timestamp field never falls below the stored one, and
/// it carries exactly the clock reading the attempt saw. A fresh
/// millisecond starts over with sequence 0; within the stored millisecond
/// the sequence advances by exactly 1.
pub proof fn lemma_step_advances(cur: u64, now_ts: u64)
    requires
        now_ts <= TIMESTAMP_MAX,
    ensures
        step_spec(cur, now_ts) matches Attempt::Install(n) ==> cur < n
            && word_timestamp(cur) <= word_timestamp(n)
            && word_timestamp(n) == now_ts,
        step_spec(cur, now_ts) matches Attempt::Install(n) ==> word_sequence(n) == (
        if now_ts > word_timestamp(cur) {
            0u64
        } else {
            (word_sequence(cur) + 1) as u64
        }),
{
    if now_ts > word_timestamp(cur) {
        assert(now_ts <= TIMESTAMP_MAX && now_ts > word_timestamp(cur) ==> cur < packed(now_ts, 0)
            && word_timestamp(cur) <= word_timestamp(packed(now_ts, 0))
            && word_timestamp(packed(now_ts, 0)) == now_ts
            && word_sequence(packed(now_ts, 0)) == 0u64) by (bit_vector);
    } else if now_ts == word_timestamp(cur) && word_sequence(cur) != SEQUENCE_MASK {
        assert(word_sequence(cur) != SEQUENCE_MASK ==> cur < packed(
            word_timestamp(cur),
            (word_sequence(cur) + 1) as u64,
        ) && word_timestamp(packed(word_timestamp(cur), (word_sequence(cur) + 1) as u64))
            == word_timestamp(cur) && word_sequence(
            packed(word_timestamp(cur), (word_sequence(cur) + 1) as u64),
        ) == (word_sequence(cur) + 1) as u64) by (bit_vector);
    }
}

/// One generation attempt: compares the current relative timestamp to the
/// fields of the loaded state word and decides what the retry loop does
/// next.
///
/// A clock ahead of the stored millisecond starts the new millisecond with
/// sequence 0; the same millisecond increments the sequence while it lasts;
/// an exhausted sequence or a regressed clock installs nothing.
pub fn step(current_bits: u64, now_ts: u64) -> (r: Attempt)
    requires
        now_ts <= TIMESTAMP_MAX,
    ensures
        r == step_spec(current_bits, now_ts),
        r matches Attempt::Install(n) ==> current_bits < n && word_timestamp(n) == now_ts,
        r matches Attempt::Install(n) ==> word_sequence(n) == (
        if now_ts > word_timestamp(current_bits) {
            0u64
        } else {
            (word_sequence(current_bits) + 1) as u64
        }),
{
    proof {
        lemma_step_advances(current_bits, now_ts);
    }
    let last_ts: u64 = unpack_timestamp(current_bits);
    let last_seq: u64 = unpack_sequence(current_bits);
    if now_ts > last_ts {
        Attempt::Install(pack(now_ts, 0))
    } else if now_ts < last_ts {
        Attempt::ClockRegressed
    } else if last_seq == SEQUENCE_MASK {
        Attempt::SequenceExhausted
    } else {
        Attempt::Install(pack(last_ts, last_seq + 1))
    }
}

/// Helper for the chain law: strict growth carries along any segment of a
/// chain of installed words.
proof fn lemma_chain_segment(states: Seq<u64>, clocks: Seq<u64>, i: int, j: int)
    requires
        states.len() == clocks.len() + 1,
        forall|k: int| 0 <= k < clocks.len() ==> clocks[k] <= TIMESTAMP_MAX
            && #[trigger] step_spec(states[k], clocks[k]) == Attempt::Install(states[k + 1]),
        0 <= i < j < states.len(),
    ensures
        states[i] < states[j],
    decreases j - i,
{
    lemma_step_advances(states[j - 1], clocks[j - 1]);
    if i < j - 1 {
        lemma_chain_segment(states, clocks, i, j - 1);
    }
}

/// Uniqueness and monotonicity law. Consider the sequence of state words
/// that successful compare-and-swaps install over a generator's lifetime,
/// in commit order: `states[0]` is the seed and each `states[k + 1]` is the
/// word a generation attempt installed over `states[k]` under the clock
/// reading `clocks[k]`. Along any such chain the words are strictly
/// increasing as plain 64-bit values, strictly increasing in the
/// lexicographic order of their (timestamp, sequence) pairs, and therefore
/// pairwise distinct — across all threads, whatever the interleaving and
/// whatever the clock returned.
pub proof fn lemma_commit_chain_monotonic(states: Seq<u64>, clocks: Seq<u64>)
    requires
        states.len() == clocks.len() + 1,
        forall|k: int| 0 <= k < clocks.len() ==> clocks[k] <= TIMESTAMP_MAX
            && #[trigger] step_spec(states[k], clocks[k]) == Attempt::Install(states[k + 1]),
    ensures
        forall|i: int, j: int| 0 <= i < j < states.len() ==> states[i] < states[j],
        forall|i: int, j: int| 0 <= i < j < states.len() ==> lex_lt(states[i], states[j]),
        forall|i: int, j: int| 0 <= i < j < states.len() ==> states[i] != states[j],
{
    assert forall|i: int, j: int| 0 <= i < j < states.len() implies #[trigger] states[i]
        < #[trigger] states[j] by {
        lemma_chain_segment(states, clocks, i, j);
    }
    assert forall|i: int, j: int| 0 <= i < j < states.len() implies lex_lt(
        states[i],
        states[j],
    ) by {
        lemma_word_order_is_lex(states[i], states[j]);
    }
}

/// The relative-timestamp reading that a generation attempt works with:
/// milliseconds since the reference epoch, saturated to zero for a clock
/// before the epoch, and `None` once the 42-bit field would overflow.
pub open spec fn relative_timestamp_spec(now_ms: u128) -> Option<u64> {
    if now_ms <= EPOCH {
        Some(0u64)
    } else if now_ms - EPOCH <= TIMESTAMP_MAX {
        Some((now_ms - EPOCH) as u64)
    } else {
        None
    }
}

/// Converts an absolute millisecond clock reading into the relative
/// timestamp field, saturating at zero rather than underflowing; `None`
/// signals the fatal 42-bit overflow.
pub fn relative_timestamp(now_ms: u128) -> (r: Option<u64>)
    ensures
        r == relative_timestamp_spec(now_ms),
        r matches Some(ts) ==> ts <= TIMESTAMP_MAX,
{
    if now_ms <= EPOCH {
        Some(0)
    } else {
        let rel: u128 = now_ms - EPOCH;
        if rel <= TIMESTAMP_MAX as u128 {
            Some(rel as u64)
        } else {
            None
        }
    }
}

/// The seed state for a generator constructed at the given clock reading:
/// the reading relative to the reference epoch, packed with sequence 0. A
/// clock before the epoch or beyond the 42-bit range is a fatal error, not
/// a value.
pub open spec fn initial_word_spec(now_ms: u128) -> Result<u64, EpochError> {
    if now_ms < EPOCH {
        Err(EpochError::ClockBeforeEpoch)
    } else if now_ms - EPOCH > TIMESTAMP_MAX {
        Err(EpochError::TimestampOverflow)
    } else {
        Ok(packed((now_ms - EPOCH) as u64, 0))
    }
}

/// Computes the seed state word for a generator constructed at the given
/// clock reading, or the fatal error the reading forces.
pub fn initial_word(now_ms: u128) -> (r: Result<u64, EpochError>)
    ensures
        r == initial_word_spec(now_ms),
{
    if now_ms < EPOCH {
        Err(EpochError::ClockBeforeEpoch)
    } else {
        let rel: u128 = now_ms - EPOCH;
        if rel > TIMESTAMP_MAX as u128 {
            Err(EpochError::TimestampOverflow)
        } else {
            Ok(pack(rel as u64, 0))
        }
    }
}

/// A thread-safe, lock-free Snowflake generator.
///
/// Initialize with [`SnowflakeGenerator::new()`]. Any number of threads may
/// share one instance by reference; the only mutable state is one atomic
/// word, advanced by compare-and-swap.
#[derive(Debug)]
pub struct SnowflakeGenerator {
    /// Last generated snowflake word.
    last_state: AtomicU64,
}

impl SnowflakeGenerator {
    /// Builds a generator whose state is seeded from the given wall-clock
    /// reading with sequence 0, exactly when [`initial_word_spec`] accepts
    /// the reading; otherwise returns the error the reading forces.
    pub fn try_new_at(now_ms: u128) -> (r: Result<Self, EpochError>)
        ensures
            (r matches Ok(_)) <==> (initial_word_spec(now_ms) matches Ok(_)),
            r matches Err(e) ==> initial_word_spec(now_ms) == Err::<u64, EpochError>(e),
    {
        match initial_word(now_ms) {
            Ok(w) => Ok(SnowflakeGenerator { last_state: AtomicU64::new(w) }),
            Err(e) => Err(e),
        }
    }

    /// Initializes a new [`SnowflakeGenerator`].
    ///
    /// The initial state is set to the current time with sequence 0. A
    /// clock before the reference epoch, or one beyond the 42-bit relative
    /// range, is a fatal environment error and is returned as such; see
    /// [`SnowflakeGenerator::try_new_at`] for the exact condition.
    pub fn new() -> (r: Result<Self, EpochError>)
        ensures
            r matches Err(e) ==> e == EpochError::ClockBeforeEpoch || e
                == EpochError::TimestampOverflow,
    {
        Self::try_new_at(unix_timestamp_now_ms())
    }

    /// Generates a [`Snowflake`].
    ///
    /// Utilizes a CAS loop using atomics. If the sequence is exhausted or
    /// the clock moves backwards, it spins until validity is restored.
    /// Every identifier it returns is the image of one successful
    /// generation attempt: see [`step_spec`] for what that pins down, and
    /// [`lemma_commit_chain_monotonic`] for why successive successful
    /// attempts yield strictly increasing, pairwise distinct words. The one
    /// error reachable under a working clock is the fatal 42-bit overflow
    /// of the timestamp field; [`EpochError::RetryLimit`] bounds the loop
    /// formally but would take centuries of spinning to reach.
    pub fn generate(&self) -> (r: Result<Snowflake, EpochError>)
        ensures
            r matches Ok(id) ==> exists|cur: u64, now_ts: u64|
                now_ts <= TIMESTAMP_MAX && #[trigger] step_spec(cur, now_ts)
                    == Attempt::Install(id.0) && word_timestamp(id.0) == now_ts,
            r matches Err(e) ==> e == EpochError::TimestampOverflow || e
                == EpochError::RetryLimit,
    {
        let mut current_bits: u64 = self.last_state.load(Ordering::Relaxed);
        let mut budget: u64 = u64::MAX;
        while budget > 0
            decreases budget,
        {
            budget = budget - 1;
            let now_ms: u128 = unix_timestamp_now_ms();
            match relative_timestamp(now_ms) {
                None => {
                    return Err(EpochError::TimestampOverflow);
                },
                Some(now_ts) => {
                    match step(current_bits, now_ts) {
                        Attempt::Install(next_bits) => {
                            let swapped = self.last_state.compare_exchange_weak(
                                current_bits,
                                next_bits,
                                Ordering::SeqCst,
                                Ordering::Relaxed,
                            );
                            match swapped {
                                Ok(_) => {
                                    return Ok(Snowflake(next_bits));
                                },
                                Err(fresh_bits) => {
                                    current_bits = fresh_bits;
                                },
                            }
                        },
                        Attempt::SequenceExhausted | Attempt::ClockRegressed => {
                            spin_hint();
                            current_bits = self.last_state.load(Ordering::Relaxed);
                        },
                    }
                },
            }
        }
        Err(EpochError::RetryLimit)
    }
}

} // verus!
