//! A lock-free generator of unique, time-ordered 64-bit identifiers.
//!
//! Each identifier packs a 42-bit millisecond timestamp, counted from a
//! fixed reference epoch, above a 22-bit per-millisecond sequence counter.
//! One atomically-updated state word holds the last issued identifier; a
//! compare-and-swap retry loop advances it, so any number of threads can
//! draw identifiers concurrently without ever locking, duplicating a value,
//! or regressing below an already-issued (timestamp, sequence) pair.

pub mod clock;
pub mod codec;
pub mod generator;

pub use clock::unix_timestamp_now_ms;
pub use codec::{
    pack, unpack_sequence, unpack_timestamp, Snowflake, EPOCH, SEQUENCE_BITS, SEQUENCE_MASK,
    TIMESTAMP_MAX,
};
pub use generator::{
    initial_word, relative_timestamp, step, Attempt, EpochError, SnowflakeGenerator,
};
