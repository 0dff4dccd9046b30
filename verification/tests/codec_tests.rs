use snof::{
    pack, unpack_sequence, unpack_timestamp, Snowflake, EPOCH, SEQUENCE_MASK, TIMESTAMP_MAX,
};

#[test]
fn pack_exact_values() {
    assert_eq!(pack(5, 7), (5u64 << 22) | 7);
    assert_eq!(pack(0, 0), 0);
    assert_eq!(pack(TIMESTAMP_MAX, SEQUENCE_MASK), u64::MAX);
    assert_eq!(pack(1, 0), 1u64 << 22);
}

#[test]
fn pack_masks_sequence_to_22_bits() {
    assert_eq!(pack(3, SEQUENCE_MASK + 1), pack(3, 0));
    assert_eq!(pack(3, u64::MAX), pack(3, SEQUENCE_MASK));
}

#[test]
fn unpack_exact_values() {
    let w: u64 = (9u64 << 22) | 1234;
    assert_eq!(unpack_timestamp(w), 9);
    assert_eq!(unpack_sequence(w), 1234);
    assert_eq!(unpack_timestamp(u64::MAX), TIMESTAMP_MAX);
    assert_eq!(unpack_sequence(u64::MAX), SEQUENCE_MASK);
    assert_eq!(unpack_timestamp(0), 0);
    assert_eq!(unpack_sequence(0), 0);
}

#[test]
fn round_trip_repacks_any_word() {
    for &w in &[
        0u64,
        1,
        (1u64 << 22) - 1,
        1u64 << 22,
        (5u64 << 22) | 3,
        u64::MAX,
        u64::MAX - 1,
        0xDEAD_BEEF_CAFE_F00D,
    ] {
        assert_eq!(pack(unpack_timestamp(w), unpack_sequence(w)), w);
    }
}

#[test]
fn word_order_matches_lexicographic_order() {
    assert!(pack(5, 10) < pack(6, 0));
    assert!(pack(5, 10) < pack(5, 11));
    assert!(pack(5, SEQUENCE_MASK) < pack(6, 0));
    assert!(pack(6, 0) > pack(5, SEQUENCE_MASK));
    assert_eq!(pack(5, 10), pack(5, 10));
}

#[test]
fn snowflake_new_packs_relative_timestamp() {
    let id = Snowflake::new(EPOCH + 123, 42);
    assert_eq!(id.0, (123u64 << 22) | 42);
    let zero = Snowflake::new(EPOCH, 0);
    assert_eq!(zero.0, 0);
}

#[test]
fn snowflake_new_masks_sequence() {
    let id = Snowflake::new(EPOCH + 1, SEQUENCE_MASK + 1);
    assert_eq!(id.0, Snowflake::new(EPOCH + 1, 0).0);
}

#[test]
fn extract_unix_timestamp_recovers_absolute_time() {
    let id = Snowflake::new(EPOCH + 123, 42);
    assert_eq!(id.extract_unix_timestamp(), EPOCH + 123);
    assert_eq!(Snowflake(0).extract_unix_timestamp(), EPOCH);
    assert_eq!(
        Snowflake(u64::MAX).extract_unix_timestamp(),
        EPOCH + TIMESTAMP_MAX as u128
    );
}

#[test]
fn snowflake_converts_to_raw_u64() {
    let id = Snowflake((77u64 << 22) | 8);
    assert_eq!(u64::from(id), (77u64 << 22) | 8);
    let back = Snowflake(u64::from(id));
    assert_eq!(back, id);
}
