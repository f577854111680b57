use guild_warden::snowflake::{snowflake_to_time, SNOWFLAKES_PER_MS, SNOWFLAKE_EPOCH_MS};

#[test]
fn snowflake_zero_is_the_epoch() {
    assert_eq!(snowflake_to_time(0), 1_420_070_400_000);
    assert_eq!(SNOWFLAKE_EPOCH_MS, 1_420_070_400_000);
}

#[test]
fn snowflake_low_bits_do_not_count() {
    assert_eq!(SNOWFLAKES_PER_MS, 1 << 22);
    assert_eq!(snowflake_to_time(4_194_303), 1_420_070_400_000);
    assert_eq!(snowflake_to_time(4_194_304), 1_420_070_400_001);
    assert_eq!(snowflake_to_time(4_194_305), 1_420_070_400_001);
}

#[test]
fn snowflake_of_a_known_message() {
    assert_eq!(snowflake_to_time(175_928_847_299_117_063), 1_462_015_105_796);
}

#[test]
fn snowflake_largest_identifier_does_not_overflow() {
    assert_eq!(snowflake_to_time(u64::MAX), (u64::MAX >> 22) + 1_420_070_400_000);
    assert_eq!(snowflake_to_time(u64::MAX), 5_818_116_911_103);
}

#[test]
fn snowflake_clock_is_monotonic() {
    let ids = [0u64, 1, 4_194_303, 4_194_304, 846_029_848_052_629_574, u64::MAX - 1, u64::MAX];
    for pair in ids.windows(2) {
        assert!(snowflake_to_time(pair[0]) <= snowflake_to_time(pair[1]));
    }
}
