use snowflake_ng::{fill_identifier, fill_sequence, fill_timestamp, filling};

#[test]
fn test_fill_timestamp() {
    // Case1
    let sid = 0u64;
    let timestamp = 0b101010;
    let expected = 42 << 22;
    let result = fill_timestamp(sid, timestamp);
    assert_eq!(result, expected);

    // Case2
    let sid = 0u64;
    let timestamp = (1u64 << 42) - 1;
    let expected = ((1u64 << 41) - 1) << 22;
    let result = fill_timestamp(sid, timestamp);
    assert_eq!(result, expected);
}

#[test]
fn test_fill_identifier() {
    // Case1
    let sid = 0u64;
    let identifier = 0b110101;
    let expected = 53 << 12;
    let result = fill_identifier(sid, identifier);
    assert_eq!(result, expected);

    // Case2
    let sid = 0u64;
    let identifier = (1u64 << 11) - 1;
    let expected = ((1u64 << 10) - 1) << 12;
    let result = fill_identifier(sid, identifier);
    assert_eq!(result, expected);
}

#[test]
fn test_fill_sequence() {
    // Case1
    let sid = 0u64;
    let sequence = 0b1001;
    let expected = 9;
    let result = fill_sequence(sid, sequence);
    assert_eq!(result, expected);

    // Case2
    let sid = 0u64;
    let sequence = (1u64 << 13) - 1;
    let expected = (1u64 << 12) - 1;
    let result = fill_sequence(sid, sequence);
    assert_eq!(result, expected);
}

#[test]
fn test_filling() {
    let sid = 0u64;
    let timestamp = 0b10101010101010101010101010101010101010101u64;
    let identifier = 0b110101u64;
    let sequence = 0b1001u64;

    let expected = (timestamp << 22) | (identifier << 12) | sequence;

    let result = filling(sid, timestamp, identifier, sequence);
    assert_eq!(result, expected);
}

fn timestamp_of(word: u64) -> u64 {
    (word >> 22) & ((1 << 41) - 1)
}

fn identifier_of(word: u64) -> u64 {
    (word >> 12) & ((1 << 10) - 1)
}

fn sequence_of(word: u64) -> u64 {
    word & ((1 << 12) - 1)
}

#[test]
fn pack_then_extract_returns_truncated_fields() {
    let cases: Vec<(u64, u64, u64)> = vec![
        (0, 0, 0),
        (1, 1, 1),
        (1_700_000_000_000, 513, 77),
        ((1 << 41) - 1, 1023, 4095),
        (1 << 41, 1024, 4096),
        (u64::MAX, u64::MAX, u64::MAX),
        (0xDEAD_BEEF_CAFE_F00D, 2000, 5000),
    ];
    for (t, i, s) in cases {
        let word = filling(0, t, i, s);
        assert_eq!(timestamp_of(word), t & ((1 << 41) - 1));
        assert_eq!(identifier_of(word), i & ((1 << 10) - 1));
        assert_eq!(sequence_of(word), s & ((1 << 12) - 1));
        assert_eq!(word >> 63, 0);
    }
}

#[test]
fn filling_keeps_only_the_sign_bit_of_the_destination() {
    assert_eq!(filling(u64::MAX, 0, 0, 0), 1 << 63);
    assert_eq!(filling(u64::MAX, 3, 2, 1), (1 << 63) | (3 << 22) | (2 << 12) | 1);
    assert_eq!(filling(0x7FFF_FFFF_FFFF_FFFF, 3, 2, 1), (3 << 22) | (2 << 12) | 1);
}

#[test]
fn fill_touches_only_its_own_bits() {
    let all = u64::MAX;
    assert_eq!(fill_timestamp(all, 0), (1 << 63) | ((1 << 22) - 1));
    assert_eq!(fill_identifier(all, 0), all & !(0x3FF << 12));
    assert_eq!(fill_sequence(all, 0), all & !0xFFF);
    assert_eq!(fill_timestamp(0, u64::MAX), ((1u64 << 41) - 1) << 22);
    assert_eq!(fill_identifier(0, u64::MAX), 0x3FF << 12);
    assert_eq!(fill_sequence(0, u64::MAX), 0xFFF);
}

#[test]
fn refilling_a_disjoint_field_keeps_the_first() {
    let word = fill_timestamp(0, 123_456_789);
    let word = fill_identifier(word, 321);
    assert_eq!(timestamp_of(word), 123_456_789);
    let word = fill_sequence(word, 99);
    assert_eq!(timestamp_of(word), 123_456_789);
    assert_eq!(identifier_of(word), 321);
    let word = fill_timestamp(word, 5);
    assert_eq!(identifier_of(word), 321);
    assert_eq!(sequence_of(word), 99);
    let word = fill_identifier(word, 7);
    assert_eq!(timestamp_of(word), 5);
    assert_eq!(sequence_of(word), 99);
    assert_eq!(word, (5 << 22) | (7 << 12) | 99);
}

#[test]
fn fill_order_does_not_matter() {
    let a = fill_sequence(fill_identifier(fill_timestamp(0, 1000), 20), 3);
    let b = fill_timestamp(fill_identifier(fill_sequence(0, 3), 20), 1000);
    let c = fill_identifier(fill_timestamp(fill_sequence(0, 3), 1000), 20);
    assert_eq!(a, 4_194_385_923);
    assert_eq!(a, b);
    assert_eq!(a, c);
    assert_eq!(a, filling(0, 1000, 20, 3));
}

#[test]
fn oversized_identifier_is_cut_to_ten_bits() {
    assert_eq!(fill_identifier(0, 2000), fill_identifier(0, 2000 % 1024));
    assert_eq!(fill_identifier(0, 2000), 976 << 12);
    assert_eq!(fill_identifier(0, 1024), 0);
    assert_eq!(fill_identifier(0, 1023), 1023 << 12);
    assert_eq!(fill_timestamp(0, 1 << 41), 0);
    assert_eq!(fill_sequence(0, 4096), 0);
}
