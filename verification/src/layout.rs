//! The bit layout of an identifier word.
//!
//! ```text
//! | sign |         timestamp         | identifier | sequence |
//! | 1bit |           41bit           |   10bit    |  12bit   |
//! ```
//!
//! The model of a word is the four numbers it holds; the functions here
//! overwrite one of them and leave the other three as they were.

use vstd::prelude::*;

verus! {

/// Number of distinct timestamp values, `2^41`.
pub const TIMESTAMP_SPAN: u64 = 0x200_0000_0000;

/// Number of distinct identifier values, `2^10`.
pub const IDENTIFIER_SPAN: u64 = 0x400;

/// Number of distinct sequence values, `2^12`.
pub const SEQUENCE_SPAN: u64 = 0x1000;

/// Weight of the timestamp field inside a word, `2^22`.
pub const TIMESTAMP_UNIT: u64 = 0x40_0000;

/// Weight of the identifier field inside a word, `2^12`.
pub const IDENTIFIER_UNIT: u64 = 0x1000;

/// Weight of the sign bit inside a word, `2^63`.
pub const SIGN_UNIT: u64 = 0x8000_0000_0000_0000;

/// The sign bit of `word`: 0 or 1.
pub open spec fn sign_of(word: u64) -> u64 {
    word / SIGN_UNIT
}

/// The timestamp field of `word` (bits 62 to 22).
pub open spec fn timestamp_of(word: u64) -> u64 {
    (word / TIMESTAMP_UNIT) % TIMESTAMP_SPAN
}

/// The identifier field of `word` (bits 21 to 12).
pub open spec fn identifier_of(word: u64) -> u64 {
    (word / IDENTIFIER_UNIT) % IDENTIFIER_SPAN
}

/// The sequence field of `word` (bits 11 to 0).
pub open spec fn sequence_of(word: u64) -> u64 {
    word % SEQUENCE_SPAN
}

/// The word that holds the given four fields, each taken modulo the
/// size of its field.
pub open spec fn compose(sign: u64, timestamp: u64, identifier: u64, sequence: u64) -> int {
    (sign % 2) * SIGN_UNIT + (timestamp % TIMESTAMP_SPAN) * TIMESTAMP_UNIT + (identifier
        % IDENTIFIER_SPAN) * IDENTIFIER_UNIT + sequence % SEQUENCE_SPAN
}

/// `word` with its timestamp field replaced by the low 41 bits of `timestamp`.
pub open spec fn with_timestamp(word: u64, timestamp: u64) -> int {
    compose(sign_of(word), timestamp, identifier_of(word), sequence_of(word))
}

/// `word` with its identifier field replaced by the low 10 bits of `identifier`.
pub open spec fn with_identifier(word: u64, identifier: u64) -> int {
    compose(sign_of(word), timestamp_of(word), identifier, sequence_of(word))
}

/// `word` with its sequence field replaced by the low 12 bits of `sequence`.
pub open spec fn with_sequence(word: u64, sequence: u64) -> int {
    compose(sign_of(word), timestamp_of(word), identifier_of(word), sequence)
}

/// Replacing the timestamp: the result as shifts and masks, and the
/// fields it holds.
pub proof fn lemma_with_timestamp(word: u64, timestamp: u64)
    ensures
        with_timestamp(word, timestamp) == (word & !(0x1FF_FFFF_FFFFu64 << 22)) | ((timestamp
            & 0x1FF_FFFF_FFFF) << 22),
        0 <= with_timestamp(word, timestamp) <= u64::MAX,
        timestamp_of(with_timestamp(word, timestamp) as u64) == timestamp % TIMESTAMP_SPAN,
        identifier_of(with_timestamp(word, timestamp) as u64) == identifier_of(word),
        sequence_of(with_timestamp(word, timestamp) as u64) == sequence_of(word),
        sign_of(with_timestamp(word, timestamp) as u64) == sign_of(word),
{
    assert({
        let w = (word & !(0x1FF_FFFF_FFFFu64 << 22)) | ((timestamp & 0x1FF_FFFF_FFFFu64) << 22);
        &&& w == with_timestamp(word, timestamp)
        &&& timestamp_of(w) == timestamp % TIMESTAMP_SPAN
        &&& identifier_of(w) == identifier_of(word)
        &&& sequence_of(w) == sequence_of(word)
        &&& sign_of(w) == sign_of(word)
    }) by (bit_vector);
}

/// Replacing the identifier: the result as shifts and masks, and the
/// fields it holds.
pub proof fn lemma_with_identifier(word: u64, identifier: u64)
    ensures
        with_identifier(word, identifier) == (word & !(0x3FFu64 << 12)) | ((identifier & 0x3FF)
            << 12),
        0 <= with_identifier(word, identifier) <= u64::MAX,
        identifier_of(with_identifier(word, identifier) as u64) == identifier % IDENTIFIER_SPAN,
        timestamp_of(with_identifier(word, identifier) as u64) == timestamp_of(word),
        sequence_of(with_identifier(word, identifier) as u64) == sequence_of(word),
        sign_of(with_identifier(word, identifier) as u64) == sign_of(word),
{
    assert({
        let w = (word & !(0x3FFu64 << 12)) | ((identifier & 0x3FFu64) << 12);
        &&& w == with_identifier(word, identifier)
        &&& identifier_of(w) == identifier % IDENTIFIER_SPAN
        &&& timestamp_of(w) == timestamp_of(word)
        &&& sequence_of(w) == sequence_of(word)
        &&& sign_of(w) == sign_of(word)
    }) by (bit_vector);
}

/// Replacing the sequence: the result as masks, and the fields it holds.
pub proof fn lemma_with_sequence(word: u64, sequence: u64)
    ensures
        with_sequence(word, sequence) == (word & !0xFFFu64) | (sequence & 0xFFF),
        0 <= with_sequence(word, sequence) <= u64::MAX,
        sequence_of(with_sequence(word, sequence) as u64) == sequence % SEQUENCE_SPAN,
        timestamp_of(with_sequence(word, sequence) as u64) == timestamp_of(word),
        identifier_of(with_sequence(word, sequence) as u64) == identifier_of(word),
        sign_of(with_sequence(word, sequence) as u64) == sign_of(word),
{
    assert({
        let w = (word & !0xFFFu64) | (sequence & 0xFFFu64);
        &&& w == with_sequence(word, sequence)
        &&& sequence_of(w) == sequence % SEQUENCE_SPAN
        &&& timestamp_of(w) == timestamp_of(word)
        &&& identifier_of(w) == identifier_of(word)
        &&& sign_of(w) == sign_of(word)
    }) by (bit_vector);
}

/// Overwrites the timestamp field of `sid` with the low 41 bits of
/// `timestamp`; every other bit of `sid` is kept.
pub fn fill_timestamp(sid: u64, timestamp: u64) -> (word: u64)
    ensures
        word == with_timestamp(sid, timestamp),
        timestamp_of(word) == timestamp % TIMESTAMP_SPAN,
        identifier_of(word) == identifier_of(sid),
        sequence_of(word) == sequence_of(sid),
        sign_of(word) == sign_of(sid),
{
    let mask: u64 = 0x1FF_FFFF_FFFF;
    let truncated: u64 = timestamp & mask;
    let filled: u64 = truncated << 22;
    let word: u64 = (sid & !(mask << 22)) | filled;
    proof {
        lemma_with_timestamp(sid, timestamp);
    }
    word
}

/// Overwrites the identifier field of `sid` with the low 10 bits of
/// `identifier`; every other bit of `sid` is kept.
pub fn fill_identifier(sid: u64, identifier: u64) -> (word: u64)
    ensures
        word == with_identifier(sid, identifier),
        identifier_of(word) == identifier % IDENTIFIER_SPAN,
        timestamp_of(word) == timestamp_of(sid),
        sequence_of(word) == sequence_of(sid),
        sign_of(word) == sign_of(sid),
{
    let mask: u64 = 0x3FF;
    let truncated: u64 = identifier & mask;
    let filled: u64 = truncated << 12;
    let word: u64 = (sid & !(mask << 12)) | filled;
    proof {
        lemma_with_identifier(sid, identifier);
    }
    word
}

/// Overwrites the sequence field of `sid` with the low 12 bits of
/// `sequence`; every other bit of `sid` is kept.
pub fn fill_sequence(sid: u64, sequence: u64) -> (word: u64)
    ensures
        word == with_sequence(sid, sequence),
        sequence_of(word) == sequence % SEQUENCE_SPAN,
        timestamp_of(word) == timestamp_of(sid),
        identifier_of(word) == identifier_of(sid),
        sign_of(word) == sign_of(sid),
{
    let mask: u64 = 0xFFF;
    let truncated: u64 = sequence & mask;
    let word: u64 = (sid & !mask) | truncated;
    proof {
        lemma_with_sequence(sid, sequence);
    }
    word
}

/// Overwrites all three fields of `dest`, keeping only its sign bit.
pub fn filling(dest: u64, timestamp: u64, identifier: u64, sequence: u64) -> (word: u64)
    ensures
        word == compose(sign_of(dest), timestamp, identifier, sequence),
        timestamp_of(word) == timestamp % TIMESTAMP_SPAN,
        identifier_of(word) == identifier % IDENTIFIER_SPAN,
        sequence_of(word) == sequence % SEQUENCE_SPAN,
        sign_of(word) == sign_of(dest),
{
    let sid = fill_timestamp(dest, timestamp);
    let sid = fill_identifier(sid, identifier);
    fill_sequence(sid, sequence)
}

/// The fields as shifts and masks: each field function reads exactly
/// its own bit range of the word.
pub proof fn lemma_fields_are_bit_ranges(word: u64)
    ensures
        sign_of(word) == word >> 63,
        timestamp_of(word) == (word >> 22) & 0x1FF_FFFF_FFFF,
        identifier_of(word) == (word >> 12) & 0x3FF,
        sequence_of(word) == word & 0xFFF,
{
    assert(sign_of(word) == word >> 63) by (bit_vector);
    assert(timestamp_of(word) == (word >> 22) & 0x1FF_FFFF_FFFF) by (bit_vector);
    assert(identifier_of(word) == (word >> 12) & 0x3FF) by (bit_vector);
    assert(sequence_of(word) == word & 0xFFF) by (bit_vector);
}

/// A word is made of its four fields and of nothing else.
pub proof fn lemma_word_is_its_fields(word: u64)
    ensures
        word == compose(sign_of(word), timestamp_of(word), identifier_of(word), sequence_of(word)),
{
    assert(word == compose(
        sign_of(word),
        timestamp_of(word),
        identifier_of(word),
        sequence_of(word),
    )) by (bit_vector);
}

/// Packing then extracting: the word composed of four values fits in 64
/// bits, and each of its fields is the value given for it, reduced to
/// the width of the field.
pub proof fn lemma_compose_then_extract(sign: u64, timestamp: u64, identifier: u64, sequence: u64)
    ensures
        0 <= compose(sign, timestamp, identifier, sequence) <= u64::MAX,
        sign_of(compose(sign, timestamp, identifier, sequence) as u64) == sign % 2,
        timestamp_of(compose(sign, timestamp, identifier, sequence) as u64) == timestamp
            % TIMESTAMP_SPAN,
        identifier_of(compose(sign, timestamp, identifier, sequence) as u64) == identifier
            % IDENTIFIER_SPAN,
        sequence_of(compose(sign, timestamp, identifier, sequence) as u64) == sequence
            % SEQUENCE_SPAN,
{
    let a = sign % 2;
    let t = timestamp % TIMESTAMP_SPAN;
    let i = identifier % IDENTIFIER_SPAN;
    let s = sequence % SEQUENCE_SPAN;
    assert(a < 2 && t < 0x200_0000_0000 && i < 0x400 && s < 0x1000);
    assert(a < 2 && t < 0x200_0000_0000 && i < 0x400 && s < 0x1000 ==> {
        let w = (a * 0x8000_0000_0000_0000u64 + t * 0x40_0000u64 + i * 0x1000u64 + s) as u64;
        &&& a * 0x8000_0000_0000_0000u64 + t * 0x40_0000u64 + i * 0x1000u64 + s
            <= 0xFFFF_FFFF_FFFF_FFFFu64
        &&& sign_of(w) == a
        &&& timestamp_of(w) == t
        &&& identifier_of(w) == i
        &&& sequence_of(w) == s
    }) by (bit_vector);
}

/// Writing one field never disturbs another: after a value is written
/// into one field and then another value into a different field, the
/// first field still holds the first value.
pub proof fn lemma_fills_are_independent(word: u64, first: u64, second: u64)
    ensures
        0 <= with_timestamp(word, first) <= u64::MAX,
        0 <= with_identifier(word, first) <= u64::MAX,
        0 <= with_sequence(word, first) <= u64::MAX,
        timestamp_of(with_identifier(with_timestamp(word, first) as u64, second) as u64) == first
            % TIMESTAMP_SPAN,
        timestamp_of(with_sequence(with_timestamp(word, first) as u64, second) as u64) == first
            % TIMESTAMP_SPAN,
        identifier_of(with_timestamp(with_identifier(word, first) as u64, second) as u64) == first
            % IDENTIFIER_SPAN,
        identifier_of(with_sequence(with_identifier(word, first) as u64, second) as u64) == first
            % IDENTIFIER_SPAN,
        sequence_of(with_timestamp(with_sequence(word, first) as u64, second) as u64) == first
            % SEQUENCE_SPAN,
        sequence_of(with_identifier(with_sequence(word, first) as u64, second) as u64) == first
            % SEQUENCE_SPAN,
{
    lemma_with_timestamp(word, first);
    lemma_with_identifier(word, first);
    lemma_with_sequence(word, first);
    let t = with_timestamp(word, first) as u64;
    let i = with_identifier(word, first) as u64;
    let s = with_sequence(word, first) as u64;
    lemma_with_identifier(t, second);
    lemma_with_sequence(t, second);
    lemma_with_timestamp(i, second);
    lemma_with_sequence(i, second);
    lemma_with_timestamp(s, second);
    lemma_with_identifier(s, second);
}

/// Truncation is idempotent: a value too wide for its field is stored as
/// its remainder, so storing the remainder gives the same word.
pub proof fn lemma_truncation_is_idempotent(word: u64, value: u64)
    ensures
        with_timestamp(word, value) == with_timestamp(word, value % TIMESTAMP_SPAN),
        with_identifier(word, value) == with_identifier(word, value % IDENTIFIER_SPAN),
        with_sequence(word, value) == with_sequence(word, value % SEQUENCE_SPAN),
{
}

} // verus!
