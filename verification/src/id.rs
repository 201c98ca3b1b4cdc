//! The identifier value handed to callers.

use crate::layout::{
    compose, filling, identifier_of, sequence_of, sign_of, timestamp_of, IDENTIFIER_SPAN,
    SEQUENCE_SPAN, TIMESTAMP_SPAN,
};
use vstd::prelude::*;

verus! {

/// An issued identifier: a non-negative 64-bit integer whose bits hold a
/// timestamp, an instance identifier and a sequence number.
///
/// Equality, ordering and hashing are those of the wrapped integer.
#[derive(Debug, Clone, PartialEq, Eq, PartialOrd, Ord, Hash)]
pub struct Snowflake(i64);

impl View for Snowflake {
    type V = int;

    /// The integer this identifier stands for.
    closed spec fn view(&self) -> int {
        self.0 as int
    }
}

/// The value of the identifier issued at `timestamp` by instance
/// `identifier` with sequence number `sequence`: the three fields side by
/// side under a clear sign bit.
pub open spec fn issued_value(timestamp: u64, identifier: u64, sequence: u64) -> int {
    compose(0, timestamp, identifier, sequence)
}

impl Snowflake {
    /// The timestamp field of this identifier.
    pub open spec fn timestamp_field(&self) -> u64 {
        timestamp_of(self@ as u64)
    }

    /// The instance identifier field of this identifier.
    pub open spec fn identifier_field(&self) -> u64 {
        identifier_of(self@ as u64)
    }

    /// The sequence field of this identifier.
    pub open spec fn sequence_field(&self) -> u64 {
        sequence_of(self@ as u64)
    }

    /// Packs the three fields into a fresh identifier.
    pub fn issue(timestamp: u64, identifier: u64, sequence: u64) -> (id: Snowflake)
        ensures
            id@ == issued_value(timestamp, identifier, sequence),
            0 <= id@ <= i64::MAX,
            id.timestamp_field() == timestamp % TIMESTAMP_SPAN,
            id.identifier_field() == identifier % IDENTIFIER_SPAN,
            id.sequence_field() == sequence % SEQUENCE_SPAN,
    {
        let word = filling(0, timestamp, identifier, sequence);
        assert(word <= 0x7FFF_FFFF_FFFF_FFFF) by {
            assert(sign_of(0) == 0 && sign_of(word) == 0);
        }
        Snowflake(word as i64)
    }
}

impl std::ops::Deref for Snowflake {
    type Target = i64;

    fn deref(&self) -> (v: &i64)
        ensures
            *v == self@,
    {
        &self.0
    }
}

impl AsRef<i64> for Snowflake {
    fn as_ref(&self) -> (v: &i64)
        ensures
            *v == self@,
    {
        &self.0
    }
}

impl vstd::std_specs::convert::FromSpecImpl<Snowflake> for i64 {
    open spec fn obeys_from_spec() -> bool {
        true
    }

    open spec fn from_spec(value: Snowflake) -> i64 {
        value@ as i64
    }
}

impl From<Snowflake> for i64 {
    fn from(value: Snowflake) -> (v: i64) {
        value.0
    }
}

} // verus!
