//! Snowflake identifiers: 64-bit, roughly time-ordered ids made of a
//! millisecond timestamp, an instance identifier and a per-millisecond
//! sequence number, together with the state machine that issues them.

pub mod generator;
pub mod id;
pub mod layout;
pub mod persisted;
pub mod provider;
pub mod sequencer;

pub use generator::{Attempt, SnowflakeConfiguration, SnowflakeGenerator};
pub use id::Snowflake;
pub use layout::{fill_identifier, fill_sequence, fill_timestamp, filling};
pub use persisted::PersistedSnowflakeGenerator;
pub use provider::TimeProvider;
