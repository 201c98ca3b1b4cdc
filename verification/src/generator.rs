//! The generator: one shared state word and a fixed instance identifier.

use crate::id::{issued_value, Snowflake};
use crate::layout::{IDENTIFIER_SPAN, TIMESTAMP_SPAN};
use crate::sequencer::{advance, commits, issued_sequence, Step, MAX_SEQUENCE};
use rand::RngCore;
use std::sync::atomic::{AtomicU64, Ordering};
use vstd::prelude::*;

verus! {

/// What distinguishes one generator from the others of a fleet.
#[derive(Debug)]
pub struct SnowflakeConfiguration {
    /// The instance identifier. Only its low 10 bits reach an identifier
    /// value; a larger number is cut down without notice.
    pub identifier: u64,
}

/// Draws 64 random bits from `rand::thread_rng()` with
/// `RngCore::next_u64`. Nothing is claimed of the value. `rand` stops the
/// program where the system gives it no seed.
#[verifier::external_body]
fn random_identifier() -> u64 {
    rand::thread_rng().next_u64()
}

impl SnowflakeConfiguration {
    /// A configuration with the given instance identifier.
    pub fn with_identifier(identifier: u64) -> (cfg: Self)
        ensures
            cfg.identifier == identifier,
    {
        Self { identifier }
    }
}

impl Default for SnowflakeConfiguration {
    /// A configuration with a random instance identifier.
    fn default() -> Self {
        Self { identifier: random_identifier() }
    }
}

/// The outcome of one attempt to issue an identifier.
#[derive(Debug)]
pub enum Attempt {
    /// The identifier was issued.
    Assigned(Snowflake),
    /// Another caller changed the state first; try again at once.
    Contended,
    /// Nothing can be issued before the clock moves; try again after a
    /// millisecond.
    Wait,
}

/// Issues identifiers. Any number of callers may share one generator:
/// its state is a single atomic word, read and replaced without a lock.
#[derive(Debug)]
pub struct SnowflakeGenerator {
    timestamp_sequence: AtomicU64,
    cfg: SnowflakeConfiguration,
}

impl SnowflakeGenerator {
    /// The instance identifier this generator was configured with.
    pub closed spec fn identifier(&self) -> u64 {
        self.cfg.identifier
    }

    /// A generator that has issued nothing yet.
    pub fn with_cfg(cfg: SnowflakeConfiguration) -> (generator: Self)
        ensures
            generator.identifier() == cfg.identifier,
    {
        Self { cfg, timestamp_sequence: AtomicU64::new(0) }
    }

    /// Makes one attempt to issue an identifier with the clock at `now`:
    /// reads the state, decides, and commits the decision if no other
    /// caller has changed the state in between.
    ///
    /// Whatever state was read, an identifier that comes back carries
    /// `now` and this generator's instance identifier, and a sequence
    /// number that the state allowed.
    pub fn try_assign(&self, now: u64) -> (attempt: Attempt)
        ensures
            match attempt {
                Attempt::Assigned(id) => {
                    &&& exists|current: u64|
                        commits(current, now) && id@ == issued_value(
                            now,
                            self.identifier(),
                            #[trigger] issued_sequence(current, now),
                        )
                    &&& 0 <= id@ <= i64::MAX
                    &&& id.timestamp_field() == now % TIMESTAMP_SPAN
                    &&& id.identifier_field() == self.identifier() % IDENTIFIER_SPAN
                    &&& id.sequence_field() <= MAX_SEQUENCE
                },
                Attempt::Contended => exists|current: u64| #[trigger] commits(current, now),
                Attempt::Wait => exists|current: u64| !#[trigger] commits(current, now),
            },
    {
        let current = self.timestamp_sequence.load(Ordering::Relaxed);
        match advance(current, now, self.cfg.identifier) {
            Step::Commit { next, id } => {
                let exchanged = self.timestamp_sequence.compare_exchange(
                    current,
                    next,
                    Ordering::SeqCst,
                    Ordering::SeqCst,
                );
                match exchanged {
                    Ok(_) => Attempt::Assigned(id),
                    Err(_) => Attempt::Contended,
                }
            },
            Step::Wait => Attempt::Wait,
        }
    }
}

impl Default for SnowflakeGenerator {
    /// A generator with a random instance identifier.
    fn default() -> Self {
        Self::with_cfg(SnowflakeConfiguration::default())
    }
}

} // verus!
