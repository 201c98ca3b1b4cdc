//! A generator bound to its clock.

use crate::generator::{Attempt, SnowflakeGenerator};
use crate::id::issued_value;
use crate::provider::TimeProvider;
use crate::layout::IDENTIFIER_SPAN;
use crate::sequencer::{commits, issued_sequence, MAX_SEQUENCE};
use std::sync::Arc;
use vstd::prelude::*;

verus! {

/// A shared generator together with the clock it reads, so that callers
/// need not pass the clock on every call. A clone shares both: all clones
/// draw from the same state.
#[derive(Debug)]
pub struct PersistedSnowflakeGenerator<T> {
    generator: Arc<SnowflakeGenerator>,
    provider: Arc<T>,
}

impl<T> PersistedSnowflakeGenerator<T> where T: TimeProvider + Send + Sync {
    /// The generator that is shared.
    pub closed spec fn generator(&self) -> Arc<SnowflakeGenerator> {
        self.generator
    }

    /// The clock that is shared.
    pub closed spec fn provider(&self) -> Arc<T> {
        self.provider
    }

    /// Binds `generator` to `provider`.
    pub fn new(generator: Arc<SnowflakeGenerator>, provider: Arc<T>) -> (persisted: Self)
        ensures
            persisted.generator() == generator,
            persisted.provider() == provider,
    {
        Self { generator, provider }
    }

    /// Reads the clock and makes one attempt to issue an identifier.
    pub fn try_assign(&self) -> (attempt: Attempt)
        ensures
            match attempt {
                Attempt::Assigned(id) => {
                    &&& exists|current: u64, now: u64|
                        commits(current, now) && id@ == issued_value(
                            now,
                            self.generator().identifier(),
                            #[trigger] issued_sequence(current, now),
                        )
                    &&& 0 <= id@ <= i64::MAX
                    &&& id.identifier_field() == self.generator().identifier()
                        % IDENTIFIER_SPAN
                    &&& id.sequence_field() <= MAX_SEQUENCE
                },
                Attempt::Contended => exists|current: u64, now: u64| #[trigger]
                    commits(current, now),
                Attempt::Wait => exists|current: u64, now: u64| !#[trigger] commits(current, now),
            },
    {
        let now = self.provider.timestamp();
        self.generator.try_assign(now)
    }
}

impl<T> Clone for PersistedSnowflakeGenerator<T> {
    fn clone(&self) -> (copy: Self)
        ensures
            copy == *self,
    {
        Self { generator: self.generator.clone(), provider: self.provider.clone() }
    }
}

} // verus!
