//! The rule by which a generator moves from one state to the next.
//!
//! A generator's whole state is one 64-bit word: the millisecond of the
//! last identifier it issued in the upper 48 bits, and that identifier's
//! sequence number in the lower 16. An attempt to issue an identifier
//! reads the clock, looks at the state, and either commits a new state
//! together with an identifier or has to wait for the clock.

use crate::id::{issued_value, Snowflake};
use crate::layout::{IDENTIFIER_SPAN, TIMESTAMP_SPAN};
use vstd::prelude::*;

verus! {

/// The largest sequence number of a millisecond; with 0 counted, a
/// millisecond has room for 4096 identifiers.
pub const MAX_SEQUENCE: u64 = 0xFFF;

/// Weight of the timestamp inside a state word, `2^16`.
pub const STATE_UNIT: u64 = 0x1_0000;

/// Number of distinct timestamps a state word can hold, `2^48`.
pub const STATE_TIMESTAMP_SPAN: u64 = 0x1_0000_0000_0000;

/// The millisecond recorded in a state word.
pub open spec fn state_timestamp(state: u64) -> u64 {
    state / STATE_UNIT
}

/// The sequence number recorded in a state word.
pub open spec fn state_sequence(state: u64) -> u64 {
    state % STATE_UNIT
}

/// The state word that records millisecond `timestamp` (kept modulo
/// `2^48`) and sequence number `sequence`.
pub open spec fn state_word(timestamp: u64, sequence: u64) -> int
    recommends
        sequence < STATE_UNIT,
{
    (timestamp % STATE_TIMESTAMP_SPAN) * STATE_UNIT + sequence
}

/// Whether an attempt made in state `current` with the clock at `now`
/// issues an identifier: the clock has moved on since the last one, or it
/// has not and the millisecond still has a sequence number left.
pub open spec fn commits(current: u64, now: u64) -> bool {
    state_timestamp(current) < now || (state_timestamp(current) == now && state_sequence(current)
        < MAX_SEQUENCE)
}

/// The sequence number of the identifier that a committing attempt
/// issues: 0 in a new millisecond, the next number otherwise.
pub open spec fn issued_sequence(current: u64, now: u64) -> u64 {
    if state_timestamp(current) < now {
        0
    } else {
        (state_sequence(current) + 1) as u64
    }
}

/// The state after an attempt: unchanged when it has to wait, otherwise
/// the record of the identifier just issued.
pub open spec fn next_state(current: u64, now: u64) -> u64 {
    if commits(current, now) {
        state_word(now, issued_sequence(current, now)) as u64
    } else {
        current
    }
}

/// What one attempt decides.
#[derive(Debug)]
pub enum Step {
    /// Replace the state by `next`; if that succeeds, `id` is issued.
    Commit { next: u64, id: Snowflake },
    /// Nothing can be issued before the clock moves: the millisecond is
    /// used up, or the clock is behind the last identifier.
    Wait,
}

/// Decides one attempt from the state read and the clock read. Neither
/// is changed; the caller commits `next` if the state is still `current`.
pub fn advance(current: u64, now: u64, identifier: u64) -> (step: Step)
    ensures
        match step {
            Step::Commit { next, id } => {
                &&& commits(current, now)
                &&& next == next_state(current, now)
                &&& id@ == issued_value(now, identifier, issued_sequence(current, now))
                &&& 0 <= id@ <= i64::MAX
                &&& id.timestamp_field() == now % TIMESTAMP_SPAN
                &&& id.identifier_field() == identifier % IDENTIFIER_SPAN
                &&& id.sequence_field() == issued_sequence(current, now)
            },
            Step::Wait => !commits(current, now),
        },
{
    let current_timestamp: u64 = current >> 16;
    let current_sequence: u64 = current & 0xFFFF;
    assert(current >> 16 == current / 0x1_0000 && current & 0xFFFF == current % 0x1_0000)
        by (bit_vector);
    if current_timestamp < now {
        let next: u64 = now << 16;
        assert(now << 16 == (now % 0x1_0000_0000_0000) * 0x1_0000) by (bit_vector);
        Step::Commit { next, id: Snowflake::issue(now, identifier, 0) }
    } else if current_timestamp == now && current_sequence < MAX_SEQUENCE {
        let new_sequence: u64 = current_sequence + 1;
        let next: u64 = (now << 16) | new_sequence;
        assert(new_sequence <= 0xFFF ==> (now << 16) | new_sequence == (now % 0x1_0000_0000_0000)
            * 0x1_0000 + new_sequence) by (bit_vector);
        Step::Commit { next, id: Snowflake::issue(now, identifier, new_sequence) }
    } else {
        Step::Wait
    }
}

/// The state after the first `k` attempts of a history that begins in
/// state `start` and reads `clock[0]`, `clock[1]`, ... in turn. An attempt
/// that loses a race changes nothing and issues nothing, so a history
/// lists only the attempts whose decision took effect.
pub open spec fn state_at(start: u64, clock: Seq<u64>, k: nat) -> u64
    decreases k,
{
    if k == 0 || k > clock.len() {
        start
    } else {
        next_state(state_at(start, clock, (k - 1) as nat), clock[k - 1])
    }
}

/// Whether attempt `k` of a history issues an identifier.
pub open spec fn issues_at(start: u64, clock: Seq<u64>, k: int) -> bool {
    0 <= k < clock.len() && commits(state_at(start, clock, k as nat), clock[k])
}

/// The value of the identifier that attempt `k` of a history issues.
pub open spec fn value_at(start: u64, clock: Seq<u64>, identifier: u64, k: int) -> int {
    issued_value(clock[k], identifier, issued_sequence(state_at(start, clock, k as nat), clock[k]))
}

/// Identifiers of one instance compare as their (timestamp, sequence)
/// pairs do.
pub proof fn lemma_value_order(
    first_timestamp: u64,
    first_sequence: u64,
    second_timestamp: u64,
    second_sequence: u64,
    identifier: u64,
)
    requires
        first_timestamp < TIMESTAMP_SPAN,
        second_timestamp < TIMESTAMP_SPAN,
        first_sequence <= MAX_SEQUENCE,
        second_sequence <= MAX_SEQUENCE,
    ensures
        issued_value(first_timestamp, identifier, first_sequence) < issued_value(
            second_timestamp,
            identifier,
            second_sequence,
        ) <==> first_timestamp < second_timestamp || (first_timestamp == second_timestamp
            && first_sequence < second_sequence),
{
}

/// A committing attempt records the clock it read and the sequence number
/// it issued, and, while the clock fits in 48 bits, the state word grows.
pub proof fn lemma_commit_moves_forward(current: u64, now: u64)
    requires
        commits(current, now),
    ensures
        state_timestamp(next_state(current, now)) == now % STATE_TIMESTAMP_SPAN,
        state_sequence(next_state(current, now)) == issued_sequence(current, now),
        issued_sequence(current, now) <= MAX_SEQUENCE,
        now < STATE_TIMESTAMP_SPAN ==> current < next_state(current, now),
{
}

/// One millisecond has room for exactly 4096 identifiers. The first
/// attempt of a millisecond issues sequence number 0; in the state that
/// records number `sequence`, the next attempt in the same millisecond
/// issues `sequence + 1` as long as that is at most 4095, and has to wait
/// once 4095 has been issued; an attempt in any later millisecond starts
/// again at 0.
pub proof fn lemma_millisecond_budget(earlier: u64, now: u64, sequence: u64, later: u64)
    requires
        state_timestamp(earlier) < now,
        now < later,
        later < STATE_TIMESTAMP_SPAN,
        sequence <= MAX_SEQUENCE,
    ensures
        commits(earlier, now),
        next_state(earlier, now) == state_word(now, 0),
        issued_sequence(earlier, now) == 0,
        sequence < MAX_SEQUENCE ==> {
            &&& commits(state_word(now, sequence) as u64, now)
            &&& issued_sequence(state_word(now, sequence) as u64, now) == sequence + 1
            &&& next_state(state_word(now, sequence) as u64, now) == state_word(
                now,
                (sequence + 1) as u64,
            )
        },
        sequence == MAX_SEQUENCE ==> {
            &&& !commits(state_word(now, sequence) as u64, now)
            &&& next_state(state_word(now, sequence) as u64, now) == state_word(now, sequence)
        },
        commits(state_word(now, sequence) as u64, later),
        issued_sequence(state_word(now, sequence) as u64, later) == 0,
        next_state(state_word(now, sequence) as u64, later) == state_word(later, 0),
{
}

/// Monotonicity of two identifiers issued one after the other: if an
/// attempt commits, and the next attempt to commit reads a clock that
/// still fits the 41-bit timestamp field, the second identifier is
/// strictly larger than the first; issued in the same millisecond, it has
/// the larger sequence number.
pub proof fn lemma_successive_ids_increase(
    current: u64,
    first_now: u64,
    second_now: u64,
    identifier: u64,
)
    requires
        commits(current, first_now),
        commits(next_state(current, first_now), second_now),
        second_now < TIMESTAMP_SPAN,
    ensures
        issued_value(first_now, identifier, issued_sequence(current, first_now)) < issued_value(
            second_now,
            identifier,
            issued_sequence(next_state(current, first_now), second_now),
        ),
        first_now == second_now ==> issued_sequence(current, first_now) < issued_sequence(
            next_state(current, first_now),
            second_now,
        ),
{
    let middle = next_state(current, first_now);
    lemma_commit_moves_forward(current, first_now);
    lemma_later_id_is_larger(
        first_now,
        issued_sequence(current, first_now),
        middle,
        second_now,
        identifier,
    );
}

/// An identifier issued from a state that is not below the record of an
/// earlier identifier is larger than that identifier.
proof fn lemma_later_id_is_larger(
    earlier_now: u64,
    earlier_sequence: u64,
    current: u64,
    now: u64,
    identifier: u64,
)
    requires
        earlier_sequence <= MAX_SEQUENCE,
        state_word(earlier_now, earlier_sequence) <= current,
        commits(current, now),
        now < TIMESTAMP_SPAN,
    ensures
        issued_value(earlier_now, identifier, earlier_sequence) < issued_value(
            now,
            identifier,
            issued_sequence(current, now),
        ),
        earlier_now == now ==> earlier_sequence < issued_sequence(current, now),
{
    let earlier_timestamp: u64 = earlier_now % STATE_TIMESTAMP_SPAN;
    assert(earlier_timestamp <= state_timestamp(current));
    assert(earlier_timestamp < TIMESTAMP_SPAN);
    assert(earlier_now % 0x1_0000_0000_0000 < 0x200_0000_0000 ==> earlier_now % 0x200_0000_0000
        == earlier_now % 0x1_0000_0000_0000) by (bit_vector);
    assert(issued_value(earlier_now, identifier, earlier_sequence) == issued_value(
        earlier_timestamp,
        identifier,
        earlier_sequence,
    ));
    lemma_value_order(
        earlier_timestamp,
        earlier_sequence,
        now,
        issued_sequence(current, now),
        identifier,
    );
}

/// While the clock readings fit in 48 bits, the state of a history never
/// decreases.
pub proof fn lemma_state_never_decreases(start: u64, clock: Seq<u64>, from: nat, to: nat)
    requires
        from <= to <= clock.len(),
        forall|k: int| from <= k < to ==> clock[k] < STATE_TIMESTAMP_SPAN,
    ensures
        state_at(start, clock, from) <= state_at(start, clock, to),
    decreases to,
{
    if from < to {
        lemma_state_never_decreases(start, clock, from, (to - 1) as nat);
        let before = state_at(start, clock, (to - 1) as nat);
        if commits(before, clock[to - 1]) {
            lemma_commit_moves_forward(before, clock[to - 1]);
        }
    }
}

/// Monotonicity and uniqueness over a whole history: of any two
/// identifiers that one generator issues, the later one is strictly
/// larger, as long as the clock readings after the first of the two fit
/// the 41-bit timestamp field. In particular no value is issued twice.
pub proof fn lemma_history_ids_increase(
    start: u64,
    clock: Seq<u64>,
    identifier: u64,
    first: int,
    second: int,
)
    requires
        first < second,
        issues_at(start, clock, first),
        issues_at(start, clock, second),
        forall|k: int| first < k <= second ==> clock[k] < TIMESTAMP_SPAN,
    ensures
        value_at(start, clock, identifier, first) < value_at(start, clock, identifier, second),
{
    let before_first = state_at(start, clock, first as nat);
    let after_first = state_at(start, clock, (first + 1) as nat);
    let before_second = state_at(start, clock, second as nat);
    assert(after_first == next_state(before_first, clock[first]));
    lemma_commit_moves_forward(before_first, clock[first]);
    lemma_state_never_decreases(start, clock, (first + 1) as nat, second as nat);
    lemma_later_id_is_larger(
        clock[first],
        issued_sequence(before_first, clock[first]),
        before_second,
        clock[second],
        identifier,
    );
}

/// Uniqueness: while the clock readings fit the 41-bit timestamp field,
/// no two attempts of a history issue the same value.
pub proof fn lemma_history_ids_distinct(
    start: u64,
    clock: Seq<u64>,
    identifier: u64,
    first: int,
    second: int,
)
    requires
        first != second,
        issues_at(start, clock, first),
        issues_at(start, clock, second),
        forall|k: int| 0 <= k < clock.len() ==> clock[k] < TIMESTAMP_SPAN,
    ensures
        value_at(start, clock, identifier, first) != value_at(start, clock, identifier, second),
{
    if first < second {
        lemma_history_ids_increase(start, clock, identifier, first, second);
    } else {
        lemma_history_ids_increase(start, clock, identifier, second, first);
    }
}

} // verus!
