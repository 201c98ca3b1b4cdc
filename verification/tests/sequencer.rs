use snowflake_ng::sequencer::{advance, Step, MAX_SEQUENCE};
use snowflake_ng::Snowflake;

fn committed(step: Step) -> (u64, i64) {
    match step {
        Step::Commit { next, id } => (next, *id),
        Step::Wait => panic!("the attempt had to wait"),
    }
}

#[test]
fn clock_ahead_of_state_resets_the_sequence() {
    let (next, id) = committed(advance(0, 5, 3));
    assert_eq!(next, 5 << 16);
    assert_eq!(id, (5 << 22) | (3 << 12));

    let (next, id) = committed(advance((5 << 16) | 17, 6, 3));
    assert_eq!(next, 6 << 16);
    assert_eq!(id, (6 << 22) | (3 << 12));

    let (next, id) = committed(advance((5 << 16) | 4095, 9, 0));
    assert_eq!(next, 9 << 16);
    assert_eq!(id, 9 << 22);
}

#[test]
fn same_millisecond_takes_the_next_sequence() {
    let (next, id) = committed(advance(5 << 16, 5, 3));
    assert_eq!(next, (5 << 16) | 1);
    assert_eq!(id, (5 << 22) | (3 << 12) | 1);

    let (next, id) = committed(advance((5 << 16) | 4094, 5, 3));
    assert_eq!(next, (5 << 16) | 4095);
    assert_eq!(id, (5 << 22) | (3 << 12) | 4095);
}

#[test]
fn exhausted_millisecond_waits() {
    assert!(matches!(advance((5 << 16) | 4095, 5, 3), Step::Wait));
    assert!(matches!(advance((5 << 16) | 4096, 5, 3), Step::Wait));
    assert!(matches!(advance((5 << 16) | 0xFFFF, 5, 3), Step::Wait));
    assert_eq!(MAX_SEQUENCE, 4095);
}

#[test]
fn clock_behind_state_waits() {
    assert!(matches!(advance(5 << 16, 4, 3), Step::Wait));
    assert!(matches!(advance((5 << 16) | 9, 0, 3), Step::Wait));
    assert!(matches!(advance(u64::MAX, 7, 3), Step::Wait));
}

#[test]
fn fresh_state_at_time_zero_counts_from_one() {
    let (next, id) = committed(advance(0, 0, 0));
    assert_eq!(next, 1);
    assert_eq!(id, 1);
}

#[test]
fn timestamp_is_cut_to_its_field_in_the_identifier() {
    let now = (1u64 << 41) + 5;
    let (next, id) = committed(advance(0, now, 1));
    assert_eq!(next, now << 16);
    assert_eq!(id, (5 << 22) | (1 << 12));
}

#[test]
fn state_keeps_forty_eight_bits_of_the_clock() {
    let now = (1u64 << 48) + 5;
    let (next, id) = committed(advance(0, now, 1));
    assert_eq!(next, 5 << 16);
    assert_eq!(id, (5 << 22) | (1 << 12));
}

#[test]
fn identifier_is_cut_to_ten_bits_in_the_identifier() {
    let (_, id) = committed(advance(0, 5, 2000));
    let (_, same) = committed(advance(0, 5, 2000 % 1024));
    assert_eq!(id, same);
    assert_eq!(id, (5 << 22) | (976 << 12));
}

#[test]
fn successive_commits_issue_increasing_identifiers() {
    let clock: Vec<u64> = vec![10, 10, 10, 11, 11, 15, 15, 15, 15, 400, 401];
    let mut state = 0u64;
    let mut previous: Option<i64> = None;
    for now in clock {
        let (next, id) = committed(advance(state, now, 77));
        assert!(next > state);
        if let Some(p) = previous {
            assert!(id > p);
        }
        previous = Some(id);
        state = next;
    }
    assert_eq!(previous, Some((401 << 22) | (77 << 12)));
}

#[test]
fn issue_packs_the_three_fields() {
    assert_eq!(*Snowflake::issue(1, 2, 3), (1 << 22) | (2 << 12) | 3);
    assert_eq!(*Snowflake::issue(u64::MAX, u64::MAX, u64::MAX), i64::MAX);
    assert_eq!(*Snowflake::issue(0, 0, 0), 0);
}

#[test]
fn snowflake_compares_as_its_integer() {
    let a = Snowflake::issue(1, 2, 3);
    let b = Snowflake::issue(1, 2, 4);
    let c = Snowflake::issue(1, 2, 3);
    assert!(a < b);
    assert_eq!(a, c);
    assert_ne!(a, b);
    assert_eq!(a.clone(), a);
    assert_eq!(i64::from(b), (1 << 22) | (2 << 12) | 4);
    assert_eq!(format!("{:?}", c), "Snowflake(4202499)");
}
