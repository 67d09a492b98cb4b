use external_capture::sequence::{SequenceDecision, SessionSequence};

#[test]
fn sequence_starts_at_one_deduplicates_and_poison_on_gap() {
    let mut state = SessionSequence::default();
    assert_eq!(state.observe(1), SequenceDecision::Accept);
    assert_eq!(state.observe(1), SequenceDecision::Duplicate);
    assert_eq!(state.observe(2), SequenceDecision::Accept);
    assert_eq!(
        state.observe(4),
        SequenceDecision::Gap {
            expected: 3,
            got: 4
        }
    );
    assert_eq!(state.observe(3), SequenceDecision::Poisoned);
}

#[test]
fn sequence_rejects_partial_session_prefix() {
    let mut state = SessionSequence::default();
    assert_eq!(
        state.observe(42),
        SequenceDecision::Gap {
            expected: 1,
            got: 42
        }
    );
}

#[test]
fn frame_zero_is_a_gap_in_a_fresh_session_and_a_duplicate_later() {
    let mut fresh = SessionSequence::default();
    assert_eq!(
        fresh.observe(0),
        SequenceDecision::Gap {
            expected: 1,
            got: 0
        }
    );
    assert!(fresh.poisoned);
    assert_eq!(fresh.last, None);

    let mut running = SessionSequence::default();
    assert_eq!(running.observe(1), SequenceDecision::Accept);
    assert_eq!(running.observe(0), SequenceDecision::Duplicate);
    assert!(!running.poisoned);
}

#[test]
fn the_largest_number_ends_the_numbering() {
    let mut state = SessionSequence {
        last: Some(u64::MAX - 1),
        poisoned: false,
    };
    assert_eq!(state.observe(u64::MAX), SequenceDecision::Accept);
    assert_eq!(state.observe(u64::MAX), SequenceDecision::Duplicate);
    assert_eq!(state.observe(1), SequenceDecision::Duplicate);
    assert_eq!(state.last, Some(u64::MAX));
}

#[test]
fn a_gap_keeps_the_last_accepted_number() {
    let mut state = SessionSequence::default();
    assert_eq!(state.observe(1), SequenceDecision::Accept);
    assert_eq!(
        state.observe(u64::MAX),
        SequenceDecision::Gap {
            expected: 2,
            got: u64::MAX
        }
    );
    assert_eq!(
        state,
        SessionSequence {
            last: Some(1),
            poisoned: true
        }
    );
}
