//! The status-and-log protocol, driven with simulated driver replies.

use glshader::diag::{clip_log, log_buffer, log_capacity, DiagAction, DiagEvent, DiagState};

#[test]
fn capacity_of_zero_length_is_zero() {
    assert_eq!(log_capacity(0), 0);
}

#[test]
fn capacity_of_negative_length_is_zero() {
    assert_eq!(log_capacity(-5), 0);
}

#[test]
fn capacity_of_positive_length_is_itself() {
    assert_eq!(log_capacity(7), 7);
}

#[test]
fn log_buffer_is_blank_and_sized() {
    let v = log_buffer(4);
    assert_eq!(v, vec![32u8, 32, 32, 32]);
}

#[test]
fn log_buffer_of_zero_capacity_is_empty() {
    let v = log_buffer(0);
    assert!(v.is_empty());
}

#[test]
fn clip_log_of_empty_buffer_is_empty() {
    assert_eq!(clip_log(Vec::new()), Vec::<u8>::new());
}

#[test]
fn clip_log_of_lone_terminator_is_empty() {
    assert_eq!(clip_log(vec![0u8]), Vec::<u8>::new());
}

#[test]
fn clip_log_stops_at_terminator() {
    let filled = b"bad line\0   ".to_vec();
    assert_eq!(clip_log(filled), b"bad line".to_vec());
}

#[test]
fn clip_log_without_terminator_keeps_all() {
    let filled = b"abc".to_vec();
    assert_eq!(clip_log(filled), b"abc".to_vec());
}

#[test]
fn success_status_ends_the_protocol() {
    let (state, action) = DiagState::AwaitStatus.step(DiagEvent::Status(1));
    assert!(matches!(state, DiagState::Succeeded));
    assert!(matches!(action, DiagAction::Done));
}

#[test]
fn failure_status_asks_for_the_log_length() {
    let (state, action) = DiagState::AwaitStatus.step(DiagEvent::Status(0));
    assert!(matches!(state, DiagState::AwaitLogLength));
    assert!(matches!(action, DiagAction::QueryLogLength));
}

#[test]
fn log_length_asks_for_a_read_of_that_size() {
    let (state, action) = DiagState::AwaitLogLength.step(DiagEvent::LogLength(12));
    assert!(matches!(state, DiagState::AwaitLogBytes { capacity: 12 }));
    assert!(matches!(action, DiagAction::ReadLog { capacity: 12 }));
}

#[test]
fn filled_buffer_ends_in_failure_with_the_clipped_log() {
    let state = DiagState::AwaitLogBytes { capacity: 8 };
    let (state, action) = state.step(DiagEvent::LogBytes(b"oh no\0  ".to_vec()));
    match state {
        DiagState::Failed { log } => assert_eq!(log, b"oh no".to_vec()),
        _ => panic!("expected a failed terminal state"),
    }
    assert!(matches!(action, DiagAction::Done));
}

#[test]
fn zero_length_log_round_trips_to_empty() {
    // A failing operation whose driver reports a zero-length log.
    let (state, _) = DiagState::AwaitStatus.step(DiagEvent::Status(0));
    let (state, action) = state.step(DiagEvent::LogLength(0));
    assert!(matches!(action, DiagAction::ReadLog { capacity: 0 }));
    let buffer = match state {
        DiagState::AwaitLogBytes { capacity } => log_buffer(capacity),
        _ => panic!("expected to be reading the log"),
    };
    assert!(buffer.is_empty());
    let (state, _) = DiagState::AwaitLogBytes { capacity: 0 }.step(DiagEvent::LogBytes(buffer));
    match state {
        DiagState::Failed { log } => assert!(log.is_empty()),
        _ => panic!("expected a failed terminal state"),
    }
}
