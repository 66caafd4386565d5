use pipe_poll::bridge::{PipeWriteListenState, PollOutcome};
use pipe_poll::fault::Fault;

#[test]
fn new_state_awaits_the_capture() {
    let state: PipeWriteListenState<u32> = PipeWriteListenState::new();
    assert!(!state.is_complete());
    assert!(!state.is_taken());
    assert!(!state.has_waker());
}

#[test]
fn poll_before_completion_is_pending_and_registers() {
    let mut state: PipeWriteListenState<u32> = PipeWriteListenState::new();
    assert_eq!(state.poll(7), PollOutcome::Pending);
    assert!(state.has_waker());
    assert!(!state.is_complete());
}

#[test]
fn later_poll_replaces_the_continuation() {
    let mut state: PipeWriteListenState<u32> = PipeWriteListenState::new();
    assert_eq!(state.poll(1), PollOutcome::Pending);
    assert_eq!(state.poll(2), PollOutcome::Pending);
    assert_eq!(state.poll(3), PollOutcome::Pending);
    assert_eq!(state.complete("text"), Some(3));
}

#[test]
fn completion_hands_out_the_continuation_once() {
    let mut state: PipeWriteListenState<u32> = PipeWriteListenState::new();
    assert_eq!(state.poll(9), PollOutcome::Pending);
    assert_eq!(state.complete("text"), Some(9));
    assert!(!state.has_waker());
    assert!(state.is_complete());
    assert!(!state.is_taken());
}

#[test]
fn completion_without_a_poller_wakes_nobody() {
    let mut state: PipeWriteListenState<u32> = PipeWriteListenState::new();
    assert_eq!(state.complete("text"), None);
    assert!(state.is_complete());
}

#[test]
fn captured_text_is_delivered_trimmed() {
    let mut state: PipeWriteListenState<u32> = PipeWriteListenState::new();
    assert_eq!(state.poll(1), PollOutcome::Pending);
    assert_eq!(state.complete("  hello world  "), Some(1));
    assert_eq!(state.poll(2), PollOutcome::Ready("hello world".to_string()));
}

#[test]
fn captured_text_is_kept_byte_for_byte_inside() {
    let mut state: PipeWriteListenState<u32> = PipeWriteListenState::new();
    let raw = "\n\tfirst line \u{e9}\n  second\tline\u{3000}x \n";
    state.complete(raw);
    assert_eq!(
        state.poll(0),
        PollOutcome::Ready("first line \u{e9}\n  second\tline\u{3000}x".to_string())
    );
}

#[test]
fn empty_capture_is_delivered_as_empty_text() {
    let mut state: PipeWriteListenState<u32> = PipeWriteListenState::new();
    state.complete("");
    assert_eq!(state.poll(0), PollOutcome::Ready(String::new()));
}

#[test]
fn ready_poll_does_not_register_its_continuation() {
    let mut state: PipeWriteListenState<u32> = PipeWriteListenState::new();
    state.complete("text");
    assert_eq!(state.poll(5), PollOutcome::Ready("text".to_string()));
    assert!(!state.has_waker());
}

#[test]
fn ready_poll_takes_the_text() {
    let mut state: PipeWriteListenState<u32> = PipeWriteListenState::new();
    state.complete("text");
    assert!(!state.is_taken());
    assert_eq!(state.poll(0), PollOutcome::Ready("text".to_string()));
    assert!(state.is_taken());
    assert!(state.is_complete());
}

#[test]
fn second_take_is_an_invariant_violation() {
    let mut state: PipeWriteListenState<u32> = PipeWriteListenState::new();
    state.complete("text");
    assert_eq!(state.try_poll(1), Ok(PollOutcome::Ready("text".to_string())));
    assert_eq!(state.try_poll(2), Err(Fault::InvariantViolation));
    assert_eq!(state.try_poll(3), Err(Fault::InvariantViolation));
    assert!(state.is_taken());
    assert!(!state.has_waker());
}

#[test]
fn try_poll_before_completion_is_pending() {
    let mut state: PipeWriteListenState<&str> = PipeWriteListenState::new();
    assert_eq!(state.try_poll("first"), Ok(PollOutcome::Pending));
    assert_eq!(state.try_poll("second"), Ok(PollOutcome::Pending));
    assert_eq!(state.complete(" x "), Some("second"));
    assert_eq!(state.try_poll("third"), Ok(PollOutcome::Ready("x".to_string())));
}
