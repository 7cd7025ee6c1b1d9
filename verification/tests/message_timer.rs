//! The epoch-guarded transient message timer.

use scene_pipeline::message::{MessageBoard, TimerRequest, MESSAGE_TIMEOUT_SECS};

#[test]
fn superseded_timer_cannot_clear_the_newer_message() {
    let mut board = MessageBoard::new(77);
    let timer_a = board.emit(String::from("A")).expect("a timer for A");
    let timer_b = board.emit(String::from("B")).expect("a timer for B");
    assert_eq!(timer_a, TimerRequest { event_id: 77, expected_epoch: 1 });
    assert_eq!(timer_b, TimerRequest { event_id: 77, expected_epoch: 2 });

    // B's timer fires first and clears; A's stale timer then changes nothing.
    let mut board2 = MessageBoard::new(77);
    board2.emit(String::from("A"));
    board2.emit(String::from("B"));
    assert_eq!(board2.message, "B");
    let cleared = board2.handle_expiry(timer_a.event_id, timer_a.expected_epoch);
    assert!(!cleared);
    assert_eq!(board2.message, "B");
    let cleared = board2.handle_expiry(timer_b.event_id, timer_b.expected_epoch);
    assert!(cleared);
    assert_eq!(board2.message, "");

    // In the other firing order the stale timer is still a no-op.
    let mut board3 = MessageBoard::new(77);
    board3.emit(String::from("A"));
    board3.emit(String::from("B"));
    assert!(board3.handle_expiry(timer_b.event_id, timer_b.expected_epoch));
    assert!(!board3.handle_expiry(timer_a.event_id, timer_a.expected_epoch));
    assert_eq!(board3.message, "");
}

#[test]
fn empty_message_is_a_no_op() {
    let mut board = MessageBoard::new(5);
    let timer = board.emit(String::new());
    assert!(timer.is_none());
    assert_eq!(board.epoch, 0);
    assert_eq!(board.message, "");
}

#[test]
fn wrong_event_id_never_clears() {
    let mut board = MessageBoard::new(5);
    let timer = board.emit(String::from("hello")).unwrap();
    assert!(!board.handle_expiry(timer.event_id + 1, timer.expected_epoch));
    assert_eq!(board.message, "hello");
}

#[test]
fn expiry_window_is_five_seconds() {
    assert_eq!(MESSAGE_TIMEOUT_SECS, 5);
}
