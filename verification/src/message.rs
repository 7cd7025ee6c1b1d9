//! The transient-message board and its epoch-guarded expiry timers.
//!
//! Setting a message starts an independent delayed timer; no timer is ever
//! cancelled. Instead every `emit` advances a monotonic epoch and stamps its
//! timer with the value it expects; a timer whose stamp no longer equals the
//! live epoch finds itself superseded and clears nothing.

use vstd::prelude::*;

verus! {

/// What the caller must schedule after an `emit`: raise a user event carrying
/// `event_id` and `expected_epoch` once the fixed timeout has elapsed.
#[derive(Clone, Copy, PartialEq, Eq, Structural, Debug)]
pub struct TimerRequest {
    pub event_id: u32,
    pub expected_epoch: u32,
}

/// The number of seconds a transient message stays up.
pub const MESSAGE_TIMEOUT_SECS: u64 = 5;

/// The current transient message and the live epoch its timers race against.
pub struct MessageBoard {
    /// Identifier of the user event that expiry timers raise.
    pub event_id: u32,
    /// The live epoch; a timer clears the message only when its stamp equals it.
    pub epoch: u32,
    /// The message currently shown; empty means none.
    pub message: String,
}

/// What `emit` does: an empty message changes nothing and starts no timer;
/// any other message goes up, the epoch advances, and a timer stamped with
/// the new epoch is to be scheduled.
pub open spec fn spec_emit(s: MessageBoard, message: String) -> (MessageBoard, Option<TimerRequest>) {
    if message@.len() == 0 {
        (s, None)
    } else {
        (
            MessageBoard {
                event_id: s.event_id,
                epoch: (s.epoch + 1) as u32,
                message,
            },
            Some(TimerRequest { event_id: s.event_id, expected_epoch: (s.epoch + 1) as u32 }),
        )
    }
}

/// Whether a delayed expiry event clears the board: exactly when both its
/// identifier and its stamped epoch match the live state.
pub open spec fn spec_expiry_clears(s: MessageBoard, event_id: u32, expected_epoch: u32) -> bool {
    event_id == s.event_id && expected_epoch == s.epoch
}

impl MessageBoard {
    pub fn new(event_id: u32) -> (r: MessageBoard)
        ensures
            r.event_id == event_id,
            r.epoch == 0,
            r.message@ == Seq::<char>::empty(),
    {
        MessageBoard { event_id, epoch: 0, message: String::new() }
    }

    /// Shows `message` and returns the timer to schedule for its expiry.
    /// An empty message is a no-op and starts no timer.
    pub fn emit(&mut self, message: String) -> (r: Option<TimerRequest>)
        requires
            old(self).epoch < u32::MAX,
        ensures
            (*final(self), r) == spec_emit(*old(self), message),
            message@.len() == 0 ==> *final(self) == *old(self) && r is None,
            message@.len() > 0 ==> {
                &&& final(self).message@ == message@
                &&& final(self).epoch == old(self).epoch + 1
                &&& final(self).event_id == old(self).event_id
                &&& r == Some(TimerRequest {
                    event_id: old(self).event_id,
                    expected_epoch: (old(self).epoch + 1) as u32,
                })
            },
    {
        if message.as_str().unicode_len() == 0 {
            return None;
        }
        self.message = message;
        self.epoch = self.epoch + 1;
        Some(TimerRequest { event_id: self.event_id, expected_epoch: self.epoch })
    }

    /// Handles a delayed expiry event. Clears the message exactly when the
    /// event's identifier and stamped epoch both match the live state; a
    /// stale timer, whatever its order of arrival, changes nothing.
    pub fn handle_expiry(&mut self, event_id: u32, expected_epoch: u32) -> (cleared: bool)
        ensures
            cleared == spec_expiry_clears(*old(self), event_id, expected_epoch),
            cleared ==> final(self).message@ == Seq::<char>::empty(),
            !cleared ==> *final(self) == *old(self),
            final(self).epoch == old(self).epoch,
            final(self).event_id == old(self).event_id,
    {
        if event_id == self.event_id && expected_epoch == self.epoch {
            self.message = String::new();
            true
        } else {
            false
        }
    }
}

/// Emitting a message and then a second one within the first's expiry
/// window leaves only the second's timer live: the first timer's stamp no
/// longer matches the epoch, so its firing — whenever it comes — clears
/// nothing and cannot take the second message down; the second timer's
/// stamp matches and does clear. No cancellation is involved: the epoch
/// comparison alone filters the stale timer.
pub proof fn lemma_superseded_timer_is_stale(board: MessageBoard, first: String, second: String)
    requires
        board.epoch + 2 <= u32::MAX,
        first@.len() > 0,
        second@.len() > 0,
    ensures
        ({
            let (board_a, timer_a) = spec_emit(board, first);
            let (board_b, timer_b) = spec_emit(board_a, second);
            &&& timer_a matches Some(ta)
                && !spec_expiry_clears(board_b, ta.event_id, ta.expected_epoch)
            &&& timer_b matches Some(tb)
                && spec_expiry_clears(board_b, tb.event_id, tb.expected_epoch)
        }),
{
}

/// However many messages follow, any timer stamped with an epoch below the
/// live one stays a no-op.
pub proof fn lemma_old_epochs_never_clear(board: MessageBoard, event_id: u32, expected_epoch: u32)
    requires
        expected_epoch < board.epoch,
    ensures
        !spec_expiry_clears(board, event_id, expected_epoch),
{
}

} // verus!
