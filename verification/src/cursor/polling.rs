//! High-frequency mouse polling: movement is accumulated about a thousand times a
//! second and handed over when it is asked for.

use vstd::prelude::*;

use crate::cursor::center::{Movement, StoredCenter};
use crate::cursor::session::{CursorSession, Platform};

verus! {

/// Length of one polling interval in microseconds.
pub const POLL_INTERVAL_US: u64 = 1000;

/// A sum as a 32-bit counter holds it: wrapped around into the counter's range.
pub open spec fn wrapped(n: int) -> int {
    (n + 0x8000_0000) % 0x1_0000_0000 - 0x8000_0000
}

/// The polling flag and the two movement counters.
#[derive(Debug, Clone, Copy, PartialEq, Eq, Structural)]
pub struct MousePolling {
    pub active: bool,
    pub dx: i32,
    pub dy: i32,
}

/// The outcome of asking for polling to start.
#[derive(Debug, Clone, Copy, PartialEq, Eq, Structural)]
pub enum PollingStart {
    /// Polling runs already.
    AlreadyRunning,
    /// Polling cannot run.
    Refused,
    /// A polling thread has to be started, after the centre was measured again
    /// where that is asked for.
    Start { update_center: bool },
}

impl MousePolling {
    pub fn idle() -> (polling: MousePolling)
        ensures
            polling == (MousePolling { active: false, dx: 0, dy: 0 }),
    {
        MousePolling { active: false, dx: 0, dy: 0 }
    }

    /// The counters after one movement more.
    pub open spec fn moved(self, dx: i32, dy: i32) -> MousePolling {
        MousePolling {
            active: self.active,
            dx: wrapped(self.dx + dx) as i32,
            dy: wrapped(self.dy + dy) as i32,
        }
    }

    /// The counters after a whole series of movements.
    pub open spec fn moved_along(self, moves: Seq<(i32, i32)>) -> MousePolling
        decreases moves.len(),
    {
        if moves.len() == 0 {
            self
        } else {
            self.moved_along(moves.drop_last()).moved(moves.last().0, moves.last().1)
        }
    }

    /// Add the movement of one poll.
    pub fn accumulate(&mut self, dx: i32, dy: i32)
        ensures
            *final(self) == old(self).moved(dx, dy),
    {
        if dx != 0 {
            self.dx = self.dx.wrapping_add(dx);
        }
        if dy != 0 {
            self.dy = self.dy.wrapping_add(dy);
        }
    }

    /// Whether the polling thread goes on: while polling is wanted and the cursor
    /// is captured. A thread that stops clears the flag.
    pub fn keep_polling(&mut self, session: &CursorSession) -> (again: bool)
        ensures
            again == (old(self).active && session.captured),
            *final(self) == (MousePolling { active: again, ..*old(self) }),
    {
        if self.active && session.captured {
            true
        } else {
            self.active = false;
            false
        }
    }
}

/// Start high-frequency mouse polling
pub fn start_mouse_polling(polling: &mut MousePolling, session: &CursorSession) -> (outcome:
    PollingStart)
    ensures
        session.platform == Platform::Unsupported ==> outcome == PollingStart::Refused
            && *final(polling) == *old(polling),
        session.platform != Platform::Unsupported ==> {
            &&& old(polling).active ==> outcome == PollingStart::AlreadyRunning && *final(polling)
                == *old(polling)
            &&& !old(polling).active && !session.captured ==> outcome == PollingStart::Refused
                && *final(polling) == *old(polling)
            &&& !old(polling).active && session.captured ==> outcome == PollingStart::Start {
                update_center: session.platform != Platform::Windows,
            } && *final(polling) == (MousePolling { active: true, dx: 0, dy: 0 })
        },
{
    if session.platform == Platform::Unsupported {
        return PollingStart::Refused;
    }
    if polling.active {
        return PollingStart::AlreadyRunning;
    }
    if !session.captured {
        return PollingStart::Refused;
    }
    *polling = MousePolling { active: true, dx: 0, dy: 0 };
    PollingStart::Start { update_center: session.platform != Platform::Windows }
}

/// Stop high-frequency mouse polling
pub fn stop_mouse_polling(polling: &mut MousePolling)
    ensures
        *final(polling) == (MousePolling { active: false, dx: 0, dy: 0 }),
{
    *polling = MousePolling { active: false, dx: 0, dy: 0 };
}

/// Get accumulated mouse deltas and reset accumulators
pub fn get_accumulated_mouse_delta(polling: &mut MousePolling) -> (delta: (i32, i32))
    ensures
        delta == (old(polling).dx, old(polling).dy),
        *final(polling) == (MousePolling { dx: 0, dy: 0, ..*old(polling) }),
{
    let delta: (i32, i32) = (polling.dx, polling.dy);
    polling.dx = 0;
    polling.dy = 0;
    delta
}

/// Check if mouse polling is active
pub fn is_mouse_polling_active(polling: &MousePolling) -> (active: bool)
    ensures
        active == polling.active,
{
    polling.active
}

/// How long to sleep after a poll that took `elapsed_us` microseconds.
pub fn pause_after_poll(elapsed_us: u64) -> (pause: Option<u64>)
    ensures
        pause == if elapsed_us < POLL_INTERVAL_US {
            Some((POLL_INTERVAL_US - elapsed_us) as u64)
        } else {
            None
        },
        pause matches Some(us) ==> us > 0 && elapsed_us + us == 1000,
        pause is None <==> elapsed_us >= 1000,
{
    if elapsed_us < POLL_INTERVAL_US {
        Some(POLL_INTERVAL_US - elapsed_us)
    } else {
        None
    }
}

/// Get mouse delta from center: no movement while the cursor is free or the
/// platform has no native input.
pub fn get_mouse_delta(
    session: &CursorSession,
    center: &StoredCenter,
    cursor: Option<(i32, i32)>,
) -> (movement: Movement)
    requires
        session.captured && session.platform != Platform::Unsupported ==> center.can_measure(
            cursor,
        ),
    ensures
        movement == if session.captured && session.platform != Platform::Unsupported {
            center.movement(cursor)
        } else {
            Movement { dx: 0, dy: 0, warp_to: None }
        },
{
    if session.captured && session.platform != Platform::Unsupported {
        center.measure(cursor)
    } else {
        Movement { dx: 0, dy: 0, warp_to: None }
    }
}

/// The sum of the movements along one axis.
pub open spec fn total_dx(moves: Seq<(i32, i32)>) -> int
    decreases moves.len(),
{
    if moves.len() == 0 {
        0
    } else {
        total_dx(moves.drop_last()) + moves.last().0
    }
}

/// The sum of the movements along the other axis.
pub open spec fn total_dy(moves: Seq<(i32, i32)>) -> int
    decreases moves.len(),
{
    if moves.len() == 0 {
        0
    } else {
        total_dy(moves.drop_last()) + moves.last().1
    }
}

/// Whatever was polled since the last reading is handed over, exactly as long as
/// the sums fit into the counters, and wrapped around otherwise.
pub proof fn accumulated_is_the_sum(polling: MousePolling, moves: Seq<(i32, i32)>)
    requires
        polling.dx == 0,
        polling.dy == 0,
    ensures
        polling.moved_along(moves).dx == wrapped(total_dx(moves)),
        polling.moved_along(moves).dy == wrapped(total_dy(moves)),
        i32::MIN <= total_dx(moves) <= i32::MAX ==> polling.moved_along(moves).dx == total_dx(
            moves,
        ),
        i32::MIN <= total_dy(moves) <= i32::MAX ==> polling.moved_along(moves).dy == total_dy(
            moves,
        ),
    decreases moves.len(),
{
    if moves.len() > 0 {
        accumulated_is_the_sum(polling, moves.drop_last());
        lemma_wrapped_step(total_dx(moves.drop_last()), moves.last().0 as int);
        lemma_wrapped_step(total_dy(moves.drop_last()), moves.last().1 as int);
    }
}

proof fn lemma_wrapped_step(n: int, step: int)
    ensures
        wrapped(wrapped(n) + step) == wrapped(n + step),
{
}

/// A counter holds a number that fits, and that differs from the sum by a multiple of
/// 2^32.
pub proof fn counters_wrap_around(n: int)
    ensures
        i32::MIN <= wrapped(n) <= i32::MAX,
        (n - wrapped(n)) % 0x1_0000_0000 == 0,
{
}

/// A movement is added to both counters, each on its own axis, and changes nothing else.
pub proof fn movements_are_added(polling: MousePolling, dx: i32, dy: i32)
    ensures
        polling.moved(dx, dy).active == polling.active,
        (polling.dx + dx - polling.moved(dx, dy).dx) % 0x1_0000_0000 == 0,
        (polling.dy + dy - polling.moved(dx, dy).dy) % 0x1_0000_0000 == 0,
{
    counters_wrap_around(polling.dx + dx);
    counters_wrap_around(polling.dy + dy);
}

} // verus!
