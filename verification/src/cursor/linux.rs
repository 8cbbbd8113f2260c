//! Decisions behind the X11 calls.

use vstd::prelude::*;

use crate::cursor::center::{halve, Movement, StoredCenter};

verus! {

/// The X11 connection as far as decisions depend on it.
#[derive(Debug, Clone, Copy, PartialEq, Eq, Structural)]
pub struct DisplayState {
    pub open: bool,
    /// The root window, of which only 32 bits are kept.
    pub root: i32,
}

/// The low 32 bits of a window id, read as a signed number.
pub open spec fn kept_root(root: u64) -> int {
    let low = root as int % 0x1_0000_0000;
    if low < 0x8000_0000 {
        low
    } else {
        low - 0x1_0000_0000
    }
}

/// A kept root window, widened with its sign.
pub open spec fn widened_root(root: i32) -> int {
    if root >= 0 {
        root as int
    } else {
        root + 0x1_0000_0000_0000_0000
    }
}

impl DisplayState {
    pub fn closed() -> (state: DisplayState)
        ensures
            state == (DisplayState { open: false, root: 0 }),
    {
        DisplayState { open: false, root: 0 }
    }
}

/// Initialize the display connection. `opened` is the root window of a freshly
/// opened connection, or nothing where it could not be opened; a connection that
/// is open already stays as it is.
pub fn init_display(state: &mut DisplayState, opened: Option<u64>) -> (ready: bool)
    ensures
        old(state).open ==> ready && *final(state) == *old(state),
        !old(state).open ==> match opened {
            Some(root) => {
                &&& ready
                &&& final(state).open
                &&& final(state).root == kept_root(root)
            },
            None => !ready && *final(state) == *old(state),
        },
{
    if state.open {
        return true;
    }
    match opened {
        Some(root) => {
            let low: u64 = root % 0x1_0000_0000;
            let kept: i32 = if low < 0x8000_0000 {
                low as i32
            } else {
                (low as i64 - 0x1_0000_0000) as i32
            };
            *state = DisplayState { open: true, root: kept };
            true
        },
        None => false,
    }
}

/// Close the display connection; says whether there was one to close.
pub fn close_display(state: &mut DisplayState) -> (close: bool)
    ensures
        close == old(state).open,
        !final(state).open,
        final(state).root == old(state).root,
{
    let close = state.open;
    state.open = false;
    close
}

/// Get root window
pub fn get_root(state: &DisplayState) -> (root: u64)
    ensures
        root == widened_root(state.root),
{
    if state.root >= 0 {
        state.root as u64
    } else {
        let magnitude: u64 = (-(state.root as i64)) as u64;
        0xffff_ffff_ffff_ffff - (magnitude - 1)
    }
}

/// A root window whose id fits into 31 bits is kept whole.
pub proof fn small_root_is_kept(root: u64)
    requires
        root < 0x8000_0000,
    ensures
        kept_root(root) == root,
        widened_root(kept_root(root) as i32) == root,
{
}

/// Update center position (screen center). `screen` is the size of the default
/// screen, or nothing where there is no display.
pub fn update_center(center: &mut StoredCenter, screen: Option<(i32, i32)>) -> (updated: bool)
    ensures
        match screen {
            Some(size) => {
                &&& updated
                &&& final(center).x == crate::cursor::center::half(size.0)
                &&& final(center).y == crate::cursor::center::half(size.1)
            },
            None => !updated && *final(center) == *old(center),
        },
{
    match screen {
        Some((width, height)) => {
            *center = StoredCenter { x: halve(width), y: halve(height) };
            true
        },
        None => false,
    }
}

/// Get stored center position
pub fn get_stored_center(center: &StoredCenter) -> (point: (i32, i32))
    ensures
        point == (center.x, center.y),
{
    (center.x, center.y)
}

/// Center cursor on screen: the point to warp to, or nothing where none can be
/// had. `screen` is consulted only if the stored centre is not usable.
pub fn center_cursor(center: &mut StoredCenter, screen: Option<(i32, i32)>) -> (target: Option<
    (i32, i32),
>)
    ensures
        old(center).usable() ==> *final(center) == *old(center) && target == Some(
            (old(center).x, old(center).y),
        ),
        !old(center).usable() ==> match screen {
            Some(size) => {
                &&& final(center).x == crate::cursor::center::half(size.0)
                &&& final(center).y == crate::cursor::center::half(size.1)
                &&& target == Some((final(center).x, final(center).y))
            },
            None => *final(center) == *old(center) && target is None,
        },
{
    if center.x != 0 && center.y != 0 {
        Some(get_stored_center(center))
    } else if update_center(center, screen) {
        Some(get_stored_center(center))
    } else {
        None
    }
}

/// Get mouse delta from center and say where to warp the cursor to. `cursor` is
/// the pointer position, if the server reports one.
pub fn get_delta_and_recenter(center: &StoredCenter, cursor: Option<(i32, i32)>) -> (movement:
    Movement)
    requires
        center.can_measure(cursor),
    ensures
        movement == center.movement(cursor),
{
    center.measure(cursor)
}

/// What is kept of a window id is a signed number that differs from it by a multiple of
/// 2^32.
pub proof fn kept_roots_are_congruent(root: u64)
    ensures
        (root - kept_root(root)) % 0x1_0000_0000 == 0,
        i32::MIN <= kept_root(root) <= i32::MAX,
{
}

/// A widened root is an unsigned number that differs from the kept one by a multiple of
/// 2^64.
pub proof fn widened_roots_are_congruent(root: i32)
    ensures
        (widened_root(root) - root) % 0x1_0000_0000_0000_0000 == 0,
        0 <= widened_root(root) <= u64::MAX,
{
}

} // verus!
