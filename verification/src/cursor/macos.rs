//! Decisions behind the Core Graphics calls.

use vstd::prelude::*;

use crate::cursor::center::{Movement, StoredCenter};

verus! {

/// Remember the middle of the main display, which Core Graphics always knows.
pub fn update_center(center: &mut StoredCenter, middle: (i32, i32)) -> (updated: bool)
    ensures
        updated,
        *final(center) == (StoredCenter { x: middle.0, y: middle.1 }),
{
    *center = StoredCenter { x: middle.0, y: middle.1 };
    true
}

/// Get stored center position
pub fn get_stored_center(center: &StoredCenter) -> (point: (i32, i32))
    ensures
        point == (center.x, center.y),
{
    (center.x, center.y)
}

/// Get mouse delta from center and say where to warp the cursor to. `cursor` is
/// the position that Core Graphics reports, if it reports one.
pub fn get_delta_and_recenter(center: &StoredCenter, cursor: Option<(i32, i32)>) -> (movement:
    Movement)
    requires
        center.can_measure(cursor),
    ensures
        movement == center.movement(cursor),
{
    center.measure(cursor)
}

} // verus!
