//! Decisions behind the Win32 calls.

use vstd::prelude::*;

use crate::cursor::center::{halve, Movement, StoredCenter};

verus! {

/// What is remembered of the mouse acceleration: whether it was switched off
/// here, and the parameters that were in force before.
#[derive(Debug, Clone, Copy, PartialEq, Eq)]
pub struct Acceleration {
    pub disabled: bool,
    pub original: (i32, i32, i32),
}

impl Acceleration {
    pub fn untouched() -> (state: Acceleration)
        ensures
            state == (Acceleration { disabled: false, original: (0, 0, 0) }),
    {
        Acceleration { disabled: false, original: (0, 0, 0) }
    }
}

/// Whether the current parameters have to be read at all: not if acceleration was
/// switched off here before.
pub fn wants_mouse_parameters(state: &Acceleration) -> (wanted: bool)
    ensures
        wanted == !state.disabled,
{
    !state.disabled
}

impl Acceleration {
    /// Disabling it: the parameters in force are remembered, unless that was done
    /// before, and the flag is cleared where it is set.
    pub open spec fn disabling(self, current: Option<(i32, i32, i32)>) -> (
        Acceleration,
        Option<(i32, i32, i32)>,
    ) {
        match current {
            Some(params) if !self.disabled => (
                Acceleration { disabled: false, original: params },
                if params.2 != 0 {
                    Some((0i32, 0i32, 0i32))
                } else {
                    None
                },
            ),
            _ => (self, None),
        }
    }

    /// The system has answered the request to disable it.
    pub open spec fn after_disabling(self, accepted: bool) -> Acceleration {
        Acceleration { disabled: self.disabled || accepted, ..self }
    }

    /// What restoring it sets.
    pub open spec fn restoring(self) -> Option<(i32, i32, i32)> {
        if self.disabled {
            Some(self.original)
        } else {
            None
        }
    }

    /// The system has answered the request to restore it.
    pub open spec fn after_restoring(self, accepted: bool) -> Acceleration {
        Acceleration { disabled: self.disabled && !accepted, ..self }
    }
}

/// Disable mouse acceleration. `current` is what the system answered when it was
/// asked for its parameters (two thresholds and the acceleration flag). The
/// result is what to set, if anything.
pub fn disable_mouse_acceleration(
    state: &mut Acceleration,
    current: Option<(i32, i32, i32)>,
) -> (set: Option<(i32, i32, i32)>)
    ensures
        (*final(state), set) == old(state).disabling(current),
{
    if state.disabled {
        return None;
    }
    match current {
        Some(params) => {
            state.original = params;
            if params.2 != 0 {
                Some((0, 0, 0))
            } else {
                None
            }
        },
        None => None,
    }
}

/// Take note of whether the system accepted the parameters that
/// `disable_mouse_acceleration` asked for.
pub fn acceleration_set(state: &mut Acceleration, accepted: bool)
    ensures
        *final(state) == old(state).after_disabling(accepted),
{
    if accepted {
        state.disabled = true;
    }
}

/// Restore the original acceleration: the parameters to set, if acceleration was
/// switched off here.
pub fn restore_mouse_acceleration(state: &Acceleration) -> (set: Option<(i32, i32, i32)>)
    ensures
        set == state.restoring(),
{
    if state.disabled {
        Some(state.original)
    } else {
        None
    }
}

/// Take note of whether the system accepted the restored parameters.
pub fn acceleration_restored(state: &mut Acceleration, accepted: bool)
    ensures
        *final(state) == old(state).after_restoring(accepted),
{
    if accepted {
        state.disabled = false;
    }
}

/// Switching acceleration off and on again ends where it began: the parameters
/// that are set last are the ones that were in force first, and nothing is left
/// to restore.
pub proof fn acceleration_round_trip(before: Acceleration, params: (i32, i32, i32))
    requires
        !before.disabled,
        params.2 != 0,
    ensures
        ({
            let off = before.disabling(Some(params)).0.after_disabling(true);
            &&& before.disabling(Some(params)).1 == Some((0i32, 0i32, 0i32))
            &&& off.restoring() == Some(params)
            &&& off.after_restoring(true).restoring() is None
        }),
{
}

/// While acceleration is off, disabling it again neither sets anything nor loses
/// the remembered parameters.
pub proof fn disabling_twice_keeps_the_first_setting(
    state: Acceleration,
    current: Option<(i32, i32, i32)>,
)
    requires
        state.disabled,
    ensures
        state.disabling(current) == (state, None::<(i32, i32, i32)>),
{
}

/// Hide the cursor: the class cursor to remember, given the one the window class
/// has now. A class without a cursor leaves the remembered one.
pub fn hide_cursor(remembered: isize, class_cursor: isize) -> (kept: isize)
    ensures
        kept == if class_cursor != 0 {
            class_cursor
        } else {
            remembered
        },
{
    if class_cursor != 0 {
        class_cursor
    } else {
        remembered
    }
}

/// Show the cursor: the remembered class cursor to restore, or nothing where the
/// default arrow has to be loaded.
pub fn show_cursor(remembered: isize) -> (restore: Option<isize>)
    ensures
        restore == if remembered != 0 {
            Some(remembered)
        } else {
            None
        },
{
    if remembered != 0 {
        Some(remembered)
    } else {
        None
    }
}

/// The display counter has to be lowered once more before the cursor disappears.
pub fn keep_hiding(count: i32) -> (again: bool)
    ensures
        again == (count >= 0),
{
    count >= 0
}

/// The display counter has to be raised once more before the cursor shows.
pub fn keep_showing(count: i32) -> (again: bool)
    ensures
        again == (count < 0),
{
    count < 0
}

/// The middle of a client area that reaches to `right` and `bottom`.
pub fn client_middle(right: i32, bottom: i32) -> (middle: (i32, i32))
    ensures
        middle.0 == crate::cursor::center::half(right),
        middle.1 == crate::cursor::center::half(bottom),
{
    (halve(right), halve(bottom))
}

/// Update stored center position from the window's centre, if it is known.
pub fn update_center(center: &mut StoredCenter, window_center: Option<(i32, i32)>) -> (updated:
    bool)
    ensures
        updated == (window_center is Some),
        *final(center) == match window_center {
            Some(p) => StoredCenter { x: p.0, y: p.1 },
            None => *old(center),
        },
{
    match window_center {
        Some((x, y)) => {
            *center = StoredCenter { x, y };
            true
        },
        None => false,
    }
}

/// Get stored center position
pub fn get_stored_center(center: &StoredCenter) -> (point: (i32, i32))
    ensures
        point == (center.x, center.y),
{
    (center.x, center.y)
}

/// Center cursor in window: the point to move to, or nothing where none can be
/// had. `window_center` is consulted only if the stored centre is not usable.
pub fn center_cursor(center: &mut StoredCenter, window_center: Option<(i32, i32)>) -> (target:
    Option<(i32, i32)>)
    ensures
        old(center).usable() ==> *final(center) == *old(center) && target == Some(
            (old(center).x, old(center).y),
        ),
        !old(center).usable() ==> target == window_center && *final(center)
            == match window_center {
            Some(p) => StoredCenter { x: p.0, y: p.1 },
            None => *old(center),
        },
{
    if center.x != 0 && center.y != 0 {
        Some(get_stored_center(center))
    } else if update_center(center, window_center) {
        Some(get_stored_center(center))
    } else {
        None
    }
}

/// Get mouse delta from center and say where to move the cursor to. A cursor that
/// is moved also has to be hidden again.
pub fn get_delta_and_recenter(center: &StoredCenter, cursor: Option<(i32, i32)>) -> (movement:
    Movement)
    requires
        center.can_measure(cursor),
    ensures
        movement == center.movement(cursor),
{
    center.measure(cursor)
}

/// Parameters that are read are remembered, those without acceleration too, for which
/// nothing is set; where none could be read nothing changes.
pub proof fn parameters_are_remembered(before: Acceleration, params: (i32, i32, i32))
    requires
        !before.disabled,
    ensures
        before.disabling(Some(params)).0 == (Acceleration { disabled: false, original: params }),
        before.disabling(Some(params)).1 is Some <==> params.2 != 0,
        before.disabling(Some(params)).1 matches Some(set) ==> set == (0i32, 0i32, 0i32),
        before.disabling(None) == (before, None::<(i32, i32, i32)>),
{
}

/// Only what the system accepts changes anything, and never the remembered parameters.
pub proof fn refusals_change_nothing(state: Acceleration, accepted: bool)
    ensures
        state.after_disabling(false) == state,
        state.after_restoring(false) == state,
        state.after_disabling(true).disabled,
        !state.after_restoring(true).disabled,
        state.after_disabling(accepted).original == state.original,
        state.after_restoring(accepted).original == state.original,
        state.restoring() is Some <==> state.disabled,
        state.restoring() matches Some(set) ==> set == state.original,
{
}

} // verus!
