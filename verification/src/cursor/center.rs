//! The remembered centre point.

use vstd::prelude::*;

verus! {

/// A centre point in screen coordinates. The origin stands for "not known yet".
#[derive(Debug, Clone, Copy, PartialEq, Eq, Structural)]
pub struct StoredCenter {
    pub x: i32,
    pub y: i32,
}

/// Movement since the cursor was last at the centre, and where the cursor has to
/// be put back to.
#[derive(Debug, Clone, Copy, PartialEq, Eq)]
pub struct Movement {
    pub dx: i32,
    pub dy: i32,
    pub warp_to: Option<(i32, i32)>,
}

impl StoredCenter {
    /// Nothing is known before the first measurement.
    pub fn unknown() -> (center: StoredCenter)
        ensures
            center == (StoredCenter { x: 0, y: 0 }),
    {
        StoredCenter { x: 0, y: 0 }
    }

    /// Neither coordinate is zero: the point can be warped to without measuring.
    pub open spec fn usable(self) -> bool {
        self.x != 0 && self.y != 0
    }

    /// The point was never stored.
    pub open spec fn at_origin(self) -> bool {
        self.x == 0 && self.y == 0
    }

    /// Whether a cursor position is close enough for its distance to fit.
    pub open spec fn can_measure(self, cursor: Option<(i32, i32)>) -> bool {
        !self.at_origin() ==> (cursor matches Some(p) ==> {
            &&& i32::MIN <= p.0 - self.x <= i32::MAX
            &&& i32::MIN <= p.1 - self.y <= i32::MAX
        })
    }

    /// Movement of a cursor away from this centre: none without a centre or
    /// without a position, and a warp back exactly when something moved.
    pub open spec fn movement(self, cursor: Option<(i32, i32)>) -> Movement {
        match cursor {
            Some(p) if !self.at_origin() => Movement {
                dx: (p.0 - self.x) as i32,
                dy: (p.1 - self.y) as i32,
                warp_to: if p == (self.x, self.y) {
                    None
                } else {
                    Some((self.x, self.y))
                },
            },
            _ => Movement { dx: 0, dy: 0, warp_to: None },
        }
    }

    /// Whether the centre has to be measured before the cursor can be centred.
    pub fn needs_measuring(&self) -> (needed: bool)
        ensures
            needed == !self.usable(),
    {
        self.x == 0 || self.y == 0
    }

    pub(crate) fn measure(&self, cursor: Option<(i32, i32)>) -> (movement: Movement)
        requires
            self.can_measure(cursor),
        ensures
            movement == self.movement(cursor),
    {
        if self.x == 0 && self.y == 0 {
            return Movement { dx: 0, dy: 0, warp_to: None };
        }
        match cursor {
            Some((x, y)) => {
                let dx: i32 = x - self.x;
                let dy: i32 = y - self.y;
                if dx != 0 || dy != 0 {
                    Movement { dx, dy, warp_to: Some((self.x, self.y)) }
                } else {
                    Movement { dx, dy, warp_to: None }
                }
            },
            None => Movement { dx: 0, dy: 0, warp_to: None },
        }
    }
}

/// Half of a screen coordinate, rounded towards zero.
pub open spec fn half(n: i32) -> int {
    if n >= 0 {
        n as int / 2
    } else {
        -((-n) / 2)
    }
}

pub(crate) fn halve(n: i32) -> (h: i32)
    ensures
        h == half(n),
{
    if n >= 0 {
        n / 2
    } else if n == i32::MIN {
        -0x4000_0000
    } else {
        -((-n) / 2)
    }
}

/// A cursor that was put back to the centre has not moved: reading it again gives
/// no movement and asks for no further warp.
pub proof fn warped_cursor_is_at_rest(center: StoredCenter, cursor: Option<(i32, i32)>)
    requires
        center.can_measure(cursor),
    ensures
        center.movement(cursor).warp_to matches Some(target) ==> center.movement(Some(target)) == (
        Movement { dx: 0, dy: 0, warp_to: None }),
{
}

/// A movement is reported exactly when the cursor has to be put back, and adding
/// it to the centre gives the position that was read.
pub proof fn movement_leads_to_the_cursor(center: StoredCenter, position: (i32, i32))
    requires
        center.can_measure(Some(position)),
        !center.at_origin(),
    ensures
        ({
            let m = center.movement(Some(position));
            &&& center.x + m.dx == position.0
            &&& center.y + m.dy == position.1
            &&& m.warp_to is Some <==> (m.dx != 0 || m.dy != 0)
        }),
{
}

/// Twice the half of a coordinate is the coordinate, or what is one closer to zero.
pub proof fn halves_are_half(n: i32)
    ensures
        n >= 0 ==> 2 * half(n) <= n <= 2 * half(n) + 1,
        n <= 0 ==> 2 * half(n) - 1 <= n <= 2 * half(n),
{
}

/// Without a centre or without a position nothing has moved.
pub proof fn nothing_moves_without_a_center(center: StoredCenter, position: (i32, i32))
    ensures
        center.movement(None) == (Movement { dx: 0, dy: 0, warp_to: None }),
        (StoredCenter { x: 0, y: 0 }).movement(Some(position)) == (Movement {
            dx: 0,
            dy: 0,
            warp_to: None,
        }),
{
}

/// A cursor that has moved is put back to the centre, which must be known on at least one
/// axis.
pub proof fn moved_cursors_are_put_back(center: StoredCenter, position: (i32, i32))
    requires
        center.x != 0 || center.y != 0,
    ensures
        position.0 != center.x || position.1 != center.y ==> center.movement(
            Some(position),
        ).warp_to == Some((center.x, center.y)),
        position.0 == center.x && position.1 == center.y ==> center.movement(
            Some(position),
        ).warp_to is None,
{
}

/// A centre can be used without measuring exactly if it lies on neither axis.
pub proof fn centers_on_an_axis_are_measured_again(center: StoredCenter)
    ensures
        center.usable() <==> center.x * center.y != 0,
{
    assert((center.x != 0 && center.y != 0) <==> center.x * center.y != 0) by (nonlinear_arith);
}

/// On a screen of up to two thousand million pixels, every position can be measured.
pub proof fn positions_on_a_screen_can_be_measured(center: StoredCenter, position: (i32, i32))
    requires
        0 <= center.x && 0 <= center.y,
        0 <= position.0 && 0 <= position.1,
    ensures
        center.can_measure(Some(position)),
        center.can_measure(None),
{
}

} // verus!
