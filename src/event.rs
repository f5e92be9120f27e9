//! The pointer events that flow from capture, through the state machine, to the peer.

use vstd::prelude::*;

verus! {

/// What a pointer event does.
#[derive(Debug, Clone, Copy, PartialEq, Eq, Structural)]
pub enum MouseEventType {
    Move,
    LeftClick,
    RightClick,
    MiddleClick,
    LeftRelease,
    RightRelease,
    MiddleRelease,
    ScrollUp,
    ScrollDown,
    /// A scroll by the amounts in the event's deltas.
    Scroll,
}

/// A pointer event: a position in pixels, an optional relative motion, and its kind.
///
/// A move carries either an absolute position (`delta_x`, `delta_y` are `None`)
/// or a relative motion (both are `Some`); a session uses one of the two shapes.
#[derive(Debug, Clone, Copy, PartialEq, Eq)]
pub struct MouseEvent {
    pub x: i64,
    pub y: i64,
    pub delta_x: Option<i64>,
    pub delta_y: Option<i64>,
    pub event_type: MouseEventType,
}

impl MouseEvent {
    /// An absolute move to `(x, y)`.
    pub fn move_to(x: i64, y: i64) -> (r: MouseEvent)
        ensures
            r == (MouseEvent { x, y, delta_x: None, delta_y: None, event_type: MouseEventType::Move }),
    {
        MouseEvent { x, y, delta_x: None, delta_y: None, event_type: MouseEventType::Move }
    }

    /// The relative motion of the event, present when both deltas are.
    pub open spec fn spec_delta(&self) -> Option<(i64, i64)> {
        match (self.delta_x, self.delta_y) {
            (Some(dx), Some(dy)) => Some((dx, dy)),
            _ => None,
        }
    }

    /// Returns the relative motion of the event, present when both deltas are.
    pub fn delta(&self) -> (r: Option<(i64, i64)>)
        ensures
            r == self.spec_delta(),
    {
        match (self.delta_x, self.delta_y) {
            (Some(dx), Some(dy)) => Some((dx, dy)),
            _ => None,
        }
    }
}

} // verus!
