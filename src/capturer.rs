//! The decisions of pointer capture: raw device input in, pointer events out.

use vstd::prelude::*;
use crate::config::EdgeDirection;
use crate::coordinate::clamp_to_extent;
use crate::event::{MouseEvent, MouseEventType};
use crate::virtual_mouse::clamp_sum;

verus! {

/// A mouse button.
#[derive(Debug, Clone, Copy, PartialEq, Eq, Structural)]
pub enum MouseButton {
    Left,
    Right,
    Middle,
}

/// One raw input from a relative pointing device.
#[derive(Debug, Clone, Copy, PartialEq, Eq, Structural)]
pub enum RawInput {
    /// Horizontal motion by the given count.
    RelX(i32),
    /// Vertical motion by the given count.
    RelY(i32),
    /// Wheel motion by the given count.
    Wheel(i32),
    /// A button changed: value 1 is a press, 0 a release, anything else a repeat.
    Button(MouseButton, i32),
}

/// The press event of a button.
pub open spec fn press_type(b: MouseButton) -> MouseEventType {
    match b {
        MouseButton::Left => MouseEventType::LeftClick,
        MouseButton::Right => MouseEventType::RightClick,
        MouseButton::Middle => MouseEventType::MiddleClick,
    }
}

/// The release event of a button.
pub open spec fn release_type(b: MouseButton) -> MouseEventType {
    match b {
        MouseButton::Left => MouseEventType::LeftRelease,
        MouseButton::Right => MouseEventType::RightRelease,
        MouseButton::Middle => MouseEventType::MiddleRelease,
    }
}

/// Tracks an absolute position from a relative device, clamped to the screen.
pub struct LinuxCapturer {
    pub device_path: String,
    pub current_x: i64,
    pub current_y: i64,
    pub screen_width: u32,
    pub screen_height: u32,
}

impl LinuxCapturer {
    pub fn new(device_path: &str, screen_width: u32, screen_height: u32) -> (r: Self)
        ensures
            r.device_path@ == device_path@,
            r.current_x == 0,
            r.current_y == 0,
            r.screen_width == screen_width,
            r.screen_height == screen_height,
    {
        LinuxCapturer {
            device_path: device_path.to_owned(),
            current_x: 0,
            current_y: 0,
            screen_width,
            screen_height,
        }
    }

    /// Applies one raw input: motion moves the tracked position, clamped into
    /// the screen, and yields a move carrying the position and the motion;
    /// the wheel yields a scroll up for a positive count and a scroll down
    /// otherwise; a button press or release yields its event; a repeat yields
    /// nothing.
    pub fn handle_input(&mut self, input: RawInput) -> (r: Option<MouseEvent>)
        ensures
            final(self).device_path == old(self).device_path,
            final(self).screen_width == old(self).screen_width,
            final(self).screen_height == old(self).screen_height,
            match input {
                RawInput::RelX(v) => {
                    &&& final(self).current_x == clamp_to_extent(
                        old(self).current_x + v,
                        old(self).screen_width as int,
                    )
                    &&& final(self).current_y == old(self).current_y
                    &&& r == Some(
                        MouseEvent {
                            x: final(self).current_x,
                            y: final(self).current_y,
                            delta_x: Some(v as i64),
                            delta_y: Some(0),
                            event_type: MouseEventType::Move,
                        },
                    )
                },
                RawInput::RelY(v) => {
                    &&& final(self).current_y == clamp_to_extent(
                        old(self).current_y + v,
                        old(self).screen_height as int,
                    )
                    &&& final(self).current_x == old(self).current_x
                    &&& r == Some(
                        MouseEvent {
                            x: final(self).current_x,
                            y: final(self).current_y,
                            delta_x: Some(0),
                            delta_y: Some(v as i64),
                            event_type: MouseEventType::Move,
                        },
                    )
                },
                RawInput::Wheel(v) => {
                    &&& final(self).current_x == old(self).current_x
                    &&& final(self).current_y == old(self).current_y
                    &&& r == Some(
                        MouseEvent {
                            x: old(self).current_x,
                            y: old(self).current_y,
                            delta_x: None,
                            delta_y: None,
                            event_type: if v > 0 {
                                MouseEventType::ScrollUp
                            } else {
                                MouseEventType::ScrollDown
                            },
                        },
                    )
                },
                RawInput::Button(b, v) => {
                    &&& final(self).current_x == old(self).current_x
                    &&& final(self).current_y == old(self).current_y
                    &&& r == if v == 1 || v == 0 {
                        Some(
                            MouseEvent {
                                x: old(self).current_x,
                                y: old(self).current_y,
                                delta_x: None,
                                delta_y: None,
                                event_type: if v == 1 {
                                    press_type(b)
                                } else {
                                    release_type(b)
                                },
                            },
                        )
                    } else {
                        None
                    }
                },
            },
    {
        match input {
            RawInput::RelX(v) => {
                self.current_x = clamp_sum(self.current_x, v as i64, self.screen_width);
                Some(
                    MouseEvent {
                        x: self.current_x,
                        y: self.current_y,
                        delta_x: Some(v as i64),
                        delta_y: Some(0),
                        event_type: MouseEventType::Move,
                    },
                )
            },
            RawInput::RelY(v) => {
                self.current_y = clamp_sum(self.current_y, v as i64, self.screen_height);
                Some(
                    MouseEvent {
                        x: self.current_x,
                        y: self.current_y,
                        delta_x: Some(0),
                        delta_y: Some(v as i64),
                        event_type: MouseEventType::Move,
                    },
                )
            },
            RawInput::Wheel(v) => {
                let event_type = if v > 0 {
                    MouseEventType::ScrollUp
                } else {
                    MouseEventType::ScrollDown
                };
                Some(
                    MouseEvent {
                        x: self.current_x,
                        y: self.current_y,
                        delta_x: None,
                        delta_y: None,
                        event_type,
                    },
                )
            },
            RawInput::Button(b, v) => {
                let event_type = if v == 1 {
                    match b {
                        MouseButton::Left => MouseEventType::LeftClick,
                        MouseButton::Right => MouseEventType::RightClick,
                        MouseButton::Middle => MouseEventType::MiddleClick,
                    }
                } else if v == 0 {
                    match b {
                        MouseButton::Left => MouseEventType::LeftRelease,
                        MouseButton::Right => MouseEventType::RightRelease,
                        MouseButton::Middle => MouseEventType::MiddleRelease,
                    }
                } else {
                    return None;
                };
                Some(
                    MouseEvent {
                        x: self.current_x,
                        y: self.current_y,
                        delta_x: None,
                        delta_y: None,
                        event_type,
                    },
                )
            },
        }
    }
}

/// What one poll of the pointer position calls for.
#[derive(Debug, Clone, Copy, PartialEq, Eq)]
pub enum PollAction {
    /// Nothing moved enough to act on.
    Idle,
    /// The local pointer moved and its position is tracked; nothing is sent.
    Followed,
    /// The pointer reached the transfer edge: the remote takes control, and the
    /// pointer is parked at the screen's centre.
    EnterSecondary,
    /// The remote has control: send this motion, then park the pointer at the
    /// centre again.
    SendDelta(MouseEvent),
}

/// Whether `(x, y)` touches the edge `edge` of a `width` by `height` screen,
/// within one pixel.
pub open spec fn touches_edge(edge: EdgeDirection, width: int, height: int, x: int, y: int) -> bool {
    match edge {
        EdgeDirection::Left => x <= 1,
        EdgeDirection::Right => x >= width - 1,
        EdgeDirection::Top => y <= 1,
        EdgeDirection::Bottom => y >= height - 1,
    }
}

/// The state of a capture loop that polls the absolute pointer position:
/// under local control it watches for the transfer edge; under remote control
/// it reads motion as the distance from the screen's centre, where the pointer
/// is parked after every read.
#[derive(Debug, Clone, Copy, PartialEq, Eq)]
pub struct PollTracker {
    /// Whether the remote has control.
    pub secondary: bool,
    /// The last tracked position under local control.
    pub last: (i64, i64),
    /// Where the pointer is parked under remote control.
    pub center: (i64, i64),
    pub screen_width: u32,
    pub screen_height: u32,
    pub transfer_edge: EdgeDirection,
}

impl PollTracker {
    /// Starts under local control at the position `start`.
    pub fn new(screen_width: u32, screen_height: u32, transfer_edge: EdgeDirection, start: (i64, i64)) -> (r: Self)
        ensures
            r == (PollTracker {
                secondary: false,
                last: start,
                center: ((screen_width / 2) as i64, (screen_height / 2) as i64),
                screen_width,
                screen_height,
                transfer_edge,
            }),
    {
        PollTracker {
            secondary: false,
            last: start,
            center: ((screen_width / 2) as i64, (screen_height / 2) as i64),
            screen_width,
            screen_height,
            transfer_edge,
        }
    }

    /// The motion of a poll at `current` fits in `i64`.
    pub open spec fn poll_fits(&self, current: (i64, i64)) -> bool {
        let base = if self.secondary { self.center } else { self.last };
        i64::MIN <= current.0 - base.0 <= i64::MAX && i64::MIN <= current.1 - base.1 <= i64::MAX
    }

    /// Hands control to the remote (`true`) or back; returns whether the
    /// pointer is to be parked at the centre.
    pub fn set_secondary_control(&mut self, enable: bool) -> (park: bool)
        ensures
            *final(self) == (PollTracker { secondary: enable, ..*old(self) }),
            park == enable,
    {
        self.secondary = enable;
        enable
    }

    /// Decides what the pointer position `current` calls for. Under remote
    /// control a motion of more than two pixels from the centre on either axis
    /// is sent. Under local control any motion is tracked, unless it reaches
    /// the transfer edge, which hands control to the remote instead.
    pub fn poll(&mut self, current: (i64, i64)) -> (r: PollAction)
        requires
            old(self).poll_fits(current),
        ensures
            ({
                let s = *old(self);
                if s.secondary {
                    let dx = current.0 - s.center.0;
                    let dy = current.1 - s.center.1;
                    &&& *final(self) == s
                    &&& r == if dx > 2 || dx < -2 || dy > 2 || dy < -2 {
                        PollAction::SendDelta(
                            MouseEvent {
                                x: 0,
                                y: 0,
                                delta_x: Some(dx as i64),
                                delta_y: Some(dy as i64),
                                event_type: MouseEventType::Move,
                            },
                        )
                    } else {
                        PollAction::Idle
                    }
                } else if current == s.last {
                    *final(self) == s && r == PollAction::Idle
                } else if touches_edge(
                    s.transfer_edge,
                    s.screen_width as int,
                    s.screen_height as int,
                    current.0 as int,
                    current.1 as int,
                ) {
                    *final(self) == (PollTracker { secondary: true, ..s })
                        && r == PollAction::EnterSecondary
                } else {
                    *final(self) == (PollTracker { last: current, ..s }) && r == PollAction::Followed
                }
            }),
    {
        if self.secondary {
            let dx = current.0 - self.center.0;
            let dy = current.1 - self.center.1;
            if dx > 2 || dx < -2 || dy > 2 || dy < -2 {
                PollAction::SendDelta(
                    MouseEvent {
                        x: 0,
                        y: 0,
                        delta_x: Some(dx),
                        delta_y: Some(dy),
                        event_type: MouseEventType::Move,
                    },
                )
            } else {
                PollAction::Idle
            }
        } else if current.0 == self.last.0 && current.1 == self.last.1 {
            PollAction::Idle
        } else {
            let (x, y) = current;
            let at_edge = match self.transfer_edge {
                EdgeDirection::Left => x <= 1,
                EdgeDirection::Right => x >= self.screen_width as i64 - 1,
                EdgeDirection::Top => y <= 1,
                EdgeDirection::Bottom => y >= self.screen_height as i64 - 1,
            };
            if at_edge {
                self.secondary = true;
                PollAction::EnterSecondary
            } else {
                self.last = current;
                PollAction::Followed
            }
        }
    }
}

} // verus!
