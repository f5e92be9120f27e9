//! What the receiving side must synthesise for each event.

use vstd::prelude::*;
use crate::capturer::MouseButton;
use crate::event::{MouseEvent, MouseEventType};

verus! {

/// One input action for the operating system to perform.
#[derive(Debug, Clone, Copy, PartialEq, Eq, Structural)]
pub enum InjectCommand {
    /// Place the pointer at an absolute position.
    MoveTo { x: i64, y: i64 },
    /// Move the pointer by a relative amount.
    MoveBy { dx: i64, dy: i64 },
    /// Press (`pressed`) or release a button.
    Button { button: MouseButton, pressed: bool },
    /// Scroll by the given ticks; a positive `dy` scrolls up.
    Scroll { dx: i64, dy: i64 },
}

/// The action an event calls for: a move with both deltas is relative, any
/// other move absolute; clicks press and releases release their button; a
/// scroll up or down is one tick, a free scroll goes by its deltas (a missing
/// one counting as zero).
pub open spec fn command_of(e: MouseEvent) -> InjectCommand {
    match e.event_type {
        MouseEventType::Move => match e.spec_delta() {
            Some((dx, dy)) => InjectCommand::MoveBy { dx, dy },
            None => InjectCommand::MoveTo { x: e.x, y: e.y },
        },
        MouseEventType::LeftClick => InjectCommand::Button { button: MouseButton::Left, pressed: true },
        MouseEventType::LeftRelease => InjectCommand::Button { button: MouseButton::Left, pressed: false },
        MouseEventType::RightClick => InjectCommand::Button { button: MouseButton::Right, pressed: true },
        MouseEventType::RightRelease => InjectCommand::Button { button: MouseButton::Right, pressed: false },
        MouseEventType::MiddleClick => InjectCommand::Button { button: MouseButton::Middle, pressed: true },
        MouseEventType::MiddleRelease => InjectCommand::Button { button: MouseButton::Middle, pressed: false },
        MouseEventType::ScrollUp => InjectCommand::Scroll { dx: 0, dy: 1 },
        MouseEventType::ScrollDown => InjectCommand::Scroll { dx: 0, dy: -1i64 },
        MouseEventType::Scroll => InjectCommand::Scroll {
            dx: match e.delta_x { Some(d) => d, None => 0 },
            dy: match e.delta_y { Some(d) => d, None => 0 },
        },
    }
}

/// The action `event` calls for.
pub fn injection_command(event: &MouseEvent) -> (r: InjectCommand)
    ensures
        r == command_of(*event),
{
    match event.event_type {
        MouseEventType::Move => match event.delta() {
            Some((dx, dy)) => InjectCommand::MoveBy { dx, dy },
            None => InjectCommand::MoveTo { x: event.x, y: event.y },
        },
        MouseEventType::LeftClick => InjectCommand::Button { button: MouseButton::Left, pressed: true },
        MouseEventType::LeftRelease => InjectCommand::Button { button: MouseButton::Left, pressed: false },
        MouseEventType::RightClick => InjectCommand::Button { button: MouseButton::Right, pressed: true },
        MouseEventType::RightRelease => InjectCommand::Button { button: MouseButton::Right, pressed: false },
        MouseEventType::MiddleClick => InjectCommand::Button { button: MouseButton::Middle, pressed: true },
        MouseEventType::MiddleRelease => InjectCommand::Button { button: MouseButton::Middle, pressed: false },
        MouseEventType::ScrollUp => InjectCommand::Scroll { dx: 0, dy: 1 },
        MouseEventType::ScrollDown => InjectCommand::Scroll { dx: 0, dy: -1i64 },
        MouseEventType::Scroll => InjectCommand::Scroll {
            dx: match event.delta_x { Some(d) => d, None => 0 },
            dy: match event.delta_y { Some(d) => d, None => 0 },
        },
    }
}

/// The X11/Wayland number of a button.
pub open spec fn spec_button_number(b: MouseButton) -> u32 {
    match b {
        MouseButton::Left => 1,
        MouseButton::Middle => 2,
        MouseButton::Right => 3,
    }
}

/// Injection on a Linux desktop, through its command-line pointer tools.
pub struct LinuxInjector {}

impl LinuxInjector {
    pub fn new() -> (r: Self) {
        LinuxInjector {}
    }

    /// The number that the desktop's tools give to a button.
    pub fn button_number(&self, button: MouseButton) -> (r: u32)
        ensures
            r == spec_button_number(button),
    {
        match button {
            MouseButton::Left => 1,
            MouseButton::Middle => 2,
            MouseButton::Right => 3,
        }
    }
}

} // verus!
