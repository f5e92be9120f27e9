use sharemouse::capturer::{LinuxCapturer, MouseButton, PollAction, PollTracker, RawInput};
use sharemouse::config::EdgeDirection;
use sharemouse::event::{MouseEvent, MouseEventType};
use sharemouse::injector::{injection_command, InjectCommand, LinuxInjector};

#[test]
fn linux_capture_tracks_and_clamps() {
    let mut c = LinuxCapturer::new("/dev/input/event3", 1920, 1080);
    assert_eq!(c.device_path, "/dev/input/event3");
    let e = c.handle_input(RawInput::RelX(50)).unwrap();
    assert_eq!(e, MouseEvent { x: 50, y: 0, delta_x: Some(50), delta_y: Some(0), event_type: MouseEventType::Move });
    let e = c.handle_input(RawInput::RelY(-30)).unwrap();
    assert_eq!(e, MouseEvent { x: 50, y: 0, delta_x: Some(0), delta_y: Some(-30), event_type: MouseEventType::Move });
    c.handle_input(RawInput::RelX(i32::MAX));
    assert_eq!(c.current_x, 1919);
    c.handle_input(RawInput::RelY(2000));
    assert_eq!(c.current_y, 1079);
}

#[test]
fn linux_capture_buttons_and_wheel() {
    let mut c = LinuxCapturer::new("dev", 100, 100);
    assert_eq!(c.handle_input(RawInput::Wheel(1)).unwrap().event_type, MouseEventType::ScrollUp);
    assert_eq!(c.handle_input(RawInput::Wheel(-1)).unwrap().event_type, MouseEventType::ScrollDown);
    assert_eq!(c.handle_input(RawInput::Button(MouseButton::Left, 1)).unwrap().event_type, MouseEventType::LeftClick);
    assert_eq!(c.handle_input(RawInput::Button(MouseButton::Right, 0)).unwrap().event_type, MouseEventType::RightRelease);
    assert_eq!(c.handle_input(RawInput::Button(MouseButton::Middle, 1)).unwrap().event_type, MouseEventType::MiddleClick);
    assert_eq!(c.handle_input(RawInput::Button(MouseButton::Left, 2)), None);
}

#[test]
fn poll_tracker_hands_over_at_edge() {
    let mut t = PollTracker::new(2560, 1440, EdgeDirection::Right, (100, 100));
    assert_eq!(t.center, (1280, 720));
    assert_eq!(t.poll((100, 100)), PollAction::Idle);
    assert_eq!(t.poll((2000, 100)), PollAction::Followed);
    assert_eq!(t.last, (2000, 100));
    assert_eq!(t.poll((2559, 100)), PollAction::EnterSecondary);
    assert!(t.secondary);
    assert_eq!(t.poll((1282, 719)), PollAction::Idle);
    assert_eq!(
        t.poll((1290, 700)),
        PollAction::SendDelta(MouseEvent { x: 0, y: 0, delta_x: Some(10), delta_y: Some(-20), event_type: MouseEventType::Move })
    );
    assert!(!t.set_secondary_control(false));
    assert!(!t.secondary);
}

#[test]
fn injection_commands() {
    assert_eq!(injection_command(&MouseEvent::move_to(3, 4)), InjectCommand::MoveTo { x: 3, y: 4 });
    let rel = MouseEvent { x: 0, y: 0, delta_x: Some(-2), delta_y: Some(5), event_type: MouseEventType::Move };
    assert_eq!(injection_command(&rel), InjectCommand::MoveBy { dx: -2, dy: 5 });
    let click = MouseEvent { event_type: MouseEventType::RightClick, ..rel };
    assert_eq!(injection_command(&click), InjectCommand::Button { button: MouseButton::Right, pressed: true });
    let up = MouseEvent { event_type: MouseEventType::ScrollUp, ..rel };
    assert_eq!(injection_command(&up), InjectCommand::Scroll { dx: 0, dy: 1 });
    let down = MouseEvent { event_type: MouseEventType::ScrollDown, ..rel };
    assert_eq!(injection_command(&down), InjectCommand::Scroll { dx: 0, dy: -1 });
    let free = MouseEvent { event_type: MouseEventType::Scroll, delta_y: None, ..rel };
    assert_eq!(injection_command(&free), InjectCommand::Scroll { dx: -2, dy: 0 });
    let inj = LinuxInjector::new();
    assert_eq!(inj.button_number(MouseButton::Left), 1);
    assert_eq!(inj.button_number(MouseButton::Middle), 2);
    assert_eq!(inj.button_number(MouseButton::Right), 3);
}
