use sharemouse::config::{Config, Edge, EdgeDirection, Layout, Position, Protocol, Screen};
use sharemouse::event::{MouseEvent, MouseEventType};
use sharemouse::processor::VirtualMouseProcessor;
use sharemouse::virtual_mouse::{ControlSide, VirtualMouse};

fn side_by_side() -> Config {
    Config {
        remote_ip: "10.0.0.2".to_string(),
        remote_port: 5000,
        screen: Screen { width: 1920, height: 1080 },
        remote_screen: Screen { width: 1920, height: 1080 },
        layout: Layout { position: Position::Left, remote_position: Position::Right },
        edge: Edge { sender_to_receiver: EdgeDirection::Right, receiver_to_sender: EdgeDirection::Left },
        protocol: Protocol::Udp,
        buffer_size: 4096,
    }
}

fn processor() -> VirtualMouseProcessor {
    let c = side_by_side();
    let vm = VirtualMouse::new(&c);
    VirtualMouseProcessor::new(c, vm)
}

fn relative(dx: i64, dy: i64) -> MouseEvent {
    MouseEvent { x: 960, y: 540, delta_x: Some(dx), delta_y: Some(dy), event_type: MouseEventType::Move }
}

#[test]
fn starts_local_at_screen_centre() {
    let p = processor();
    assert_eq!(p.virtual_mouse.control_side, ControlSide::Local);
    assert_eq!((p.virtual_mouse.virtual_position.x, p.virtual_mouse.virtual_position.y), (960, 540));
}

#[test]
fn handoff_at_right_edge_sends_entry_point() {
    let mut p = processor();
    let out = p.process_event(MouseEvent::move_to(1919, 500));
    assert_eq!(p.virtual_mouse.control_side, ControlSide::Remote);
    assert_eq!(out[0], MouseEvent::move_to(5, 500));
}

#[test]
fn handoff_sends_one_transfer_then_the_sample() {
    let mut p = processor();
    assert!(p.process_event(MouseEvent::move_to(1800, 500)).is_empty());
    let out = p.process_event(MouseEvent::move_to(1917, 300));
    assert_eq!(out.len(), 2);
    assert_eq!(out[0], MouseEvent::move_to(5, 300));
    // The forwarded sample is in the remote's pixels: virtual x 1917 is left of the remote screen.
    assert_eq!(out[1], MouseEvent::move_to(-3, 300));
    // The next sample sends no further transfer.
    let next = p.process_event(relative(10, 0));
    assert_eq!(next, vec![MouseEvent { x: 7, y: 300, delta_x: Some(10), delta_y: Some(0), event_type: MouseEventType::Move }]);
}

#[test]
fn local_motion_away_from_edge_keeps_control() {
    let mut p = processor();
    for (x, y) in [(0, 0), (100, 200), (1914, 1079), (1500, 3)] {
        let out = p.process_event(MouseEvent::move_to(x, y));
        assert!(out.is_empty());
        assert_eq!(p.virtual_mouse.control_side, ControlSide::Local);
        assert_eq!((p.virtual_mouse.virtual_position.x, p.virtual_mouse.virtual_position.y), (x, y));
    }
}

#[test]
fn relative_tracking_clamps_at_extents() {
    let mut p = processor();
    p.process_event(MouseEvent::move_to(1919, 500));
    for _ in 0..5 {
        p.process_event(relative(1_000_000, 1_000_000));
        let v = p.virtual_mouse.virtual_position;
        assert!(0 <= v.x && v.x < 3840 && 0 <= v.y && v.y < 1080);
    }
    assert_eq!((p.virtual_mouse.virtual_position.x, p.virtual_mouse.virtual_position.y), (3839, 1079));
    p.process_event(relative(0, i64::MIN));
    assert_eq!(p.virtual_mouse.virtual_position.y, 0);
    assert_eq!(p.virtual_mouse.control_side, ControlSide::Remote);
}

#[test]
fn moving_back_returns_control() {
    let mut p = processor();
    p.process_event(MouseEvent::move_to(1919, 500));
    let out = p.process_event(relative(-100, 0));
    assert_eq!(p.virtual_mouse.control_side, ControlSide::Local);
    assert_eq!(p.virtual_mouse.virtual_position.x, 1819);
    // The transfer event is sent whichever way control moves.
    assert_eq!(out, vec![MouseEvent::move_to(5, 540)]);
}

#[test]
fn clicks_forwarded_unchanged_under_remote_control() {
    let mut p = processor();
    let click = MouseEvent { x: 1, y: 2, delta_x: None, delta_y: None, event_type: MouseEventType::LeftClick };
    // Under local control nothing is forwarded.
    assert!(p.process_event(MouseEvent { x: 100, y: 100, ..click }).is_empty());
    p.process_event(MouseEvent::move_to(1919, 500));
    p.process_event(relative(10, 0));
    assert_eq!(p.virtual_mouse.control_side, ControlSide::Remote);
    let centre_click = MouseEvent { x: 960, y: 540, ..click };
    assert_eq!(p.process_event(centre_click), vec![centre_click]);
}

#[test]
fn remote_sample_without_delta_keeps_position() {
    let mut p = processor();
    p.process_event(MouseEvent::move_to(1919, 500));
    let before = p.virtual_mouse.virtual_position;
    p.process_event(MouseEvent::move_to(960, 540));
    assert_eq!(p.virtual_mouse.virtual_position, before);
}

#[test]
fn switch_control_and_lookups() {
    let c = side_by_side();
    let t = sharemouse::coordinate::CoordinateTransformer::new(c.clone());
    let mut vm = VirtualMouse::new(&c);
    assert_eq!(vm.get_remote_coordinate(&t), None);
    assert_eq!(vm.get_local_coordinate(&t), Some(sharemouse::coordinate::LocalCoordinate { x: 960, y: 540 }));
    let here = sharemouse::coordinate::LocalCoordinate { x: 7, y: 8 };
    vm.switch_control(ControlSide::Remote, &here);
    assert_eq!(vm.last_physical_position, Some(here));
    assert_eq!(vm.get_local_coordinate(&t), None);
    assert_eq!(vm.get_remote_coordinate(&t), Some(sharemouse::coordinate::LocalCoordinate { x: -960, y: 540 }));
    assert_eq!(vm.create_transfer_event(&t), Some(MouseEvent::move_to(5, 8)));
    assert_eq!(vm.determine_control_side(&t, &sharemouse::coordinate::LocalCoordinate { x: 1919, y: 0 }), ControlSide::Remote);
}
