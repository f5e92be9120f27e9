use sharemouse::config::{Config, Edge, EdgeDirection, Layout, Position, Protocol, Screen};
use sharemouse::coordinate::{CoordinateTransformer, LocalCoordinate, VirtualCoordinate};
use sharemouse::event::{MouseEvent, MouseEventType};

fn config(position: Position, remote_position: Position, to_remote: EdgeDirection, back: EdgeDirection) -> Config {
    Config {
        remote_ip: "192.168.0.2".to_string(),
        remote_port: 5000,
        screen: Screen { width: 2560, height: 1440 },
        remote_screen: Screen { width: 1920, height: 1080 },
        layout: Layout { position, remote_position },
        edge: Edge { sender_to_receiver: to_remote, receiver_to_sender: back },
        protocol: Protocol::Udp,
        buffer_size: 4096,
    }
}

fn all_layouts() -> Vec<Config> {
    vec![
        config(Position::Left, Position::Right, EdgeDirection::Right, EdgeDirection::Left),
        config(Position::Right, Position::Left, EdgeDirection::Left, EdgeDirection::Right),
        config(Position::Top, Position::Bottom, EdgeDirection::Bottom, EdgeDirection::Top),
        config(Position::Bottom, Position::Top, EdgeDirection::Top, EdgeDirection::Bottom),
    ]
}

#[test]
fn round_trip_every_layout() {
    for c in all_layouts() {
        let t = CoordinateTransformer::new(c);
        for (x, y) in [(0, 0), (2559, 1439), (1280, 720), (3, 1000)] {
            let local = LocalCoordinate { x, y };
            let v = t.local_to_virtual(local);
            assert_eq!(t.virtual_to_local(v), local);
        }
    }
}

#[test]
fn local_to_virtual_shifts_second_screen() {
    let right = CoordinateTransformer::new(config(Position::Right, Position::Left, EdgeDirection::Left, EdgeDirection::Right));
    assert_eq!(right.local_to_virtual(LocalCoordinate { x: 10, y: 20 }), VirtualCoordinate { x: 1930, y: 20 });
    let bottom = CoordinateTransformer::new(config(Position::Bottom, Position::Top, EdgeDirection::Top, EdgeDirection::Bottom));
    assert_eq!(bottom.local_to_virtual(LocalCoordinate { x: 10, y: 20 }), VirtualCoordinate { x: 10, y: 1100 });
    let left = CoordinateTransformer::new(config(Position::Left, Position::Right, EdgeDirection::Right, EdgeDirection::Left));
    assert_eq!(left.local_to_virtual(LocalCoordinate { x: 10, y: 20 }), VirtualCoordinate { x: 10, y: 20 });
    assert_eq!(right.virtual_to_local(VirtualCoordinate { x: 1930, y: 20 }), LocalCoordinate { x: 10, y: 20 });
}

#[test]
fn edge_detection_boundary() {
    let t = CoordinateTransformer::new(config(Position::Left, Position::Right, EdgeDirection::Right, EdgeDirection::Left));
    for y in [0, 500, 1439] {
        assert!(t.is_at_transfer_edge(&LocalCoordinate { x: 2559, y }));
        assert!(t.is_at_transfer_edge(&LocalCoordinate { x: 2555, y }));
        assert!(!t.is_at_transfer_edge(&LocalCoordinate { x: 2554, y }));
        assert!(!t.is_at_transfer_edge(&LocalCoordinate { x: 2550, y }));
    }
}

#[test]
fn edge_detection_other_edges() {
    let left = CoordinateTransformer::new(config(Position::Right, Position::Left, EdgeDirection::Left, EdgeDirection::Right));
    assert!(left.is_at_transfer_edge(&LocalCoordinate { x: 5, y: 100 }));
    assert!(!left.is_at_transfer_edge(&LocalCoordinate { x: 6, y: 100 }));
    let top = CoordinateTransformer::new(config(Position::Bottom, Position::Top, EdgeDirection::Top, EdgeDirection::Bottom));
    assert!(top.is_at_transfer_edge(&LocalCoordinate { x: 100, y: 0 }));
    assert!(!top.is_at_transfer_edge(&LocalCoordinate { x: 100, y: 6 }));
    let bottom = CoordinateTransformer::new(config(Position::Top, Position::Bottom, EdgeDirection::Bottom, EdgeDirection::Top));
    assert!(bottom.is_at_transfer_edge(&LocalCoordinate { x: 100, y: 1435 }));
    assert!(!bottom.is_at_transfer_edge(&LocalCoordinate { x: 100, y: 1434 }));
}

#[test]
fn entry_position_each_edge() {
    let right = CoordinateTransformer::new(config(Position::Left, Position::Right, EdgeDirection::Right, EdgeDirection::Left));
    assert_eq!(right.calculate_remote_entry_position(&LocalCoordinate { x: 2559, y: 500 }), LocalCoordinate { x: 5, y: 500 });
    // The kept coordinate is clamped to the smaller remote screen.
    assert_eq!(right.calculate_remote_entry_position(&LocalCoordinate { x: 2559, y: 1400 }), LocalCoordinate { x: 5, y: 1079 });
    assert_eq!(right.calculate_remote_entry_position(&LocalCoordinate { x: 2559, y: -4 }), LocalCoordinate { x: 5, y: 0 });
    let left = CoordinateTransformer::new(config(Position::Right, Position::Left, EdgeDirection::Left, EdgeDirection::Right));
    assert_eq!(left.calculate_remote_entry_position(&LocalCoordinate { x: 0, y: 300 }), LocalCoordinate { x: 1915, y: 300 });
    let bottom = CoordinateTransformer::new(config(Position::Top, Position::Bottom, EdgeDirection::Bottom, EdgeDirection::Top));
    assert_eq!(bottom.calculate_remote_entry_position(&LocalCoordinate { x: 2500, y: 1439 }), LocalCoordinate { x: 1919, y: 5 });
    let top = CoordinateTransformer::new(config(Position::Bottom, Position::Top, EdgeDirection::Top, EdgeDirection::Bottom));
    assert_eq!(top.calculate_remote_entry_position(&LocalCoordinate { x: 700, y: 0 }), LocalCoordinate { x: 700, y: 1075 });
}

#[test]
fn virtual_screen_size() {
    let lr = CoordinateTransformer::new(config(Position::Left, Position::Right, EdgeDirection::Right, EdgeDirection::Left));
    assert_eq!(lr.get_virtual_screen_size(), (4480, 1440));
    let tb = CoordinateTransformer::new(config(Position::Top, Position::Bottom, EdgeDirection::Bottom, EdgeDirection::Top));
    assert_eq!(tb.get_virtual_screen_size(), (2560, 2520));
}

#[test]
fn extents_check_and_template() {
    let mut c = config(Position::Left, Position::Right, EdgeDirection::Right, EdgeDirection::Left);
    assert!(c.has_valid_extents());
    c.screen.width = u32::MAX;
    assert!(!c.has_valid_extents());
    let t = Config::template();
    assert_eq!(t.remote_ip, "000");
    assert_eq!(t.remote_port, 5000);
    assert_eq!(t.screen, Screen { width: 2600, height: 1440 });
    assert_eq!(t.remote_screen, Screen { width: 1920, height: 1080 });
    assert_eq!(t.edge.sender_to_receiver, EdgeDirection::Right);
    assert_eq!(t.protocol, Protocol::Udp);
    assert_eq!(t.buffer_size, 4096);
}

#[test]
fn local_coordinate_of_event() {
    assert_eq!(LocalCoordinate::from(MouseEvent::move_to(12, 34)), LocalCoordinate { x: 12, y: 34 });
    let click = MouseEvent { x: 12, y: 34, delta_x: None, delta_y: None, event_type: MouseEventType::LeftClick };
    assert_eq!(LocalCoordinate::from(click), LocalCoordinate { x: 0, y: 0 });
}
