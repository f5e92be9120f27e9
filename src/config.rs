//! The static description of the two screens and how they adjoin.

use vstd::prelude::*;

verus! {

/// The role a process plays.
#[derive(Debug, Clone, Copy, PartialEq, Eq, Structural)]
pub enum Mode {
    Sender,
    Receiver,
}

/// A screen's size in pixels.
#[derive(Debug, Clone, Copy, PartialEq, Eq, Structural)]
pub struct Screen {
    pub width: u32,
    pub height: u32,
}

/// A screen edge.
#[derive(Debug, Clone, Copy, PartialEq, Eq, Structural)]
pub enum EdgeDirection {
    Left,
    Right,
    Top,
    Bottom,
}

/// Which local edge hands control to the remote, and which hands it back.
#[derive(Debug, Clone, Copy, PartialEq, Eq, Structural)]
pub struct Edge {
    pub sender_to_receiver: EdgeDirection,
    pub receiver_to_sender: EdgeDirection,
}

/// Where a screen sits in the two-screen arrangement.
#[derive(Debug, Clone, Copy, PartialEq, Eq, Structural)]
pub enum Position {
    Left,
    Right,
    Top,
    Bottom,
}

/// The adjacency of the local and the remote screen.
#[derive(Debug, Clone, Copy, PartialEq, Eq, Structural)]
pub struct Layout {
    pub position: Position,
    pub remote_position: Position,
}

/// The transport that carries events to the peer.
#[derive(Debug, Clone, Copy, PartialEq, Eq, Structural)]
pub enum Protocol {
    /// One event per datagram.
    Udp,
    /// A persistent stream of length-prefixed events.
    Tcp,
}

/// Everything the core reads from the configuration file.
#[derive(Debug, Clone)]
pub struct Config {
    pub remote_ip: String,
    pub remote_port: u16,
    pub screen: Screen,
    pub remote_screen: Screen,
    pub layout: Layout,
    pub edge: Edge,
    pub protocol: Protocol,
    pub buffer_size: usize,
}

/// The receive buffer a template configuration asks for.
pub const DEFAULT_BUFFER_SIZE: usize = 4096;

/// Whether a position lies on the horizontal axis of the arrangement.
pub open spec fn is_horizontal(p: Position) -> bool {
    p == Position::Left || p == Position::Right
}

impl Config {
    /// The virtual desktop's extents, summed on the adjacency axis, fit in a `u32`.
    pub open spec fn extents_fit(&self) -> bool {
        &&& self.screen.width as int + self.remote_screen.width as int <= u32::MAX
        &&& self.screen.height as int + self.remote_screen.height as int <= u32::MAX
    }

    /// Tests `extents_fit`, for callers that hold a configuration read at run time.
    pub fn has_valid_extents(&self) -> (r: bool)
        ensures
            r == self.extents_fit(),
    {
        self.screen.width as u64 + self.remote_screen.width as u64 <= u32::MAX as u64
            && self.screen.height as u64 + self.remote_screen.height as u64 <= u32::MAX as u64
    }

    /// The configuration written out as a starting point for a new setup.
    pub fn template() -> (c: Config)
        ensures
            c.remote_ip@ == "000"@,
            c.remote_port == 5000,
            c.screen == (Screen { width: 2600, height: 1440 }),
            c.remote_screen == (Screen { width: 1920, height: 1080 }),
            c.layout == (Layout { position: Position::Left, remote_position: Position::Right }),
            c.edge == (Edge {
                sender_to_receiver: EdgeDirection::Right,
                receiver_to_sender: EdgeDirection::Left,
            }),
            c.protocol == Protocol::Udp,
            c.buffer_size == DEFAULT_BUFFER_SIZE,
            c.extents_fit(),
    {
        Config {
            remote_ip: "000".to_owned(),
            remote_port: 5000,
            screen: Screen { width: 2600, height: 1440 },
            remote_screen: Screen { width: 1920, height: 1080 },
            layout: Layout { position: Position::Left, remote_position: Position::Right },
            edge: Edge {
                sender_to_receiver: EdgeDirection::Right,
                receiver_to_sender: EdgeDirection::Left,
            },
            protocol: Protocol::Udp,
            buffer_size: DEFAULT_BUFFER_SIZE,
        }
    }
}

} // verus!
