//! Mapping between a machine's own pixels and the shared virtual desktop.

use vstd::prelude::*;
use crate::config::{is_horizontal, Config, EdgeDirection, Position};
use crate::event::{MouseEvent, MouseEventType};

verus! {

/// How close, in pixels, a pointer must come to the transfer edge to hand control over.
pub const EDGE_THRESHOLD: i64 = 5;

/// A point on the shared desktop that spans both screens.
#[derive(Debug, Clone, Copy, PartialEq, Eq, Structural)]
pub struct VirtualCoordinate {
    pub x: i64,
    pub y: i64,
}

/// A point in one machine's own pixel space.
#[derive(Debug, Clone, Copy, PartialEq, Eq, Structural)]
pub struct LocalCoordinate {
    pub x: i64,
    pub y: i64,
}

impl From<MouseEvent> for LocalCoordinate {
    /// The position of a move; other events give the origin.
    fn from(event: MouseEvent) -> (r: LocalCoordinate) {
        match event.event_type {
            MouseEventType::Move => LocalCoordinate { x: event.x, y: event.y },
            _ => LocalCoordinate { x: 0, y: 0 },
        }
    }
}

impl vstd::std_specs::convert::FromSpecImpl<MouseEvent> for LocalCoordinate {
    open spec fn obeys_from_spec() -> bool {
        true
    }

    open spec fn from_spec(event: MouseEvent) -> LocalCoordinate {
        if event.event_type == MouseEventType::Move {
            LocalCoordinate { x: event.x, y: event.y }
        } else {
            LocalCoordinate { x: 0, y: 0 }
        }
    }
}

/// How far the local screen is shifted along x on the virtual desktop.
pub open spec fn offset_x(c: &Config) -> int {
    if c.layout.position == Position::Right { c.remote_screen.width as int } else { 0 }
}

/// How far the local screen is shifted along y on the virtual desktop.
pub open spec fn offset_y(c: &Config) -> int {
    if c.layout.position == Position::Bottom { c.remote_screen.height as int } else { 0 }
}

/// The virtual point of the local point `(x, y)`.
pub open spec fn virtual_of(c: &Config, x: int, y: int) -> (int, int) {
    (x + offset_x(c), y + offset_y(c))
}

/// The local point of the virtual point `(x, y)`.
pub open spec fn local_of(c: &Config, x: int, y: int) -> (int, int) {
    (x - offset_x(c), y - offset_y(c))
}

/// Both coordinates of `p` lie in the range of an `i64`.
pub open spec fn fits_i64(p: (int, int)) -> bool {
    i64::MIN <= p.0 <= i64::MAX && i64::MIN <= p.1 <= i64::MAX
}

/// `v` pulled into `[0, extent - 1]`.
pub open spec fn clamp_to_extent(v: int, extent: int) -> int {
    let lower = if v < 0 { 0 } else { v };
    if lower > extent - 1 { extent - 1 } else { lower }
}

/// Whether the local point `(x, y)` is close to the edge that hands control to the remote.
pub open spec fn at_transfer_edge(c: &Config, x: int, y: int) -> bool {
    match c.edge.sender_to_receiver {
        EdgeDirection::Right => x >= c.screen.width - EDGE_THRESHOLD,
        EdgeDirection::Left => x <= EDGE_THRESHOLD,
        EdgeDirection::Bottom => y >= c.screen.height - EDGE_THRESHOLD,
        EdgeDirection::Top => y <= EDGE_THRESHOLD,
    }
}

/// Where the remote pointer appears after a handoff from the local point `(x, y)`:
/// just inside the opposite edge of the remote screen, the other coordinate kept
/// and clamped to the remote screen.
pub open spec fn entry_position(c: &Config, x: int, y: int) -> (int, int) {
    let rw = c.remote_screen.width as int;
    let rh = c.remote_screen.height as int;
    match c.edge.sender_to_receiver {
        EdgeDirection::Right => (EDGE_THRESHOLD as int, clamp_to_extent(y, rh)),
        EdgeDirection::Left => (rw - EDGE_THRESHOLD, clamp_to_extent(y, rh)),
        EdgeDirection::Bottom => (clamp_to_extent(x, rw), EDGE_THRESHOLD as int),
        EdgeDirection::Top => (clamp_to_extent(x, rw), rh - EDGE_THRESHOLD),
    }
}

/// The width and height of the virtual desktop.
pub open spec fn virtual_extent(c: &Config) -> (int, int) {
    let (w, h) = (c.screen.width as int, c.screen.height as int);
    let (rw, rh) = (c.remote_screen.width as int, c.remote_screen.height as int);
    if is_horizontal(c.layout.position) {
        (w + rw, if h >= rh { h } else { rh })
    } else {
        (if w >= rw { w } else { rw }, h + rh)
    }
}

/// The remote machine's own pixels of the virtual point `(x, y)`; the cross
/// axis is clamped to the remote screen from above.
pub open spec fn remote_local_of(c: &Config, x: int, y: int) -> (int, int) {
    let rw = c.remote_screen.width as int;
    let rh = c.remote_screen.height as int;
    match c.layout.remote_position {
        Position::Left => (x, if y > rh - 1 { rh - 1 } else { y }),
        Position::Right => (x - c.screen.width, if y > rh - 1 { rh - 1 } else { y }),
        Position::Top => (if x > rw - 1 { rw - 1 } else { x }, y),
        Position::Bottom => (if x > rw - 1 { rw - 1 } else { x }, y - c.screen.height),
    }
}

fn clamp_exec(v: i64, extent: u32) -> (r: i64)
    ensures
        r as int == clamp_to_extent(v as int, extent as int),
{
    let lower = if v < 0 { 0 } else { v };
    if lower > extent as i64 - 1 { extent as i64 - 1 } else { lower }
}

/// Coordinate mapping for one configuration.
pub struct CoordinateTransformer {
    pub config: Config,
}

impl CoordinateTransformer {
    pub fn new(config: Config) -> (r: Self)
        ensures
            r.config == config,
    {
        Self { config }
    }

    /// Maps a local point to the virtual desktop: the axis of adjacency is
    /// shifted by the remote screen's extent when this screen comes second.
    pub fn local_to_virtual(&self, local: LocalCoordinate) -> (r: VirtualCoordinate)
        requires
            fits_i64(virtual_of(&self.config, local.x as int, local.y as int)),
        ensures
            (r.x as int, r.y as int) == virtual_of(&self.config, local.x as int, local.y as int),
    {
        match self.config.layout.position {
            Position::Right => VirtualCoordinate {
                x: local.x + self.config.remote_screen.width as i64,
                y: local.y,
            },
            Position::Bottom => VirtualCoordinate {
                x: local.x,
                y: local.y + self.config.remote_screen.height as i64,
            },
            _ => VirtualCoordinate { x: local.x, y: local.y },
        }
    }

    /// Maps a virtual point back to this machine's pixels.
    pub fn virtual_to_local(&self, virtual_coord: VirtualCoordinate) -> (r: LocalCoordinate)
        requires
            fits_i64(local_of(&self.config, virtual_coord.x as int, virtual_coord.y as int)),
        ensures
            (r.x as int, r.y as int) == local_of(
                &self.config,
                virtual_coord.x as int,
                virtual_coord.y as int,
            ),
    {
        match self.config.layout.position {
            Position::Right => LocalCoordinate {
                x: virtual_coord.x - self.config.remote_screen.width as i64,
                y: virtual_coord.y,
            },
            Position::Bottom => LocalCoordinate {
                x: virtual_coord.x,
                y: virtual_coord.y - self.config.remote_screen.height as i64,
            },
            _ => LocalCoordinate { x: virtual_coord.x, y: virtual_coord.y },
        }
    }

    /// Whether `local` lies within the threshold of the edge that hands control to the remote.
    pub fn is_at_transfer_edge(&self, local: &LocalCoordinate) -> (r: bool)
        ensures
            r == at_transfer_edge(&self.config, local.x as int, local.y as int),
    {
        match self.config.edge.sender_to_receiver {
            EdgeDirection::Right => local.x >= self.config.screen.width as i64 - EDGE_THRESHOLD,
            EdgeDirection::Left => local.x <= EDGE_THRESHOLD,
            EdgeDirection::Bottom => local.y >= self.config.screen.height as i64 - EDGE_THRESHOLD,
            EdgeDirection::Top => local.y <= EDGE_THRESHOLD,
        }
    }

    /// Where the remote pointer should appear right after control passes to it from `local`.
    pub fn calculate_remote_entry_position(&self, local: &LocalCoordinate) -> (r: LocalCoordinate)
        ensures
            (r.x as int, r.y as int) == entry_position(&self.config, local.x as int, local.y as int),
    {
        let rw = self.config.remote_screen.width;
        let rh = self.config.remote_screen.height;
        match self.config.edge.sender_to_receiver {
            EdgeDirection::Right => LocalCoordinate { x: EDGE_THRESHOLD, y: clamp_exec(local.y, rh) },
            EdgeDirection::Left => LocalCoordinate {
                x: rw as i64 - EDGE_THRESHOLD,
                y: clamp_exec(local.y, rh),
            },
            EdgeDirection::Bottom => LocalCoordinate { x: clamp_exec(local.x, rw), y: EDGE_THRESHOLD },
            EdgeDirection::Top => LocalCoordinate {
                x: clamp_exec(local.x, rw),
                y: rh as i64 - EDGE_THRESHOLD,
            },
        }
    }

    /// The virtual desktop's size: the two extents summed on the axis of
    /// adjacency, the larger one on the other axis.
    pub fn get_virtual_screen_size(&self) -> (r: (u32, u32))
        requires
            self.config.extents_fit(),
        ensures
            (r.0 as int, r.1 as int) == virtual_extent(&self.config),
    {
        let screen = self.config.screen;
        let remote = self.config.remote_screen;
        match self.config.layout.position {
            Position::Left | Position::Right => {
                let max_height = if screen.height >= remote.height { screen.height } else { remote.height };
                (screen.width + remote.width, max_height)
            },
            Position::Top | Position::Bottom => {
                let max_width = if screen.width >= remote.width { screen.width } else { remote.width };
                (max_width, screen.height + remote.height)
            },
        }
    }
}

/// A local point inside the screen survives the trip to the virtual desktop
/// and back unchanged, for every layout position.
pub proof fn lemma_local_virtual_round_trip(c: &Config, x: int, y: int)
    requires
        0 <= x < c.screen.width,
        0 <= y < c.screen.height,
    ensures
        ({
            let v = virtual_of(c, x, y);
            local_of(c, v.0, v.1) == (x, y)
        }),
{
}

/// With a Right transfer edge, the last column of the screen triggers a
/// handoff and the column ten pixels in from the edge does not, at any height.
pub proof fn lemma_edge_detection_boundary(c: &Config, y: int)
    requires
        c.edge.sender_to_receiver == EdgeDirection::Right,
        c.layout.position == Position::Left,
    ensures
        at_transfer_edge(c, c.screen.width - 1, y),
        !at_transfer_edge(c, c.screen.width - 10, y),
{
}

} // verus!
