//! The cursor state machine: which machine owns the pointer, and where it is
//! on the virtual desktop.

use vstd::prelude::*;
use crate::config::{Config, Position};
use crate::coordinate::{
    at_transfer_edge, clamp_to_extent, entry_position, fits_i64, local_of, remote_local_of, virtual_extent,
    virtual_of, CoordinateTransformer, LocalCoordinate, VirtualCoordinate,
};
use crate::event::{MouseEvent, MouseEventType};

verus! {

/// Which machine's physical pointer drives the virtual cursor.
#[derive(Debug, Clone, Copy, PartialEq, Eq, Structural)]
pub enum ControlSide {
    Local,
    Remote,
}

/// The owner that the layout gives to the virtual point `(vx, vy)`, unless the
/// physical point `(px, py)` sits at the transfer edge, which hands control to
/// the remote at once.
pub open spec fn should_own(c: &Config, vx: int, vy: int, px: int, py: int) -> ControlSide {
    if at_transfer_edge(c, px, py) {
        ControlSide::Remote
    } else {
        let local = match c.layout.position {
            Position::Left => vx < c.screen.width,
            Position::Right => vx >= c.remote_screen.width,
            Position::Top => vy < c.screen.height,
            Position::Bottom => vy >= c.remote_screen.height,
        };
        if local { ControlSide::Local } else { ControlSide::Remote }
    }
}

/// The state machine's data.
#[derive(Debug, Clone, Copy)]
pub struct VirtualMouse {
    /// The current position on the virtual desktop.
    pub virtual_position: VirtualCoordinate,
    /// Which machine owns the pointer.
    pub control_side: ControlSide,
    /// The physical sample seen last, where relative tracking starts from.
    pub last_physical_position: Option<LocalCoordinate>,
}

/// The position after a physical sample: absolute while local control lasts,
/// and while the remote owns the pointer the previous position moved by the
/// sample's delta and clamped into the virtual desktop (kept as it was when the
/// sample has no delta).
pub open spec fn position_update(
    c: &Config,
    s: &VirtualMouse,
    px: int,
    py: int,
    delta: Option<(i64, i64)>,
) -> (int, int) {
    let v = s.virtual_position;
    match s.control_side {
        ControlSide::Local => virtual_of(c, px, py),
        ControlSide::Remote => match delta {
            Some((dx, dy)) => (
                clamp_to_extent(v.x + dx, virtual_extent(c).0),
                clamp_to_extent(v.y + dy, virtual_extent(c).1),
            ),
            None => (v.x as int, v.y as int),
        },
    }
}

/// The position after the physical sample `e`.
pub open spec fn position_after(c: &Config, s: &VirtualMouse, e: &MouseEvent) -> (int, int) {
    position_update(c, s, e.x as int, e.y as int, e.spec_delta())
}

/// The owner after a physical sample.
pub open spec fn side_after(c: &Config, s: &VirtualMouse, e: &MouseEvent) -> ControlSide {
    let p = position_after(c, s, e);
    should_own(c, p.0, p.1, e.x as int, e.y as int)
}

/// The whole state after the physical sample `e`.
pub open spec fn state_after(c: &Config, s: &VirtualMouse, e: &MouseEvent) -> VirtualMouse {
    let p = position_after(c, s, e);
    VirtualMouse {
        virtual_position: VirtualCoordinate { x: p.0 as i64, y: p.1 as i64 },
        control_side: side_after(c, s, e),
        last_physical_position: Some(LocalCoordinate { x: e.x, y: e.y }),
    }
}

/// The state after the samples `es`, one after the other.
pub open spec fn run(c: &Config, s: VirtualMouse, es: Seq<MouseEvent>) -> VirtualMouse
    decreases es.len(),
{
    if es.len() == 0 {
        s
    } else {
        state_after(c, &run(c, s, es.drop_last()), &es.last())
    }
}

/// The event sent once at a handoff from the physical point `(px, py)`.
pub open spec fn transfer_event(c: &Config, px: int, py: int) -> MouseEvent {
    let p = entry_position(c, px, py);
    MouseEvent {
        x: p.0 as i64,
        y: p.1 as i64,
        delta_x: None,
        delta_y: None,
        event_type: MouseEventType::Move,
    }
}

/// What is forwarded for the sample `e` while the remote owns the pointer at
/// the virtual point `p`: a move goes to the remote's own pixels of `p`, any
/// other event goes unchanged.
pub open spec fn forwarded_event(c: &Config, p: (int, int), e: &MouseEvent) -> MouseEvent {
    if e.event_type == MouseEventType::Move {
        let r = remote_local_of(c, p.0, p.1);
        MouseEvent {
            x: r.0 as i64,
            y: r.1 as i64,
            delta_x: e.delta_x,
            delta_y: e.delta_y,
            event_type: MouseEventType::Move,
        }
    } else {
        *e
    }
}

/// The events that one sample sends to the peer: a transfer event when the
/// owner changes, then the forwarded sample while the remote owns the pointer.
pub open spec fn emitted(c: &Config, s: &VirtualMouse, e: &MouseEvent) -> Seq<MouseEvent> {
    let side = side_after(c, s, e);
    let transfer = if side != s.control_side {
        seq![transfer_event(c, e.x as int, e.y as int)]
    } else {
        Seq::empty()
    };
    let forward = if side == ControlSide::Remote {
        seq![forwarded_event(c, position_after(c, s, e), e)]
    } else {
        Seq::empty()
    };
    transfer + forward
}

/// A physical sample whose mapped positions stay within `i64`.
pub open spec fn sample_fits(c: &Config, x: int, y: int) -> bool {
    let v = virtual_of(c, x, y);
    fits_i64(v) && fits_i64(remote_local_of(c, v.0, v.1))
}

impl VirtualMouse {
    /// The remote pixels of the current position stay within `i64`.
    pub open spec fn wf(&self, c: &Config) -> bool {
        let (x, y) = (self.virtual_position.x as int, self.virtual_position.y as int);
        fits_i64(remote_local_of(c, x, y)) && fits_i64(local_of(c, x, y))
    }

    /// Starts under local control at the centre of the local screen.
    pub fn new(config: &Config) -> (r: Self)
        ensures
            r.control_side == ControlSide::Local,
            r.last_physical_position == Some(
                LocalCoordinate { x: (config.screen.width / 2) as i64, y: (config.screen.height / 2) as i64 },
            ),
            (r.virtual_position.x as int, r.virtual_position.y as int) == virtual_of(
                config,
                (config.screen.width / 2) as int,
                (config.screen.height / 2) as int,
            ),
            r.wf(config),
    {
        let initial_local = LocalCoordinate {
            x: (config.screen.width / 2) as i64,
            y: (config.screen.height / 2) as i64,
        };
        let (dx, dy) = match config.layout.position {
            Position::Right => (config.remote_screen.width as i64, 0i64),
            Position::Bottom => (0i64, config.remote_screen.height as i64),
            _ => (0i64, 0i64),
        };
        Self {
            virtual_position: VirtualCoordinate { x: initial_local.x + dx, y: initial_local.y + dy },
            control_side: ControlSide::Local,
            last_physical_position: Some(initial_local),
        }
    }

    /// Moves the virtual position for a physical sample at `physical_pos`:
    /// absolute while local control lasts; relative, by `delta` and clamped
    /// into the virtual desktop, while the remote owns the pointer.
    pub fn update_from_physical(
        &mut self,
        physical_pos: LocalCoordinate,
        delta: Option<(i64, i64)>,
        transformer: &CoordinateTransformer,
    )
        requires
            transformer.config.extents_fit(),
            old(self).wf(&transformer.config),
            old(self).control_side == ControlSide::Local ==> sample_fits(
                &transformer.config,
                physical_pos.x as int,
                physical_pos.y as int,
            ),
        ensures
            (final(self).virtual_position.x as int, final(self).virtual_position.y as int)
                == position_update(
                &transformer.config,
                old(self),
                physical_pos.x as int,
                physical_pos.y as int,
                delta,
            ),
            final(self).control_side == old(self).control_side,
            final(self).last_physical_position == Some(physical_pos),
            final(self).wf(&transformer.config),
    {
        match self.control_side {
            ControlSide::Local => {
                self.virtual_position = transformer.local_to_virtual(physical_pos);
            },
            ControlSide::Remote => {
                if let Some((delta_x, delta_y)) = delta {
                    let (virtual_width, virtual_height) = transformer.get_virtual_screen_size();
                    self.virtual_position = VirtualCoordinate {
                        x: clamp_sum(self.virtual_position.x, delta_x, virtual_width),
                        y: clamp_sum(self.virtual_position.y, delta_y, virtual_height),
                    };
                }
            },
        }
        self.last_physical_position = Some(physical_pos);
    }

    /// Hands control to `new_side`; a real change restarts relative tracking
    /// at the current physical sample.
    pub fn switch_control(&mut self, new_side: ControlSide, current_physical_pos: &LocalCoordinate)
        ensures
            final(self).control_side == new_side,
            final(self).virtual_position == old(self).virtual_position,
            final(self).last_physical_position == if old(self).control_side != new_side {
                Some(*current_physical_pos)
            } else {
                old(self).last_physical_position
            },
    {
        if self.control_side != new_side {
            self.control_side = new_side;
            self.last_physical_position = Some(*current_physical_pos);
        }
    }

    /// The owner that the current virtual position and the physical sample call for.
    pub fn determine_control_side(
        &self,
        transformer: &CoordinateTransformer,
        physical_pos: &LocalCoordinate,
    ) -> (r: ControlSide)
        ensures
            r == should_own(
                &transformer.config,
                self.virtual_position.x as int,
                self.virtual_position.y as int,
                physical_pos.x as int,
                physical_pos.y as int,
            ),
    {
        if transformer.is_at_transfer_edge(physical_pos) {
            return ControlSide::Remote;
        }
        let c = &transformer.config;
        let v = self.virtual_position;
        let local = match c.layout.position {
            Position::Left => v.x < c.screen.width as i64,
            Position::Right => v.x >= c.remote_screen.width as i64,
            Position::Top => v.y < c.screen.height as i64,
            Position::Bottom => v.y >= c.remote_screen.height as i64,
        };
        if local {
            ControlSide::Local
        } else {
            ControlSide::Remote
        }
    }

    /// The current position in local pixels, while local control lasts.
    pub fn get_local_coordinate(&self, transformer: &CoordinateTransformer) -> (r: Option<LocalCoordinate>)
        requires
            self.wf(&transformer.config),
        ensures
            match r {
                Some(l) => self.control_side == ControlSide::Local && (l.x as int, l.y as int)
                    == local_of(
                    &transformer.config,
                    self.virtual_position.x as int,
                    self.virtual_position.y as int,
                ),
                None => self.control_side == ControlSide::Remote,
            },
    {
        match self.control_side {
            ControlSide::Local => Some(transformer.virtual_to_local(self.virtual_position)),
            ControlSide::Remote => None,
        }
    }

    /// The current position in the remote machine's pixels, while the remote owns the pointer.
    pub fn get_remote_coordinate(&self, transformer: &CoordinateTransformer) -> (r: Option<LocalCoordinate>)
        requires
            self.wf(&transformer.config),
        ensures
            match r {
                Some(l) => self.control_side == ControlSide::Remote && (l.x as int, l.y as int)
                    == remote_local_of(
                    &transformer.config,
                    self.virtual_position.x as int,
                    self.virtual_position.y as int,
                ),
                None => self.control_side == ControlSide::Local,
            },
    {
        match self.control_side {
            ControlSide::Remote => Some(self.virtual_to_remote_local(transformer)),
            ControlSide::Local => None,
        }
    }

    fn virtual_to_remote_local(&self, transformer: &CoordinateTransformer) -> (r: LocalCoordinate)
        requires
            self.wf(&transformer.config),
        ensures
            (r.x as int, r.y as int) == remote_local_of(
                &transformer.config,
                self.virtual_position.x as int,
                self.virtual_position.y as int,
            ),
    {
        let c = &transformer.config;
        let v = self.virtual_position;
        let max_x = c.remote_screen.width as i64 - 1;
        let max_y = c.remote_screen.height as i64 - 1;
        match c.layout.remote_position {
            Position::Left => LocalCoordinate { x: v.x, y: if v.y > max_y { max_y } else { v.y } },
            Position::Right => LocalCoordinate {
                x: v.x - c.screen.width as i64,
                y: if v.y > max_y { max_y } else { v.y },
            },
            Position::Top => LocalCoordinate { x: if v.x > max_x { max_x } else { v.x }, y: v.y },
            Position::Bottom => LocalCoordinate {
                x: if v.x > max_x { max_x } else { v.x },
                y: v.y - c.screen.height as i64,
            },
        }
    }

    /// The move that places the remote pointer at its entry point, computed
    /// from the physical sample at which control last changed hands.
    pub fn create_transfer_event(&self, transformer: &CoordinateTransformer) -> (r: Option<MouseEvent>)
        ensures
            r == match self.last_physical_position {
                Some(p) => Some(transfer_event(&transformer.config, p.x as int, p.y as int)),
                None => None,
            },
    {
        match self.last_physical_position {
            Some(p) => {
                let entry = transformer.calculate_remote_entry_position(&p);
                Some(MouseEvent::move_to(entry.x, entry.y))
            },
            None => None,
        }
    }
}

/// `v + d` clamped into `[0, extent - 1]`, without overflow on the way.
pub fn clamp_sum(v: i64, d: i64, extent: u32) -> (r: i64)
    ensures
        r as int == clamp_to_extent(v + d, extent as int),
{
    let sum = v as i128 + d as i128;
    let lower = if sum < 0 { 0i128 } else { sum };
    let upper = extent as i128 - 1;
    let r = if lower > upper { upper } else { lower };
    r as i64
}

} // verus!
