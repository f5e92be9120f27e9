//! One step of the cursor state machine per physical sample, and what it sends.

use vstd::prelude::*;
use crate::config::Config;
use crate::coordinate::{
    at_transfer_edge, virtual_extent, CoordinateTransformer, LocalCoordinate,
};
use crate::event::{MouseEvent, MouseEventType};
use crate::virtual_mouse::{
    emitted, forwarded_event, position_after, run, sample_fits, side_after, state_after, transfer_event,
    ControlSide, VirtualMouse,
};

verus! {

/// Owns the cursor state and turns physical samples into events for the peer.
pub struct VirtualMouseProcessor {
    pub transformer: CoordinateTransformer,
    pub virtual_mouse: VirtualMouse,
}

impl VirtualMouseProcessor {
    /// The configuration's extents fit, and the cursor state is well formed for it.
    pub open spec fn wf(&self) -> bool {
        self.transformer.config.extents_fit() && self.virtual_mouse.wf(&self.transformer.config)
    }

    /// The configuration the processor works with.
    pub open spec fn config(&self) -> &Config {
        &self.transformer.config
    }

    pub fn new(config: Config, virtual_mouse: VirtualMouse) -> (r: Self)
        ensures
            r.transformer.config == config,
            r.virtual_mouse == virtual_mouse,
    {
        Self { transformer: CoordinateTransformer::new(config), virtual_mouse }
    }

    /// Runs one physical sample through the state machine: updates the
    /// position, re-evaluates ownership, and returns the events for the peer
    /// in the order they are to be sent.
    pub fn process_event(&mut self, event: MouseEvent) -> (r: Vec<MouseEvent>)
        requires
            old(self).wf(),
            old(self).virtual_mouse.control_side == ControlSide::Local ==> sample_fits(
                old(self).config(),
                event.x as int,
                event.y as int,
            ),
        ensures
            final(self).wf(),
            final(self).transformer.config == old(self).transformer.config,
            (final(self).virtual_mouse.virtual_position.x as int,
                final(self).virtual_mouse.virtual_position.y as int)
                == position_after(old(self).config(), &old(self).virtual_mouse, &event),
            final(self).virtual_mouse.control_side == side_after(
                old(self).config(),
                &old(self).virtual_mouse,
                &event,
            ),
            final(self).virtual_mouse.last_physical_position == Some(
                LocalCoordinate { x: event.x, y: event.y },
            ),
            final(self).virtual_mouse == state_after(
                old(self).config(),
                &old(self).virtual_mouse,
                &event,
            ),
            r@ == emitted(old(self).config(), &old(self).virtual_mouse, &event),
    {
        let physical = LocalCoordinate { x: event.x, y: event.y };
        self.virtual_mouse.update_from_physical(physical, event.delta(), &self.transformer);
        let should = self.virtual_mouse.determine_control_side(&self.transformer, &physical);
        let mut out: Vec<MouseEvent> = Vec::new();
        if self.virtual_mouse.control_side != should {
            self.virtual_mouse.switch_control(should, &physical);
            if let Some(transfer) = self.virtual_mouse.create_transfer_event(&self.transformer) {
                out.push(transfer);
            }
        }
        if self.virtual_mouse.control_side == ControlSide::Remote {
            if let Some(remote) = self.virtual_mouse.get_remote_coordinate(&self.transformer) {
                let forward = match event.event_type {
                    MouseEventType::Move => MouseEvent {
                        x: remote.x,
                        y: remote.y,
                        delta_x: event.delta_x,
                        delta_y: event.delta_y,
                        event_type: MouseEventType::Move,
                    },
                    _ => event,
                };
                out.push(forward);
            }
        }
        proof {
            let c = self.config();
            let s = old(self).virtual_mouse;
            assert(out@ =~= emitted(c, &s, &event));
        }
        out
    }
}

/// Under local control, a sample inside the local screen and away from the
/// transfer edge keeps control local and sends nothing.
pub proof fn lemma_local_control_kept_away_from_edge(c: &Config, s: &VirtualMouse, e: &MouseEvent)
    requires
        s.control_side == ControlSide::Local,
        0 <= e.x < c.screen.width,
        0 <= e.y < c.screen.height,
        !at_transfer_edge(c, e.x as int, e.y as int),
    ensures
        side_after(c, s, e) == ControlSide::Local,
        emitted(c, s, e) == Seq::<MouseEvent>::empty(),
{
    assert(emitted(c, s, e) =~= Seq::<MouseEvent>::empty());
}

/// Under local control, a sample at the transfer edge hands control to the
/// remote and sends exactly one transfer event, placed at the remote entry
/// point of that sample, followed by the forwarded sample itself.
pub proof fn lemma_handoff_sends_one_transfer(c: &Config, s: &VirtualMouse, e: &MouseEvent)
    requires
        s.control_side == ControlSide::Local,
        at_transfer_edge(c, e.x as int, e.y as int),
    ensures
        side_after(c, s, e) == ControlSide::Remote,
        emitted(c, s, e) == seq![
            transfer_event(c, e.x as int, e.y as int),
            forwarded_event(c, position_after(c, s, e), e),
        ],
{
    assert(emitted(c, s, e) =~= seq![
        transfer_event(c, e.x as int, e.y as int),
        forwarded_event(c, position_after(c, s, e), e),
    ]);
}

/// Under remote control, a relative sample, however large, leaves the virtual
/// position inside the virtual desktop.
pub proof fn lemma_relative_tracking_stays_inside(c: &Config, s: &VirtualMouse, e: &MouseEvent)
    requires
        s.control_side == ControlSide::Remote,
        e.spec_delta() is Some,
        virtual_extent(c).0 > 0,
        virtual_extent(c).1 > 0,
    ensures
        0 <= position_after(c, s, e).0 < virtual_extent(c).0,
        0 <= position_after(c, s, e).1 < virtual_extent(c).1,
{
}

/// A sample inside the local screen and away from the transfer edge.
pub open spec fn stays_local_sample(c: &Config, e: MouseEvent) -> bool {
    &&& 0 <= e.x < c.screen.width
    &&& 0 <= e.y < c.screen.height
    &&& !at_transfer_edge(c, e.x as int, e.y as int)
}

/// Starting under local control, samples that all stay inside the local screen
/// and away from the transfer edge never change the owner.
pub proof fn lemma_local_control_kept_over_run(c: &Config, s: VirtualMouse, es: Seq<MouseEvent>)
    requires
        s.control_side == ControlSide::Local,
        forall|i: int| 0 <= i < es.len() ==> stays_local_sample(c, #[trigger] es[i]),
    ensures
        run(c, s, es).control_side == ControlSide::Local,
    decreases es.len(),
{
    if es.len() > 0 {
        let prefix = es.drop_last();
        assert forall|i: int| 0 <= i < prefix.len() implies stays_local_sample(c, #[trigger] prefix[i]) by {
            assert(prefix[i] == es[i]);
        }
        lemma_local_control_kept_over_run(c, s, prefix);
        assert(stays_local_sample(c, es[es.len() - 1]));
        lemma_local_control_kept_away_from_edge(c, &run(c, s, prefix), &es.last());
    }
}

/// Over any run of relative samples, every state reached from a state under
/// remote control has its position inside the virtual desktop.
pub proof fn lemma_relative_run_stays_inside(c: &Config, s: VirtualMouse, es: Seq<MouseEvent>)
    requires
        virtual_extent(c).0 > 0,
        virtual_extent(c).1 > 0,
        c.extents_fit(),
        forall|i: int| 0 <= i < es.len() ==> (#[trigger] es[i]).spec_delta() is Some,
    ensures
        forall|k: int|
            0 < k <= es.len() && run(c, s, es.take(k - 1)).control_side == ControlSide::Remote ==> {
                let v = (#[trigger] run(c, s, es.take(k))).virtual_position;
                &&& 0 <= v.x < virtual_extent(c).0
                &&& 0 <= v.y < virtual_extent(c).1
            },
{
    assert forall|k: int|
        0 < k <= es.len() && run(c, s, es.take(k - 1)).control_side == ControlSide::Remote implies {
            let v = (#[trigger] run(c, s, es.take(k))).virtual_position;
            &&& 0 <= v.x < virtual_extent(c).0
            &&& 0 <= v.y < virtual_extent(c).1
        } by {
        let prefix = es.take(k);
        assert(prefix.drop_last() =~= es.take(k - 1));
        assert(prefix.last() == es[k - 1]);
        lemma_relative_tracking_stays_inside(c, &run(c, s, es.take(k - 1)), &es[k - 1]);
    }
}

} // verus!
