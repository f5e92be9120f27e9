//! What the sender puts on the wire for an event, and what the receiver makes
//! of the bytes that arrive.

use vstd::prelude::*;
use crate::config::{Config, Protocol};
use crate::event::{MouseEvent, MouseEventType};
use crate::wire::{
    decode_fields, decoded, encode_fields, frame_payload, framed, lemma_wire_round_trip,
    wire_bytes, WireFields,
};

verus! {

/// Why received bytes yield no event.
#[derive(Debug, Clone, Copy, PartialEq, Eq, Structural)]
pub enum WireError {
    /// The bytes do not start with a complete event.
    Malformed,
    /// The event's type tag names no known event type.
    UnknownEventType(u32),
}

/// The integer that stands for an event type on the wire.
pub open spec fn type_tag(t: MouseEventType) -> u32 {
    match t {
        MouseEventType::Move => 0,
        MouseEventType::LeftClick => 1,
        MouseEventType::RightClick => 2,
        MouseEventType::MiddleClick => 3,
        MouseEventType::LeftRelease => 4,
        MouseEventType::RightRelease => 5,
        MouseEventType::MiddleRelease => 6,
        MouseEventType::ScrollUp => 7,
        MouseEventType::ScrollDown => 8,
        MouseEventType::Scroll => 9,
    }
}

/// The event type a wire tag stands for, if any.
pub open spec fn tag_type(tag: u32) -> Option<MouseEventType> {
    if tag == 0 {
        Some(MouseEventType::Move)
    } else if tag == 1 {
        Some(MouseEventType::LeftClick)
    } else if tag == 2 {
        Some(MouseEventType::RightClick)
    } else if tag == 3 {
        Some(MouseEventType::MiddleClick)
    } else if tag == 4 {
        Some(MouseEventType::LeftRelease)
    } else if tag == 5 {
        Some(MouseEventType::RightRelease)
    } else if tag == 6 {
        Some(MouseEventType::MiddleRelease)
    } else if tag == 7 {
        Some(MouseEventType::ScrollUp)
    } else if tag == 8 {
        Some(MouseEventType::ScrollDown)
    } else if tag == 9 {
        Some(MouseEventType::Scroll)
    } else {
        None
    }
}

pub fn event_type_tag(t: MouseEventType) -> (r: u32)
    ensures
        r == type_tag(t),
{
    match t {
        MouseEventType::Move => 0,
        MouseEventType::LeftClick => 1,
        MouseEventType::RightClick => 2,
        MouseEventType::MiddleClick => 3,
        MouseEventType::LeftRelease => 4,
        MouseEventType::RightRelease => 5,
        MouseEventType::MiddleRelease => 6,
        MouseEventType::ScrollUp => 7,
        MouseEventType::ScrollDown => 8,
        MouseEventType::Scroll => 9,
    }
}

pub fn event_type_of_tag(tag: u32) -> (r: Option<MouseEventType>)
    ensures
        r == tag_type(tag),
{
    match tag {
        0 => Some(MouseEventType::Move),
        1 => Some(MouseEventType::LeftClick),
        2 => Some(MouseEventType::RightClick),
        3 => Some(MouseEventType::MiddleClick),
        4 => Some(MouseEventType::LeftRelease),
        5 => Some(MouseEventType::RightRelease),
        6 => Some(MouseEventType::MiddleRelease),
        7 => Some(MouseEventType::ScrollUp),
        8 => Some(MouseEventType::ScrollDown),
        9 => Some(MouseEventType::Scroll),
        _ => None,
    }
}

/// An event in the shape it travels in, its type as an integer tag.
#[derive(Debug, Clone, Copy, PartialEq, Eq)]
pub struct NetworkMouseEvent {
    pub x: i64,
    pub y: i64,
    pub delta_x: Option<i64>,
    pub delta_y: Option<i64>,
    pub event_type: u32,
}

/// The wire fields of an event.
pub open spec fn event_fields(e: MouseEvent) -> WireFields {
    (type_tag(e.event_type), e.x, e.y, e.delta_x, e.delta_y)
}

/// The bytes of one event: the payload of a datagram or of a stream frame.
pub open spec fn event_bytes(e: MouseEvent) -> Seq<u8> {
    wire_bytes(event_fields(e))
}

/// The event that a set of wire fields stands for.
pub open spec fn fields_event(f: WireFields) -> Result<MouseEvent, WireError> {
    match tag_type(f.0) {
        Some(t) => Ok(MouseEvent { x: f.1, y: f.2, delta_x: f.3, delta_y: f.4, event_type: t }),
        None => Err(WireError::UnknownEventType(f.0)),
    }
}

/// The event that the received bytes `s` start with.
pub open spec fn datagram_event(s: Seq<u8>) -> Result<MouseEvent, WireError> {
    match decoded(s) {
        Some(f) => fields_event(f),
        None => Err(WireError::Malformed),
    }
}

impl NetworkMouseEvent {
    pub open spec fn spec_from_event(e: MouseEvent) -> NetworkMouseEvent {
        NetworkMouseEvent {
            x: e.x,
            y: e.y,
            delta_x: e.delta_x,
            delta_y: e.delta_y,
            event_type: type_tag(e.event_type),
        }
    }

    pub open spec fn spec_fields(&self) -> WireFields {
        (self.event_type, self.x, self.y, self.delta_x, self.delta_y)
    }

    /// The fields in wire order.
    pub fn fields(&self) -> (r: WireFields)
        ensures
            r == self.spec_fields(),
    {
        (self.event_type, self.x, self.y, self.delta_x, self.delta_y)
    }

    /// The travelling shape with the given wire fields.
    pub fn from_fields(f: WireFields) -> (r: NetworkMouseEvent)
        ensures
            r.spec_fields() == f,
    {
        NetworkMouseEvent { x: f.1, y: f.2, delta_x: f.3, delta_y: f.4, event_type: f.0 }
    }

    /// The event this stands for; an unknown type tag is an error.
    pub fn to_event(&self) -> (r: Result<MouseEvent, WireError>)
        ensures
            r == fields_event(self.spec_fields()),
    {
        match event_type_of_tag(self.event_type) {
            Some(t) => Ok(
                MouseEvent {
                    x: self.x,
                    y: self.y,
                    delta_x: self.delta_x,
                    delta_y: self.delta_y,
                    event_type: t,
                },
            ),
            None => Err(WireError::UnknownEventType(self.event_type)),
        }
    }
}

impl From<MouseEvent> for NetworkMouseEvent {
    /// The travelling shape of `event`.
    fn from(event: MouseEvent) -> (r: NetworkMouseEvent) {
        NetworkMouseEvent {
            x: event.x,
            y: event.y,
            delta_x: event.delta_x,
            delta_y: event.delta_y,
            event_type: event_type_tag(event.event_type),
        }
    }
}

impl vstd::std_specs::convert::FromSpecImpl<MouseEvent> for NetworkMouseEvent {
    open spec fn obeys_from_spec() -> bool {
        true
    }

    open spec fn from_spec(event: MouseEvent) -> NetworkMouseEvent {
        NetworkMouseEvent::spec_from_event(event)
    }
}

/// Turns events into the bytes that go to the peer.
pub struct NetworkSender {
    config: Config,
}

impl NetworkSender {
    pub closed spec fn spec_config(&self) -> Config {
        self.config
    }

    pub fn new(config: Config) -> (r: Self)
        ensures
            r.spec_config() == config,
    {
        Self { config }
    }

    pub fn config(&self) -> (r: &Config)
        ensures
            *r == self.spec_config(),
    {
        &self.config
    }

    /// The bytes that carry `event`: the bare payload as one datagram, or the
    /// payload behind its length on a stream.
    pub fn encode(&self, event: &MouseEvent) -> (r: Vec<u8>)
        ensures
            r@ == match self.spec_config().protocol {
                Protocol::Udp => event_bytes(*event),
                Protocol::Tcp => framed(event_bytes(*event)),
            },
    {
        let net = NetworkMouseEvent::from(*event);
        let payload = encode_fields(&net.fields());
        match self.config.protocol {
            Protocol::Udp => payload,
            Protocol::Tcp => {
                proof {
                    lemma_event_bytes_len(*event);
                }
                frame_payload(payload.as_slice())
            },
        }
    }
}

/// Turns received bytes into events.
pub struct NetworkReceiver {
    port: u16,
}

impl NetworkReceiver {
    pub closed spec fn spec_port(&self) -> u16 {
        self.port
    }

    pub fn new(port: u16) -> (r: Self)
        ensures
            r.spec_port() == port,
    {
        Self { port }
    }

    /// The port to listen on.
    pub fn port(&self) -> (r: u16)
        ensures
            r == self.spec_port(),
    {
        self.port
    }

    /// The event that one datagram (or one frame's payload) carries. Bytes that
    /// do not start with a complete event, or that name no known event type,
    /// give an error: the caller drops them and goes on.
    pub fn decode_datagram(&self, datagram: &[u8]) -> (r: Result<MouseEvent, WireError>)
        ensures
            r == datagram_event(datagram@),
    {
        match decode_fields(datagram) {
            Some(f) => NetworkMouseEvent::from_fields(f).to_event(),
            None => Err(WireError::Malformed),
        }
    }
}

proof fn lemma_event_bytes_len(e: MouseEvent)
    ensures
        event_bytes(e).len() <= 38,
{
    vstd::bytes::lemma_auto_spec_u32_to_from_le_bytes();
    vstd::bytes::lemma_auto_spec_u64_to_from_le_bytes();
}

/// An event sent as a datagram is received as the same event.
pub proof fn lemma_event_round_trip(e: MouseEvent)
    ensures
        datagram_event(event_bytes(e)) == Ok::<MouseEvent, WireError>(e),
{
    lemma_wire_round_trip(event_fields(e));
}

} // verus!
