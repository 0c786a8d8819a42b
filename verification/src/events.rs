//! The canonical event envelope and its tagged variant set.
//!
//! Axis values are fixed-point integers in millionths of a unit: the value
//! `1_000_000` stands for a full deflection of `1.0`. Timestamps are plain
//! `u64` ticks on whatever clock the event producer uses; this library only
//! compares and adds them.

use vstd::prelude::*;

verus! {

/// One unit of axis deflection (`1.0`) in the fixed-point scale used for
/// axis values and thresholds.
pub const UNIT: i32 = 1_000_000;

/// A logical axis name, resolved from a native code by the device backend.
#[derive(Clone, Copy, Debug, PartialEq, Eq, Structural)]
pub enum Axis {
    LeftStickX,
    LeftStickY,
    RightStickX,
    RightStickY,
    LeftZ,
    RightZ,
    DPadX,
    DPadY,
    Unknown,
}

/// A logical button name, resolved from a native code by the device backend.
#[derive(Clone, Copy, Debug, PartialEq, Eq, Structural)]
pub enum Button {
    South,
    East,
    North,
    West,
    LeftTrigger,
    RightTrigger,
    Select,
    Start,
    DPadUp,
    DPadDown,
    DPadLeft,
    DPadRight,
    Unknown,
}

/// The tagged variant set every filter consumes and produces.
///
/// `Dropped` is a sentinel meaning "an event occurred but carries no
/// application-visible meaning"; it is distinct from the absence of an
/// event, which the chain transports as `None`.
#[derive(Clone, Copy, Debug, PartialEq, Eq, Structural)]
pub enum EventType {
    ButtonPressed(Button, u16),
    ButtonReleased(Button, u16),
    ButtonRepeated(Button, u16),
    AxisChanged(Axis, i32, u16),
    Dropped,
    Connected,
    Disconnected,
}

/// One discrete occurrence: which device, when, and what happened.
#[derive(Clone, Copy, Debug, PartialEq, Eq, Structural)]
pub struct Event {
    /// Index of the originating device in the state snapshot.
    pub id: usize,
    /// Instant the occurrence carries; synthesized events carry a computed
    /// timestamp, not the current time.
    pub time: u64,
    /// What happened.
    pub event: EventType,
}

impl Event {
    /// The same occurrence with its kind replaced by the `Dropped` sentinel.
    pub open spec fn spec_dropped(self) -> Event {
        Event { event: EventType::Dropped, ..self }
    }

    /// Whether this event carries the `Dropped` sentinel kind.
    pub open spec fn spec_is_dropped(self) -> bool {
        self.event is Dropped
    }

    pub fn new(id: usize, time: u64, event: EventType) -> (r: Event)
        ensures
            r == (Event { id, time, event }),
    {
        Event { id, time, event }
    }

    /// Suppress this event: keep its device and instant, drop its meaning.
    pub fn dropped(&self) -> (r: Event)
        ensures
            r == self.spec_dropped(),
    {
        Event { event: EventType::Dropped, ..*self }
    }

    pub fn is_dropped(&self) -> (r: bool)
        ensures
            r == self.spec_is_dropped(),
    {
        matches!(self.event, EventType::Dropped)
    }
}

} // verus!
