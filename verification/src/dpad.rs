//! Translation of analog dpad axes into digital button events.
//!
//! Some devices report their dpad as a pair of axes. When such a device has
//! no native dpad buttons, this stage synthesizes the press and release
//! events an application expects. On devices that do expose real dpad
//! buttons it does nothing, so no physical control delivers double events.

use vstd::prelude::*;

use crate::chain::FilterFn;
use crate::events::Axis;
use crate::events::Button;
use crate::events::Event;
use crate::events::EventType;
use crate::events::UNIT;
use crate::state::Gamepad;
use crate::state::StateView;

verus! {

/// Native code conventionally reporting the upward dpad button.
pub const BTN_DPAD_UP: u16 = 544;

/// Native code conventionally reporting the downward dpad button.
pub const BTN_DPAD_DOWN: u16 = 545;

/// Native code conventionally reporting the leftward dpad button.
pub const BTN_DPAD_LEFT: u16 = 546;

/// Native code conventionally reporting the rightward dpad button.
pub const BTN_DPAD_RIGHT: u16 = 547;

/// Whether dpad axis events on this device may be mapped to buttons: true
/// only when none of the conventional dpad codes is bound to a named
/// button and no code is bound to `DPadRight`, i.e. the device exposes no
/// real digital dpad.
pub open spec fn spec_can_map(pad: Gamepad) -> bool {
    &&& pad.spec_button_name(BTN_DPAD_RIGHT) == Button::Unknown
    &&& pad.spec_button_name(BTN_DPAD_LEFT) == Button::Unknown
    &&& pad.spec_button_name(BTN_DPAD_DOWN) == Button::Unknown
    &&& pad.spec_button_name(BTN_DPAD_UP) == Button::Unknown
    &&& pad.spec_button_code(Button::DPadRight) is None
}

fn can_map(pad: &Gamepad) -> (r: bool)
    ensures
        r == spec_can_map(*pad),
{
    pad.button_name(BTN_DPAD_RIGHT) == Button::Unknown && pad.button_name(BTN_DPAD_LEFT)
        == Button::Unknown && pad.button_name(BTN_DPAD_DOWN) == Button::Unknown && pad.button_name(
        BTN_DPAD_UP,
    ) == Button::Unknown && pad.button_code(Button::DPadRight).is_none()
}

/// The kind a horizontal dpad axis value translates to: full positive
/// deflection presses `DPadRight`, full negative presses `DPadLeft`, and
/// any other value releases whichever of the two the device tracks as
/// pressed, `DPadRight` when neither is.
pub open spec fn spec_dpad_x_kind(pad: Gamepad, val: i32) -> EventType {
    if val == UNIT {
        EventType::ButtonPressed(Button::DPadRight, BTN_DPAD_RIGHT)
    } else if val == -UNIT {
        EventType::ButtonPressed(Button::DPadLeft, BTN_DPAD_LEFT)
    } else if !pad.spec_is_pressed(BTN_DPAD_RIGHT) && pad.spec_is_pressed(BTN_DPAD_LEFT) {
        EventType::ButtonReleased(Button::DPadLeft, BTN_DPAD_LEFT)
    } else {
        EventType::ButtonReleased(Button::DPadRight, BTN_DPAD_RIGHT)
    }
}

/// The kind a vertical dpad axis value translates to; symmetric to the
/// horizontal case with `DPadUp` for full positive deflection.
pub open spec fn spec_dpad_y_kind(pad: Gamepad, val: i32) -> EventType {
    if val == UNIT {
        EventType::ButtonPressed(Button::DPadUp, BTN_DPAD_UP)
    } else if val == -UNIT {
        EventType::ButtonPressed(Button::DPadDown, BTN_DPAD_DOWN)
    } else if !pad.spec_is_pressed(BTN_DPAD_UP) && pad.spec_is_pressed(BTN_DPAD_DOWN) {
        EventType::ButtonReleased(Button::DPadDown, BTN_DPAD_DOWN)
    } else {
        EventType::ButtonReleased(Button::DPadUp, BTN_DPAD_UP)
    }
}

/// A dpad stage only needs the originating device to exist when it sees a
/// dpad axis event.
pub open spec fn dpad_pre(ev: Option<Event>, st: StateView) -> bool {
    match ev {
        Some(e) => match e.event {
            EventType::AxisChanged(axis, _val, _nec) => (axis == Axis::DPadX || axis
                == Axis::DPadY) ==> e.id < st.pads@.len(),
            _ => true,
        },
        None => true,
    }
}

/// Exact output of the dpad stage: on a mappable device a dpad axis event
/// becomes the synthesized button event with the same device and instant;
/// everything else passes through unchanged. Only exact full deflection
/// presses: intermediate values fall into the release branch by design.
pub open spec fn dpad_spec(ev: Option<Event>, st: StateView) -> Option<Event> {
    match ev {
        Some(e) => match e.event {
            EventType::AxisChanged(Axis::DPadX, val, _nec) => {
                if e.id < st.pads@.len() && spec_can_map(st.pads@[e.id as int]) {
                    Some(
                        Event {
                            id: e.id,
                            time: e.time,
                            event: spec_dpad_x_kind(st.pads@[e.id as int], val),
                        },
                    )
                } else {
                    ev
                }
            },
            EventType::AxisChanged(Axis::DPadY, val, _nec) => {
                if e.id < st.pads@.len() && spec_can_map(st.pads@[e.id as int]) {
                    Some(
                        Event {
                            id: e.id,
                            time: e.time,
                            event: spec_dpad_y_kind(st.pads@[e.id as int], val),
                        },
                    )
                } else {
                    ev
                }
            },
            _ => ev,
        },
        None => None,
    }
}

/// Maps axis dpad events to button dpad events.
///
/// Does nothing on devices that expose native dpad buttons, or when the
/// conventional dpad codes already belong to other buttons.
pub fn axis_dpad_to_button(ev: Option<Event>, st: &StateView) -> (r: Option<Event>)
    requires
        dpad_pre(ev, *st),
    ensures
        r == dpad_spec(ev, *st),
{
    match ev {
        Some(e) => match e.event {
            EventType::AxisChanged(Axis::DPadX, val, _) => {
                let pad = st.gamepad(e.id);
                if can_map(pad) {
                    let kind = if val == UNIT {
                        EventType::ButtonPressed(Button::DPadRight, BTN_DPAD_RIGHT)
                    } else if val == -UNIT {
                        EventType::ButtonPressed(Button::DPadLeft, BTN_DPAD_LEFT)
                    } else if !pad.is_pressed(BTN_DPAD_RIGHT) && pad.is_pressed(BTN_DPAD_LEFT) {
                        EventType::ButtonReleased(Button::DPadLeft, BTN_DPAD_LEFT)
                    } else {
                        EventType::ButtonReleased(Button::DPadRight, BTN_DPAD_RIGHT)
                    };
                    Some(Event { id: e.id, time: e.time, event: kind })
                } else {
                    ev
                }
            },
            EventType::AxisChanged(Axis::DPadY, val, _) => {
                let pad = st.gamepad(e.id);
                if can_map(pad) {
                    let kind = if val == UNIT {
                        EventType::ButtonPressed(Button::DPadUp, BTN_DPAD_UP)
                    } else if val == -UNIT {
                        EventType::ButtonPressed(Button::DPadDown, BTN_DPAD_DOWN)
                    } else if !pad.is_pressed(BTN_DPAD_UP) && pad.is_pressed(BTN_DPAD_DOWN) {
                        EventType::ButtonReleased(Button::DPadDown, BTN_DPAD_DOWN)
                    } else {
                        EventType::ButtonReleased(Button::DPadUp, BTN_DPAD_UP)
                    };
                    Some(Event { id: e.id, time: e.time, event: kind })
                } else {
                    ev
                }
            },
            _ => ev,
        },
        None => None,
    }
}

/// The dpad-to-button stage, for use in a chain.
#[derive(Clone, Copy, Debug, PartialEq, Eq, Structural)]
pub struct AxisDpadToButton;

impl FilterFn for AxisDpadToButton {
    open spec fn spec_pre(&self, ev: Option<Event>, st: StateView) -> bool {
        dpad_pre(ev, st)
    }

    open spec fn spec_filter(&self, ev: Option<Event>, st: StateView) -> Option<Event> {
        dpad_spec(ev, st)
    }

    proof fn presence_preserved(&self, ev: Option<Event>, st: StateView) {
    }

    fn filter(&self, ev: Option<Event>, st: &StateView) -> (r: Option<Event>) {
        axis_dpad_to_button(ev, st)
    }
}

} // verus!
