//! Read-only snapshot of the device backend's state.
//!
//! Filters never mutate this state; the consumer of the filtered stream
//! updates it once per pipeline step, after the chain has run. Lookups that
//! key on a native code or a logical name take the first matching entry.

use vstd::prelude::*;

use crate::events::Axis;
use crate::events::Button;
use crate::events::UNIT;

verus! {

broadcast use vstd::seq_lib::group_seq_properties;

/// Last known value and deadzone configuration of one analog axis.
pub struct AxisEntry {
    /// Native code the device reports for this axis.
    pub nec: u16,
    /// Logical name the backend resolved for this axis.
    pub axis: Axis,
    /// Last recorded value, in millionths of a unit.
    pub value: i32,
    /// Deadzone threshold for this axis, in millionths of a unit.
    pub deadzone: i32,
}

/// Recorded state of one button, keyed by native code.
pub struct ButtonEntry {
    /// Native code the device reports for this button.
    pub nec: u16,
    /// Whether the button is currently held.
    pub pressed: bool,
    /// Whether synthetic repeats have already started for this hold.
    pub repeating: bool,
    /// Instant of the last state transition (or last synthesized repeat).
    pub timestamp: u64,
}

/// One entry of the device's native-code to logical-name button mapping.
pub struct ButtonMapping {
    /// Native code.
    pub nec: u16,
    /// Logical button bound to that code.
    pub name: Button,
}

/// First axis entry carrying the given native code.
pub open spec fn find_axis_nec(axes: Seq<AxisEntry>, nec: u16) -> Option<AxisEntry>
    decreases axes.len(),
{
    if axes.len() == 0 {
        None
    } else if axes[0].nec == nec {
        Some(axes[0])
    } else {
        find_axis_nec(axes.skip(1), nec)
    }
}

/// First axis entry carrying the given logical name.
pub open spec fn find_axis_name(axes: Seq<AxisEntry>, axis: Axis) -> Option<AxisEntry>
    decreases axes.len(),
{
    if axes.len() == 0 {
        None
    } else if axes[0].axis == axis {
        Some(axes[0])
    } else {
        find_axis_name(axes.skip(1), axis)
    }
}

/// First button entry carrying the given native code.
pub open spec fn find_button(buttons: Seq<ButtonEntry>, nec: u16) -> Option<ButtonEntry>
    decreases buttons.len(),
{
    if buttons.len() == 0 {
        None
    } else if buttons[0].nec == nec {
        Some(buttons[0])
    } else {
        find_button(buttons.skip(1), nec)
    }
}

/// First mapping entry for the given native code.
pub open spec fn find_mapping_nec(maps: Seq<ButtonMapping>, nec: u16) -> Option<ButtonMapping>
    decreases maps.len(),
{
    if maps.len() == 0 {
        None
    } else if maps[0].nec == nec {
        Some(maps[0])
    } else {
        find_mapping_nec(maps.skip(1), nec)
    }
}

/// First mapping entry for the given logical button.
pub open spec fn find_mapping_name(maps: Seq<ButtonMapping>, name: Button) -> Option<
    ButtonMapping,
>
    decreases maps.len(),
{
    if maps.len() == 0 {
        None
    } else if maps[0].name == name {
        Some(maps[0])
    } else {
        find_mapping_name(maps.skip(1), name)
    }
}

/// Everything a filter may read about one device.
pub struct Gamepad {
    /// Axis state and configuration, in device enumeration order.
    pub axes: Vec<AxisEntry>,
    /// Button state, in device enumeration order.
    pub buttons: Vec<ButtonEntry>,
    /// Native-code to logical-button mapping.
    pub mappings: Vec<ButtonMapping>,
}

impl Gamepad {
    /// Deadzone thresholds express a fraction of full deflection, so each
    /// lies in `[0, UNIT)`.
    pub open spec fn wf(self) -> bool {
        forall|i: int|
            0 <= i < self.axes@.len() ==> 0 <= #[trigger] self.axes@[i].deadzone < UNIT
    }

    /// Last recorded value of the axis with this native code, if any.
    pub open spec fn spec_axis_data(self, nec: u16) -> Option<i32> {
        match find_axis_nec(self.axes@, nec) {
            Some(e) => Some(e.value),
            None => None,
        }
    }

    /// Last recorded value of the axis with this logical name; zero when
    /// the device has no such axis.
    pub open spec fn spec_value(self, axis: Axis) -> i32 {
        match find_axis_name(self.axes@, axis) {
            Some(e) => e.value,
            None => 0,
        }
    }

    /// Last recorded value for this native code; zero when unrecorded.
    pub open spec fn spec_state_value(self, nec: u16) -> i32 {
        match find_axis_nec(self.axes@, nec) {
            Some(e) => e.value,
            None => 0,
        }
    }

    /// Deadzone threshold for this native code, if the device knows it.
    pub open spec fn spec_deadzone(self, nec: u16) -> Option<i32> {
        match find_axis_nec(self.axes@, nec) {
            Some(e) => Some(e.deadzone),
            None => None,
        }
    }

    /// Logical button bound to this native code; `Unknown` when unbound.
    pub open spec fn spec_button_name(self, nec: u16) -> Button {
        match find_mapping_nec(self.mappings@, nec) {
            Some(m) => m.name,
            None => Button::Unknown,
        }
    }

    /// Native code bound to this logical button, if any.
    pub open spec fn spec_button_code(self, name: Button) -> Option<u16> {
        match find_mapping_name(self.mappings@, name) {
            Some(m) => Some(m.nec),
            None => None,
        }
    }

    /// Whether the button with this native code is recorded as held.
    pub open spec fn spec_is_pressed(self, nec: u16) -> bool {
        match find_button(self.buttons@, nec) {
            Some(b) => b.pressed,
            None => false,
        }
    }

    pub fn axis_data(&self, nec: u16) -> (r: Option<i32>)
        ensures
            r == self.spec_axis_data(nec),
    {
        let mut i: usize = 0;
        while i < self.axes.len()
            invariant
                i <= self.axes@.len(),
                find_axis_nec(self.axes@, nec) == find_axis_nec(self.axes@.skip(i as int), nec),
            decreases self.axes@.len() - i,
        {
            if self.axes[i].nec == nec {
                return Some(self.axes[i].value);
            }
            assert(self.axes@.skip(i as int).skip(1) =~= self.axes@.skip(i as int + 1));
            i = i + 1;
        }
        None
    }

    pub fn value(&self, axis: Axis) -> (r: i32)
        ensures
            r == self.spec_value(axis),
    {
        let mut i: usize = 0;
        while i < self.axes.len()
            invariant
                i <= self.axes@.len(),
                find_axis_name(self.axes@, axis) == find_axis_name(
                    self.axes@.skip(i as int),
                    axis,
                ),
            decreases self.axes@.len() - i,
        {
            if self.axes[i].axis == axis {
                return self.axes[i].value;
            }
            assert(self.axes@.skip(i as int).skip(1) =~= self.axes@.skip(i as int + 1));
            i = i + 1;
        }
        0
    }

    pub fn state_value(&self, nec: u16) -> (r: i32)
        ensures
            r == self.spec_state_value(nec),
    {
        match self.axis_data(nec) {
            Some(v) => v,
            None => 0,
        }
    }

    pub fn deadzone(&self, nec: u16) -> (r: Option<i32>)
        ensures
            r == self.spec_deadzone(nec),
    {
        let mut i: usize = 0;
        while i < self.axes.len()
            invariant
                i <= self.axes@.len(),
                find_axis_nec(self.axes@, nec) == find_axis_nec(self.axes@.skip(i as int), nec),
            decreases self.axes@.len() - i,
        {
            if self.axes[i].nec == nec {
                return Some(self.axes[i].deadzone);
            }
            assert(self.axes@.skip(i as int).skip(1) =~= self.axes@.skip(i as int + 1));
            i = i + 1;
        }
        None
    }

    pub fn button_name(&self, nec: u16) -> (r: Button)
        ensures
            r == self.spec_button_name(nec),
    {
        let mut i: usize = 0;
        while i < self.mappings.len()
            invariant
                i <= self.mappings@.len(),
                find_mapping_nec(self.mappings@, nec) == find_mapping_nec(
                    self.mappings@.skip(i as int),
                    nec,
                ),
            decreases self.mappings@.len() - i,
        {
            if self.mappings[i].nec == nec {
                return self.mappings[i].name;
            }
            assert(self.mappings@.skip(i as int).skip(1) =~= self.mappings@.skip(i as int + 1));
            i = i + 1;
        }
        Button::Unknown
    }

    pub fn button_code(&self, name: Button) -> (r: Option<u16>)
        ensures
            r == self.spec_button_code(name),
    {
        let mut i: usize = 0;
        while i < self.mappings.len()
            invariant
                i <= self.mappings@.len(),
                find_mapping_name(self.mappings@, name) == find_mapping_name(
                    self.mappings@.skip(i as int),
                    name,
                ),
            decreases self.mappings@.len() - i,
        {
            if self.mappings[i].name == name {
                return Some(self.mappings[i].nec);
            }
            assert(self.mappings@.skip(i as int).skip(1) =~= self.mappings@.skip(i as int + 1));
            i = i + 1;
        }
        None
    }

    pub fn is_pressed(&self, nec: u16) -> (r: bool)
        ensures
            r == self.spec_is_pressed(nec),
    {
        let mut i: usize = 0;
        while i < self.buttons.len()
            invariant
                i <= self.buttons@.len(),
                find_button(self.buttons@, nec) == find_button(self.buttons@.skip(i as int), nec),
            decreases self.buttons@.len() - i,
        {
            if self.buttons[i].nec == nec {
                return self.buttons[i].pressed;
            }
            assert(self.buttons@.skip(i as int).skip(1) =~= self.buttons@.skip(i as int + 1));
            i = i + 1;
        }
        false
    }
}

/// The read-only device-and-clock snapshot a filter sees for one step.
///
/// A device's id is its index in `pads`. `now` is the instant of the current
/// step on the same clock as the event and button timestamps; the repeat
/// filter measures elapsed time against it, so a test can inject any clock
/// it likes.
pub struct StateView {
    /// All live devices, in enumeration order.
    pub pads: Vec<Gamepad>,
    /// Current instant of this pipeline step.
    pub now: u64,
}

impl StateView {
    /// Every device's configuration is well formed.
    pub open spec fn wf(self) -> bool {
        forall|i: int| 0 <= i < self.pads@.len() ==> (#[trigger] self.pads@[i]).wf()
    }

    /// The device with the given id.
    pub fn gamepad(&self, id: usize) -> (r: &Gamepad)
        requires
            id < self.pads@.len(),
        ensures
            *r == self.pads@[id as int],
    {
        &self.pads[id]
    }
}

} // verus!
