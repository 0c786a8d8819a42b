use evfilter::chain::Filter;
use evfilter::chain::FilterFn;
use evfilter::deadzone::deadzone;
use evfilter::deadzone::Deadzone;
use evfilter::dpad::axis_dpad_to_button;
use evfilter::dpad::AxisDpadToButton;
use evfilter::dpad::BTN_DPAD_DOWN;
use evfilter::dpad::BTN_DPAD_LEFT;
use evfilter::dpad::BTN_DPAD_RIGHT;
use evfilter::dpad::BTN_DPAD_UP;
use evfilter::events::Axis;
use evfilter::events::Button;
use evfilter::events::Event;
use evfilter::events::EventType;
use evfilter::events::UNIT;
use evfilter::jitter::Jitter;
use evfilter::math::isqrt;
use evfilter::repeat::Repeat;
use evfilter::state::AxisEntry;
use evfilter::state::ButtonEntry;
use evfilter::state::ButtonMapping;
use evfilter::state::Gamepad;
use evfilter::state::StateView;

fn axis(nec: u16, name: Axis, value: i32, dz: i32) -> AxisEntry {
    AxisEntry { nec, axis: name, value, deadzone: dz }
}

fn stick_pad(x_value: i32, y_value: i32, dz: i32) -> Gamepad {
    Gamepad {
        axes: vec![
            axis(0, Axis::LeftStickX, x_value, dz),
            axis(1, Axis::LeftStickY, y_value, dz),
        ],
        buttons: vec![],
        mappings: vec![],
    }
}

fn one_pad(pad: Gamepad, now: u64) -> StateView {
    StateView { pads: vec![pad], now }
}

fn axis_event(axis: Axis, value: i32, nec: u16) -> Event {
    Event { id: 0, time: 77, event: EventType::AxisChanged(axis, value, nec) }
}

#[test]
fn isqrt_exact_and_floor() {
    assert_eq!(isqrt(0), 0);
    assert_eq!(isqrt(1), 1);
    assert_eq!(isqrt(24), 4);
    assert_eq!(isqrt(25), 5);
    assert_eq!(isqrt(250_000_000_000), 500_000);
    assert_eq!(isqrt(u64::MAX), 4_294_967_295);
}

#[test]
fn jitter_new_default() {
    assert_eq!(Jitter::new().threshold, 10_000);
}

#[test]
fn jitter_drops_small_change() {
    // 0.0 -> 0.005 with threshold 0.01: suppressed.
    let st = one_pad(stick_pad(0, 0, 200_000), 0);
    let ev = axis_event(Axis::LeftStickX, 5_000, 0);
    let out = Jitter::new().filter(Some(ev), &st).unwrap();
    assert!(out.is_dropped());
    assert_eq!(out.id, 0);
    assert_eq!(out.time, 77);
}

#[test]
fn jitter_passes_change_at_threshold() {
    // A change of exactly the threshold is real movement.
    let st = one_pad(stick_pad(0, 0, 200_000), 0);
    let ev = axis_event(Axis::LeftStickX, 10_000, 0);
    assert_eq!(Jitter::new().filter(Some(ev), &st), Some(ev));
}

#[test]
fn jitter_passes_large_change() {
    let st = one_pad(stick_pad(0, 0, 200_000), 0);
    let ev = axis_event(Axis::LeftStickX, 500_000, 0);
    assert_eq!(Jitter::new().filter(Some(ev), &st), Some(ev));
}

#[test]
fn jitter_passes_non_axis_events() {
    let st = one_pad(stick_pad(0, 0, 200_000), 0);
    let ev = Event { id: 0, time: 9, event: EventType::ButtonPressed(Button::South, 4) };
    assert_eq!(Jitter::new().filter(Some(ev), &st), Some(ev));
    assert_eq!(Jitter::new().filter(None, &st), None);
}

#[test]
fn jitter_passes_unknown_axis_code() {
    // No recorded data for the code: nothing to compare against.
    let st = one_pad(stick_pad(0, 0, 200_000), 0);
    let ev = axis_event(Axis::Unknown, 1, 9);
    assert_eq!(Jitter::new().filter(Some(ev), &st), Some(ev));
}

#[test]
fn deadzone_remaps_half_deflection() {
    // 0.5 on X, Y at 0, threshold 0.2: magnitude 0.5, remapped to
    // (0.5 - 0.2) / 0.8 = 0.375.
    let st = one_pad(stick_pad(0, 0, 200_000), 0);
    let ev = axis_event(Axis::LeftStickX, 500_000, 0);
    let out = deadzone(Some(ev), &st).unwrap();
    assert_eq!(out.event, EventType::AxisChanged(Axis::LeftStickX, 375_000, 0));
    assert_eq!(out.id, 0);
    assert_eq!(out.time, 77);
}

#[test]
fn deadzone_zeroes_inside_dead_zone() {
    // Magnitude below the threshold gives exactly 0; the stored value is
    // nonzero, so a real event reports the change.
    let st = one_pad(stick_pad(100_000, 0, 200_000), 0);
    let ev = axis_event(Axis::LeftStickX, 150_000, 0);
    let out = deadzone(Some(ev), &st).unwrap();
    assert_eq!(out.event, EventType::AxisChanged(Axis::LeftStickX, 0, 0));
}

#[test]
fn deadzone_drops_when_stored_value_matches() {
    // The device already stores the remapped value: re-applying the
    // deadzone to the same raw value is suppressed.
    let st = one_pad(stick_pad(375_000, 0, 200_000), 0);
    let ev = axis_event(Axis::LeftStickX, 500_000, 0);
    let out = deadzone(Some(ev), &st).unwrap();
    assert!(out.is_dropped());
}

#[test]
fn deadzone_drops_resting_stick() {
    let st = one_pad(stick_pad(0, 0, 200_000), 0);
    let ev = axis_event(Axis::LeftStickX, 50_000, 0);
    let out = deadzone(Some(ev), &st).unwrap();
    assert!(out.is_dropped());
}

#[test]
fn deadzone_boundary_magnitude_maps_to_zero() {
    // Magnitude exactly at the threshold still counts as dead.
    let st = one_pad(stick_pad(100_000, 0, 200_000), 0);
    let ev = axis_event(Axis::LeftStickX, 200_000, 0);
    let out = deadzone(Some(ev), &st).unwrap();
    assert_eq!(out.event, EventType::AxisChanged(Axis::LeftStickX, 0, 0));
}

#[test]
fn deadzone_uses_paired_axis_magnitude() {
    // X changes to 0.3 while Y rests at 0.4: magnitude 0.5 exceeds the
    // threshold even though |x| alone does not.
    let st = one_pad(stick_pad(0, 400_000, 200_000), 0);
    let ev = axis_event(Axis::LeftStickX, 300_000, 0);
    let out = deadzone(Some(ev), &st).unwrap();
    // x * ((m - t) / (1 - t)) / m = 0.3 * (0.3 / 0.8) / 0.5 = 0.225
    assert_eq!(out.event, EventType::AxisChanged(Axis::LeftStickX, 225_000, 0));
}

#[test]
fn deadzone_preserves_direction() {
    let st = one_pad(stick_pad(0, 0, 200_000), 0);
    let ev = axis_event(Axis::LeftStickX, -500_000, 0);
    let out = deadzone(Some(ev), &st).unwrap();
    assert_eq!(out.event, EventType::AxisChanged(Axis::LeftStickX, -375_000, 0));
}

#[test]
fn deadzone_passes_non_axis_events() {
    let st = one_pad(stick_pad(0, 0, 200_000), 0);
    let ev = Event { id: 0, time: 1, event: EventType::Connected };
    assert_eq!(deadzone(Some(ev), &st), Some(ev));
    assert_eq!(deadzone(None, &st), None);
}

fn mappable_pad(buttons: Vec<ButtonEntry>) -> Gamepad {
    Gamepad {
        axes: vec![axis(10, Axis::DPadX, 0, 0), axis(11, Axis::DPadY, 0, 0)],
        buttons,
        mappings: vec![],
    }
}

fn native_dpad_pad() -> Gamepad {
    Gamepad {
        axes: vec![],
        buttons: vec![],
        mappings: vec![ButtonMapping { nec: BTN_DPAD_RIGHT, name: Button::DPadRight }],
    }
}

#[test]
fn dpad_full_right_presses_dpad_right() {
    let st = one_pad(mappable_pad(vec![]), 0);
    let ev = axis_event(Axis::DPadX, UNIT, 10);
    let out = axis_dpad_to_button(Some(ev), &st).unwrap();
    assert_eq!(out.event, EventType::ButtonPressed(Button::DPadRight, BTN_DPAD_RIGHT));
    assert_eq!(out.time, 77);
}

#[test]
fn dpad_full_left_presses_dpad_left() {
    let st = one_pad(mappable_pad(vec![]), 0);
    let ev = axis_event(Axis::DPadX, -UNIT, 10);
    let out = axis_dpad_to_button(Some(ev), &st).unwrap();
    assert_eq!(out.event, EventType::ButtonPressed(Button::DPadLeft, BTN_DPAD_LEFT));
}

#[test]
fn dpad_center_releases_pressed_right() {
    let held = ButtonEntry { nec: BTN_DPAD_RIGHT, pressed: true, repeating: false, timestamp: 0 };
    let st = one_pad(mappable_pad(vec![held]), 0);
    let ev = axis_event(Axis::DPadX, 0, 10);
    let out = axis_dpad_to_button(Some(ev), &st).unwrap();
    assert_eq!(out.event, EventType::ButtonReleased(Button::DPadRight, BTN_DPAD_RIGHT));
}

#[test]
fn dpad_center_releases_pressed_left() {
    let held = ButtonEntry { nec: BTN_DPAD_LEFT, pressed: true, repeating: false, timestamp: 0 };
    let st = one_pad(mappable_pad(vec![held]), 0);
    let ev = axis_event(Axis::DPadX, 0, 10);
    let out = axis_dpad_to_button(Some(ev), &st).unwrap();
    assert_eq!(out.event, EventType::ButtonReleased(Button::DPadLeft, BTN_DPAD_LEFT));
}

#[test]
fn dpad_center_defaults_to_right_release() {
    // Neither direction tracked as pressed: released-right by default.
    let st = one_pad(mappable_pad(vec![]), 0);
    let ev = axis_event(Axis::DPadX, 0, 10);
    let out = axis_dpad_to_button(Some(ev), &st).unwrap();
    assert_eq!(out.event, EventType::ButtonReleased(Button::DPadRight, BTN_DPAD_RIGHT));
}

#[test]
fn dpad_partial_deflection_releases() {
    // Intermediate analog values fall into the release branch by design.
    let st = one_pad(mappable_pad(vec![]), 0);
    let ev = axis_event(Axis::DPadX, UNIT / 2, 10);
    let out = axis_dpad_to_button(Some(ev), &st).unwrap();
    assert_eq!(out.event, EventType::ButtonReleased(Button::DPadRight, BTN_DPAD_RIGHT));
}

#[test]
fn dpad_vertical_axis_maps_up_and_down() {
    let st = one_pad(mappable_pad(vec![]), 0);
    let up = axis_dpad_to_button(Some(axis_event(Axis::DPadY, UNIT, 11)), &st).unwrap();
    assert_eq!(up.event, EventType::ButtonPressed(Button::DPadUp, BTN_DPAD_UP));
    let down = axis_dpad_to_button(Some(axis_event(Axis::DPadY, -UNIT, 11)), &st).unwrap();
    assert_eq!(down.event, EventType::ButtonPressed(Button::DPadDown, BTN_DPAD_DOWN));
}

#[test]
fn dpad_native_buttons_pass_through() {
    // The device has a real dpad: the axis event is left alone.
    let st = one_pad(native_dpad_pad(), 0);
    let ev = axis_event(Axis::DPadX, UNIT, 10);
    assert_eq!(axis_dpad_to_button(Some(ev), &st), Some(ev));
}

#[test]
fn dpad_passes_other_axes() {
    let st = one_pad(mappable_pad(vec![]), 0);
    let ev = axis_event(Axis::LeftStickX, UNIT, 0);
    assert_eq!(axis_dpad_to_button(Some(ev), &st), Some(ev));
    assert_eq!(axis_dpad_to_button(None, &st), None);
}

fn held_button(nec: u16, repeating: bool, timestamp: u64) -> ButtonEntry {
    ButtonEntry { nec, pressed: true, repeating, timestamp }
}

fn button_pad(buttons: Vec<ButtonEntry>, mappings: Vec<ButtonMapping>) -> Gamepad {
    Gamepad { axes: vec![], buttons, mappings }
}

#[test]
fn repeat_new_defaults() {
    let r = Repeat::new();
    assert_eq!(r.after, 500_000_000);
    assert_eq!(r.every, 30_000_000);
}

#[test]
fn repeat_passes_present_events_through() {
    let st = one_pad(button_pad(vec![held_button(4, false, 0)], vec![]), u64::MAX);
    let ev = Event { id: 0, time: 3, event: EventType::Connected };
    assert_eq!(Repeat::new().filter(Some(ev), &st), Some(ev));
}

#[test]
fn repeat_fires_first_repeat_after_hold() {
    // Held for exactly `after`, not yet repeating: the synthesized event
    // is anchored at press time plus `after`.
    let mapping = ButtonMapping { nec: 4, name: Button::South };
    let pad = button_pad(vec![held_button(4, false, 1_000)], vec![mapping]);
    let st = one_pad(pad, 1_000 + 500_000_000);
    let out = Repeat::new().filter(None, &st).unwrap();
    assert_eq!(out.id, 0);
    assert_eq!(out.time, 1_000 + 500_000_000);
    assert_eq!(out.event, EventType::ButtonRepeated(Button::South, 4));
}

#[test]
fn repeat_fires_subsequent_repeat_every_interval() {
    let pad = button_pad(vec![held_button(4, true, 2_000)], vec![]);
    let st = one_pad(pad, 2_000 + 40_000_000);
    let out = Repeat::new().filter(None, &st).unwrap();
    assert_eq!(out.time, 2_000 + 30_000_000);
    assert_eq!(out.event, EventType::ButtonRepeated(Button::Unknown, 4));
}

#[test]
fn repeat_ignores_short_holds() {
    let pad = button_pad(vec![held_button(4, false, 1_000)], vec![]);
    let st = one_pad(pad, 1_000 + 499_999_999);
    assert_eq!(Repeat::new().filter(None, &st), None);
}

#[test]
fn repeat_ignores_released_buttons() {
    let released = ButtonEntry { nec: 4, pressed: false, repeating: false, timestamp: 0 };
    let st = one_pad(button_pad(vec![released], vec![]), u64::MAX);
    assert_eq!(Repeat::new().filter(None, &st), None);
}

#[test]
fn repeat_treats_backward_clock_as_no_match() {
    // The button's timestamp lies in the future: no repeat, no error.
    let pad = button_pad(vec![held_button(4, false, 1_000_000_000)], vec![]);
    let st = one_pad(pad, 999_999_999);
    assert_eq!(Repeat::new().filter(None, &st), None);
}

#[test]
fn repeat_with_no_devices_stays_absent() {
    let st = StateView { pads: vec![], now: u64::MAX };
    assert_eq!(Repeat::new().filter(None, &st), None);
}

#[test]
fn repeat_first_match_wins() {
    // Both buttons qualify; enumeration order decides.
    let pad = button_pad(
        vec![held_button(7, false, 0), held_button(8, false, 0)],
        vec![],
    );
    let st = one_pad(pad, 600_000_000);
    let out = Repeat::new().filter(None, &st).unwrap();
    assert_eq!(out.event, EventType::ButtonRepeated(Button::Unknown, 7));
}

#[test]
fn repeat_scans_devices_in_order() {
    let quiet = button_pad(vec![], vec![]);
    let noisy = button_pad(vec![held_button(4, false, 0)], vec![]);
    let st = StateView { pads: vec![quiet, noisy], now: 600_000_000 };
    let out = Repeat::new().filter(None, &st).unwrap();
    assert_eq!(out.id, 1);
}

#[test]
fn chain_keeps_present_events_present() {
    // The end-to-end scenario: a sub-threshold wiggle survives the whole
    // chain as a Dropped event, never as absence.
    let st = one_pad(stick_pad(0, 0, 200_000), 0);
    let ev = axis_event(Axis::LeftStickX, 5_000, 0);
    let out = Some(ev)
        .filter_ev(&Jitter::new(), &st)
        .filter_ev(&Deadzone, &st)
        .filter_ev(&AxisDpadToButton, &st)
        .filter_ev(&Repeat::new(), &st);
    assert!(out.unwrap().is_dropped());
}

#[test]
fn chain_remaps_through_jitter_and_deadzone() {
    let st = one_pad(stick_pad(0, 0, 200_000), 0);
    let ev = axis_event(Axis::LeftStickX, 500_000, 0);
    let out = Some(ev)
        .filter_ev(&Jitter::new(), &st)
        .filter_ev(&Deadzone, &st);
    assert_eq!(
        out.unwrap().event,
        EventType::AxisChanged(Axis::LeftStickX, 375_000, 0)
    );
}

#[test]
fn chain_applies_to_bare_events() {
    let st = one_pad(mappable_pad(vec![]), 0);
    let ev = axis_event(Axis::DPadX, UNIT, 10);
    let out = ev.filter_ev(&AxisDpadToButton, &st);
    assert_eq!(
        out.unwrap().event,
        EventType::ButtonPressed(Button::DPadRight, BTN_DPAD_RIGHT)
    );
}

#[test]
fn chain_lets_repeat_act_on_absence() {
    let pad = button_pad(vec![held_button(4, false, 0)], vec![]);
    let st = one_pad(pad, 500_000_000);
    let nothing: Option<Event> = None;
    let out = nothing.filter_ev(&Jitter::new(), &st).filter_ev(&Repeat::new(), &st);
    assert_eq!(out.unwrap().event, EventType::ButtonRepeated(Button::Unknown, 4));
}

#[test]
fn event_constructors() {
    let ev = Event::new(3, 9, EventType::Disconnected);
    assert_eq!(ev, Event { id: 3, time: 9, event: EventType::Disconnected });
    assert!(!ev.is_dropped());
    let dropped = ev.dropped();
    assert!(dropped.is_dropped());
    assert_eq!(dropped.id, 3);
    assert_eq!(dropped.time, 9);
}
