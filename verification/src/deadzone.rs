//! Deadzone remapping of analog stick values.
//!
//! The changed axis and its paired axis (stick X pairs with stick Y) form a
//! 2D vector. Magnitudes up to the per-axis threshold collapse to zero;
//! beyond it the changed component is scaled so that magnitudes in
//! `[threshold, 1]` map onto `[0, 1]` with the direction preserved.

use vstd::arithmetic::div_mod::lemma_div_multiples_vanish_quotient;
use vstd::prelude::*;

use crate::chain::FilterFn;
use crate::events::Axis;
use crate::events::Event;
use crate::events::EventType;
use crate::events::UNIT;
use crate::math::isqrt;
use crate::math::lemma_sqrt_floor_unique;
use crate::math::sqrt_floor;
use crate::state::Gamepad;
use crate::state::StateView;

verus! {

/// Magnitude of the vector `(x, y)`, rounded down, in millionths.
pub open spec fn spec_magnitude(x: int, y: int) -> int {
    sqrt_floor((x * x + y * y) as nat) as int
}

/// Clamp to the value range of an axis event.
pub open spec fn clamp_value(v: int) -> int {
    if v > i32::MAX {
        i32::MAX as int
    } else if v < i32::MIN {
        i32::MIN as int
    } else {
        v
    }
}

/// Deadzone remap of the component `x`, paired with component `y`, for
/// threshold `t` (all in millionths, `0 <= t < UNIT`).
///
/// With magnitude `m` of `(x, y)`: at most `t` gives `0`; beyond `t` the
/// component is scaled by `((m - t) / (1 - t)) / m`, which in millionths is
/// `|x| * (m - t) * UNIT / ((UNIT - t) * m)` rounded down, with the sign of
/// `x` restored and the result clamped to the `i32` range.
pub open spec fn spec_remap(x: int, y: int, t: int) -> int {
    let m = spec_magnitude(x, y);
    if m <= t {
        0
    } else {
        let mag = (vstd::math::abs(x) * (m - t) * (UNIT as int)) / (((UNIT as int) - t) * m);
        if x >= 0 {
            clamp_value(mag)
        } else {
            clamp_value(-mag)
        }
    }
}

/// Remap both components of the vector `(x, y)` at threshold `threshold`.
fn apply_deadzone(x: i32, y: i32, threshold: i32) -> (r: (i32, i32))
    requires
        0 <= threshold < UNIT,
    ensures
        r.0 == spec_remap(x as int, y as int, threshold as int),
        r.1 == spec_remap(y as int, x as int, threshold as int),
{
    proof {
        assert((x as i64) * (x as i64) <= 0x4000_0000_0000_0000 && (x as i64) * (x as i64) >= 0)
            by (nonlinear_arith)
            requires
                -0x8000_0000 <= x as i64 <= 0x7fff_ffff,
        ;
        assert((y as i64) * (y as i64) <= 0x4000_0000_0000_0000 && (y as i64) * (y as i64) >= 0)
            by (nonlinear_arith)
            requires
                -0x8000_0000 <= y as i64 <= 0x7fff_ffff,
        ;
    }
    let xx: u64 = ((x as i64) * (x as i64)) as u64;
    let yy: u64 = ((y as i64) * (y as i64)) as u64;
    let m: u64 = isqrt(xx + yy);
    proof {
        assert(m * m <= xx + yy && xx + yy < (m + 1) * (m + 1)) by {
            crate::math::lemma_sqrt_floor_bounds((xx + yy) as nat);
        };
        assert(m < 0x1_0000_0000) by (nonlinear_arith)
            requires
                m * m <= 0x8000_0000_0000_0000,
        ;
    }
    if m <= threshold as u64 {
        (0, 0)
    } else {
        let vx: i32 = remap_component(x, m, threshold);
        let vy: i32 = remap_component(y, m, threshold);
        (vx, vy)
    }
}

/// Scale one component for a magnitude already known to exceed the
/// threshold.
fn remap_component(x: i32, m: u64, threshold: i32) -> (r: i32)
    requires
        0 <= threshold < UNIT,
        threshold < m < 0x1_0000_0000,
    ensures
        ({
            let mag = (vstd::math::abs(x as int) * (m - threshold) * (UNIT as int)) / (((
            UNIT as int) - threshold) * (m as int));
            r == if x >= 0 {
                clamp_value(mag)
            } else {
                clamp_value(-mag)
            }
        }),
{
    let xa: u64 = if x >= 0 {
        x as u64
    } else {
        (-(x as i64)) as u64
    };
    let diff: u64 = m - threshold as u64;
    proof {
        assert(xa <= 0x8000_0000);
        assert(xa as int == vstd::math::abs(x as int));
        assert((xa as u128) * (diff as u128) <= 0x8000_0000u128 * 0x1_0000_0000u128)
            by (nonlinear_arith)
            requires
                xa <= 0x8000_0000u64,
                diff <= 0x1_0000_0000u64,
        ;
        assert((xa as u128) * (diff as u128) * (UNIT as u128) <= 0x8000_0000u128
            * 0x1_0000_0000u128 * 0x10_0000u128) by (nonlinear_arith)
            requires
                (xa as u128) * (diff as u128) <= 0x8000_0000u128 * 0x1_0000_0000u128,
                0 < UNIT as u128 <= 0x10_0000u128,
        ;
    }
    let num: u128 = (xa as u128) * (diff as u128) * (UNIT as u128);
    proof {
        assert(((UNIT - threshold) as u128) * (m as u128) <= 0x10_0000u128 * 0x1_0000_0000u128)
            by (nonlinear_arith)
            requires
                0 < (UNIT - threshold) as u128 <= 0x10_0000u128,
                m < 0x1_0000_0000u64,
        ;
    }
    let den: u128 = ((UNIT - threshold) as u128) * (m as u128);
    proof {
        assert(num == vstd::math::abs(x as int) * ((m - threshold) as int) * (UNIT as int))
            by (nonlinear_arith)
            requires
                num == (xa as u128) * (diff as u128) * (UNIT as u128),
                xa as int == vstd::math::abs(x as int),
                diff == m - threshold,
                m > threshold >= 0,
                m < 0x1_0000_0000u64,
                xa <= 0x8000_0000u64,
                UNIT == 1_000_000i32,
        ;
        assert(den > 0) by (nonlinear_arith)
            requires
                den == ((UNIT - threshold) as u128) * (m as u128),
                (UNIT - threshold) as u128 > 0,
                m > 0,
        ;
    }
    let q: u128 = num / den;
    if x >= 0 {
        if q > i32::MAX as u128 {
            i32::MAX
        } else {
            q as i32
        }
    } else {
        if q > 2_147_483_648u128 {
            i32::MIN
        } else {
            (-(q as i64)) as i32
        }
    }
}

/// The paired component of the changed axis: stick X pairs with stick Y of
/// the same stick; every other axis is unpaired and pairs with zero.
pub open spec fn spec_paired(pad: Gamepad, axis: Axis) -> int {
    match axis {
        Axis::LeftStickY => pad.spec_value(Axis::LeftStickX) as int,
        Axis::LeftStickX => pad.spec_value(Axis::LeftStickY) as int,
        Axis::RightStickY => pad.spec_value(Axis::RightStickX) as int,
        Axis::RightStickX => pad.spec_value(Axis::RightStickY) as int,
        _ => 0,
    }
}

/// A deadzone stage asks that an axis event come from a known device and
/// carry an axis code the device recognizes, with a sane threshold; an
/// unrecognized code is a producer bug, not a runtime condition. Both hold
/// whenever the snapshot is well formed and the backend produced the event.
pub open spec fn deadzone_pre(ev: Option<Event>, st: StateView) -> bool {
    match ev {
        Some(e) => match e.event {
            EventType::AxisChanged(_axis, _val, nec) => {
                &&& e.id < st.pads@.len()
                &&& match st.pads@[e.id as int].spec_deadzone(nec) {
                    Some(t) => 0 <= t < UNIT,
                    None => false,
                }
            },
            _ => true,
        },
        None => true,
    }
}

/// Exact output of the deadzone stage: the remapped value of the changed
/// axis, as an axis event when it differs from the device's stored value
/// for that code, as `Dropped` when it does not; non-axis events and
/// absence pass through unchanged.
pub open spec fn deadzone_spec(ev: Option<Event>, st: StateView) -> Option<Event> {
    match ev {
        Some(e) => match e.event {
            EventType::AxisChanged(axis, val, nec) => {
                if e.id < st.pads@.len() {
                    let pad = st.pads@[e.id as int];
                    match pad.spec_deadzone(nec) {
                        Some(t) => {
                            let v = spec_remap(val as int, spec_paired(pad, axis), t as int);
                            if pad.spec_state_value(nec) == v {
                                Some(e.spec_dropped())
                            } else {
                                Some(
                                    Event {
                                        id: e.id,
                                        time: e.time,
                                        event: EventType::AxisChanged(axis, v as i32, nec),
                                    },
                                )
                            }
                        },
                        None => ev,
                    }
                } else {
                    ev
                }
            },
            _ => ev,
        },
        None => None,
    }
}

/// Drops events in the dead zone and remaps values to keep them in the
/// standard range.
pub fn deadzone(ev: Option<Event>, st: &StateView) -> (r: Option<Event>)
    requires
        deadzone_pre(ev, *st),
    ensures
        r == deadzone_spec(ev, *st),
{
    match ev {
        Some(e) => match e.event {
            EventType::AxisChanged(axis, val, nec) => {
                let pad = st.gamepad(e.id);
                let threshold = match pad.deadzone(nec) {
                    Some(t) => t,
                    None => unreached(),  // an unrecognized axis code is a producer bug
                };
                let paired: i32 = match axis {
                    Axis::LeftStickY => pad.value(Axis::LeftStickX),
                    Axis::LeftStickX => pad.value(Axis::LeftStickY),
                    Axis::RightStickY => pad.value(Axis::RightStickX),
                    Axis::RightStickX => pad.value(Axis::RightStickY),
                    _ => 0,
                };
                let v = apply_deadzone(val, paired, threshold).0;
                if pad.state_value(nec) == v {
                    Some(e.dropped())
                } else {
                    Some(Event { id: e.id, time: e.time, event: EventType::AxisChanged(axis, v, nec) })
                }
            },
            _ => ev,
        },
        None => None,
    }
}

/// The deadzone stage, for use in a chain.
///
/// It has no configuration of its own: the threshold comes from the device,
/// per axis.
#[derive(Clone, Copy, Debug, PartialEq, Eq, Structural)]
pub struct Deadzone;

impl FilterFn for Deadzone {
    open spec fn spec_pre(&self, ev: Option<Event>, st: StateView) -> bool {
        deadzone_pre(ev, st)
    }

    open spec fn spec_filter(&self, ev: Option<Event>, st: StateView) -> Option<Event> {
        deadzone_spec(ev, st)
    }

    proof fn presence_preserved(&self, ev: Option<Event>, st: StateView) {
    }

    fn filter(&self, ev: Option<Event>, st: &StateView) -> (r: Option<Event>) {
        deadzone(ev, st)
    }
}

/// Inside the dead zone the remapped value is exactly zero: whenever the
/// magnitude of `(x, y)` is at most the threshold, the output component is
/// `0`.
pub proof fn lemma_remap_zero_within_threshold(x: int, y: int, t: int)
    requires
        spec_magnitude(x, y) <= t,
    ensures
        spec_remap(x, y, t) == 0,
{
}

/// Outside the dead zone, an unpaired component's output magnitude is
/// exactly `(m - t) / (1 - t)` of full deflection, rounded down in
/// millionths, where `m` is the input magnitude; the direction is
/// preserved.
pub proof fn lemma_remap_magnitude_unpaired(x: int, t: int)
    requires
        0 <= t < UNIT,
        t < vstd::math::abs(x) <= UNIT,
    ensures
        spec_magnitude(x, 0) == vstd::math::abs(x),
        vstd::math::abs(spec_remap(x, 0, t)) == ((vstd::math::abs(x) - t) * (UNIT as int)) / ((
        UNIT as int) - t),
        x > 0 ==> spec_remap(x, 0, t) > 0,
        x < 0 ==> spec_remap(x, 0, t) < 0,
{
    let a = vstd::math::abs(x) as int;
    assert(x * x + 0 * 0 == a * a && a * a < (a + 1) * (a + 1)) by (nonlinear_arith)
        requires
            a == vstd::math::abs(x),
    ;
    lemma_sqrt_floor_unique((x * x + 0 * 0) as nat, a as nat);
    let m = spec_magnitude(x, 0);
    assert(m == a);
    let num = (m - t) * (UNIT as int);
    let den = (UNIT as int) - t;
    assert(a * (m - t) * (UNIT as int) == a * num) by (nonlinear_arith)
        requires
            num == (m - t) * (UNIT as int),
    ;
    assert(((UNIT as int) - t) * m == a * den) by (nonlinear_arith)
        requires
            m == a,
            den == (UNIT as int) - t,
    ;
    lemma_div_multiples_vanish_quotient(a, num, den);
    let mag = (a * (m - t) * (UNIT as int)) / (((UNIT as int) - t) * m);
    assert(mag == num / den);
    assert(num / den >= 0) by {
        assert(num >= 0) by (nonlinear_arith)
            requires
                num == (m - t) * (UNIT as int),
                m >= t,
        ;
        vstd::arithmetic::div_mod::lemma_div_pos_is_pos(num, den);
    };
    assert(num / den <= UNIT) by {
        assert(num <= den * (UNIT as int)) by (nonlinear_arith)
            requires
                num == (m - t) * (UNIT as int),
                den == (UNIT as int) - t,
                t >= 0,
                m <= UNIT,
        ;
        vstd::arithmetic::div_mod::lemma_div_is_ordered(num, den * (UNIT as int), den);
        vstd::arithmetic::div_mod::lemma_div_multiples_vanish(UNIT as int, den);
    };
    assert(num / den > 0) by {
        assert(num >= den) by (nonlinear_arith)
            requires
                num == (m - t) * (UNIT as int),
                den == (UNIT as int) - t,
                m - t >= 1,
                (UNIT as int) >= den,
                den > 0,
        ;
        vstd::arithmetic::div_mod::lemma_div_is_ordered(den, num, den);
        vstd::arithmetic::div_mod::lemma_div_by_self(den);
    };
    assert(spec_remap(x, 0, t) == if x >= 0 { mag } else { -mag });
}

/// Re-applying the deadzone to a value whose remap the device state already
/// stores yields `Dropped`: once the consumer has recorded the remapped
/// value of an axis event, the same raw event remaps to the stored value
/// and is suppressed.
pub proof fn lemma_deadzone_second_application_dropped(e: Event, st: StateView)
    requires
        deadzone_pre(Some(e), st),
        e.event matches EventType::AxisChanged(axis, val, nec) && st.pads@[e.id as int].spec_state_value(
            nec,
        ) == spec_remap(
            val as int,
            spec_paired(st.pads@[e.id as int], axis),
            st.pads@[e.id as int].spec_deadzone(nec).unwrap() as int,
        ),
    ensures
        deadzone_spec(Some(e), st) == Some(e.spec_dropped()),
{
}

} // verus!
