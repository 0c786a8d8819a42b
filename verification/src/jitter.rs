//! Suppression of sub-threshold analog axis noise.

use vstd::prelude::*;

use crate::chain::FilterFn;
use crate::events::Event;
use crate::events::EventType;
use crate::state::StateView;

verus! {

/// Discard axis events that changed less than `threshold`.
///
/// Pure: the output depends only on the event and the state snapshot.
#[derive(Clone, Copy, Debug, PartialEq, Eq, Structural)]
pub struct Jitter {
    /// Smallest change of an axis value that counts as real movement, in
    /// millionths of a unit.
    pub threshold: i32,
}

/// A jitter stage only needs the originating device to exist when it sees
/// an axis event.
pub open spec fn jitter_pre(ev: Option<Event>, st: StateView) -> bool {
    match ev {
        Some(e) => e.event matches EventType::AxisChanged(..) ==> e.id < st.pads@.len(),
        None => true,
    }
}

/// Exact output of the jitter stage: an axis event whose value moved less
/// than `threshold` away from the device's last recorded value for that
/// axis becomes `Dropped`; everything else passes through unchanged.
pub open spec fn jitter_spec(threshold: i32, ev: Option<Event>, st: StateView) -> Option<Event> {
    match ev {
        Some(e) => match e.event {
            EventType::AxisChanged(_axis, val, nec) => {
                if e.id < st.pads@.len() {
                    match st.pads@[e.id as int].spec_axis_data(nec) {
                        Some(old) => {
                            if vstd::math::abs(val - old) < threshold {
                                Some(e.spec_dropped())
                            } else {
                                ev
                            }
                        },
                        None => ev,
                    }
                } else {
                    ev
                }
            },
            _ => ev,
        },
        None => None,
    }
}

impl Jitter {
    /// A jitter filter with the threshold set to `0.01`.
    pub fn new() -> (r: Self)
        ensures
            r.threshold == 10_000,
    {
        Jitter { threshold: 10_000 }
    }
}

impl FilterFn for Jitter {
    open spec fn spec_pre(&self, ev: Option<Event>, st: StateView) -> bool {
        jitter_pre(ev, st)
    }

    open spec fn spec_filter(&self, ev: Option<Event>, st: StateView) -> Option<Event> {
        jitter_spec(self.threshold, ev, st)
    }

    proof fn presence_preserved(&self, ev: Option<Event>, st: StateView) {
    }

    fn filter(&self, ev: Option<Event>, st: &StateView) -> (r: Option<Event>) {
        match ev {
            Some(e) => match e.event {
                EventType::AxisChanged(_, val, nec) => {
                    match st.gamepad(e.id).axis_data(nec) {
                        Some(old) => {
                            let diff: i64 = val as i64 - old as i64;
                            let adiff: i64 = if diff < 0 {
                                -diff
                            } else {
                                diff
                            };
                            if adiff < self.threshold as i64 {
                                Some(e.dropped())
                            } else {
                                ev
                            }
                        },
                        None => ev,
                    }
                },
                _ => ev,
            },
            None => None,
        }
    }
}

} // verus!
