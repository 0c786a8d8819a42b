//! Synthetic repeat events for held buttons.
//!
//! Unlike the other stages this one acts only on absence: when the
//! upstream stages produced nothing this step, it scans the devices for a
//! held button whose hold has lasted long enough and synthesizes a
//! `ButtonRepeated` event for the first one found. The synthesized
//! timestamp is the button's last-transition instant plus the matched
//! interval — not the current time — so the consumer re-anchors the repeat
//! cadence exactly.

use vstd::prelude::*;

use crate::chain::FilterFn;
use crate::events::Event;
use crate::events::EventType;
use crate::state::ButtonEntry;
use crate::state::Gamepad;
use crate::state::StateView;

verus! {

broadcast use vstd::seq_lib::group_seq_properties;

/// Repeats pressed keys.
///
/// `after` is the hold time before the first repeat, `every` the interval
/// between subsequent ones, both in the timestamp's own ticks.
#[derive(Clone, Copy, Debug, PartialEq, Eq, Structural)]
pub struct Repeat {
    /// Hold time before the first repeat.
    pub after: u64,
    /// Interval between subsequent repeats.
    pub every: u64,
}

impl Repeat {
    /// A repeat filter with `after` set to 500ms and `every` set to 30ms,
    /// for timestamps counted in nanoseconds.
    pub fn new() -> (r: Self)
        ensures
            r.after == 500_000_000,
            r.every == 30_000_000,
    {
        Repeat { after: 500_000_000, every: 30_000_000 }
    }
}

/// The instant a repeat synthesized for button `b` at instant `now` would
/// carry, or `None` when `b` does not qualify: a hold qualifies once it
/// has lasted `after` without repeats so far, or `every` with them. A
/// timestamp in the future (the clock moved backward) never qualifies.
pub open spec fn spec_button_hit(b: ButtonEntry, now: u64, after: u64, every: u64) -> Option<
    int,
> {
    if b.pressed && !b.repeating && b.timestamp + after <= now {
        Some(b.timestamp + after)
    } else if b.pressed && b.repeating && b.timestamp + every <= now {
        Some(b.timestamp + every)
    } else {
        None
    }
}

/// First qualifying button in `bs`, as its native code and the instant the
/// synthesized event carries.
pub open spec fn spec_scan_buttons(bs: Seq<ButtonEntry>, now: u64, after: u64, every: u64) -> Option<
    (u16, int),
>
    decreases bs.len(),
{
    if bs.len() == 0 {
        None
    } else {
        match spec_button_hit(bs[0], now, after, every) {
            Some(t) => Some((bs[0].nec, t)),
            None => spec_scan_buttons(bs.skip(1), now, after, every),
        }
    }
}

/// First qualifying button over all devices, in device then button
/// enumeration order; `base` is the id of the first device of `pads`.
pub open spec fn spec_scan_pads(
    pads: Seq<Gamepad>,
    base: int,
    now: u64,
    after: u64,
    every: u64,
) -> Option<Event>
    decreases pads.len(),
{
    if pads.len() == 0 {
        None
    } else {
        match spec_scan_buttons(pads[0].buttons@, now, after, every) {
            Some((nec, t)) => Some(
                Event {
                    id: base as usize,
                    time: t as u64,
                    event: EventType::ButtonRepeated(pads[0].spec_button_name(nec), nec),
                },
            ),
            None => spec_scan_pads(pads.skip(1), base + 1, now, after, every),
        }
    }
}

/// Exact output of the repeat stage: a present event passes through
/// unchanged; on absence, the first qualifying held button yields a
/// `ButtonRepeated` event, and absence stays absence when none qualifies.
pub open spec fn repeat_spec(after: u64, every: u64, ev: Option<Event>, st: StateView) -> Option<
    Event,
> {
    match ev {
        Some(e) => Some(e),
        None => spec_scan_pads(st.pads@, 0, st.now, after, every),
    }
}

impl FilterFn for Repeat {
    open spec fn spec_pre(&self, ev: Option<Event>, st: StateView) -> bool {
        true
    }

    open spec fn spec_filter(&self, ev: Option<Event>, st: StateView) -> Option<Event> {
        repeat_spec(self.after, self.every, ev, st)
    }

    proof fn presence_preserved(&self, ev: Option<Event>, st: StateView) {
    }

    fn filter(&self, ev: Option<Event>, st: &StateView) -> (r: Option<Event>) {
        match ev {
            Some(e) => Some(e),
            None => {
                let now = st.now;
                let mut i: usize = 0;
                while i < st.pads.len()
                    invariant
                        ev is None,
                        i <= st.pads@.len(),
                        now == st.now,
                        spec_scan_pads(st.pads@, 0, now, self.after, self.every)
                            == spec_scan_pads(
                            st.pads@.skip(i as int),
                            i as int,
                            now,
                            self.after,
                            self.every,
                        ),
                    decreases st.pads@.len() - i,
                {
                    let pad = &st.pads[i];
                    let mut j: usize = 0;
                    while j < pad.buttons.len()
                        invariant
                            ev is None,
                            i < st.pads@.len(),
                            j <= pad.buttons@.len(),
                            now == st.now,
                            *pad == st.pads@[i as int],
                            spec_scan_pads(st.pads@, 0, now, self.after, self.every)
                                == spec_scan_pads(
                                st.pads@.skip(i as int),
                                i as int,
                                now,
                                self.after,
                                self.every,
                            ),
                            spec_scan_buttons(pad.buttons@, now, self.after, self.every)
                                == spec_scan_buttons(
                                pad.buttons@.skip(j as int),
                                now,
                                self.after,
                                self.every,
                            ),
                        decreases pad.buttons@.len() - j,
                    {
                        let b = &pad.buttons[j];
                        if b.pressed && !b.repeating && now >= b.timestamp && now - b.timestamp
                            >= self.after {
                            let name = pad.button_name(b.nec);
                            proof {
                                assert(pad.buttons@.skip(j as int)[0] == pad.buttons@[j as int]);
                                assert(spec_scan_buttons(pad.buttons@, now, self.after, self.every)
                                    == Some((b.nec, b.timestamp + self.after as int)));
                                assert(st.pads@.skip(i as int)[0] == st.pads@[i as int]);
                            }
                            return Some(
                                Event {
                                    id: i,
                                    time: b.timestamp + self.after,
                                    event: EventType::ButtonRepeated(name, b.nec),
                                },
                            );
                        }
                        if b.pressed && b.repeating && now >= b.timestamp && now - b.timestamp
                            >= self.every {
                            let name = pad.button_name(b.nec);
                            proof {
                                assert(pad.buttons@.skip(j as int)[0] == pad.buttons@[j as int]);
                                assert(spec_scan_buttons(pad.buttons@, now, self.after, self.every)
                                    == Some((b.nec, b.timestamp + self.every as int)));
                                assert(st.pads@.skip(i as int)[0] == st.pads@[i as int]);
                            }
                            return Some(
                                Event {
                                    id: i,
                                    time: b.timestamp + self.every,
                                    event: EventType::ButtonRepeated(name, b.nec),
                                },
                            );
                        }
                        proof {
                            assert(spec_button_hit(
                                pad.buttons@.skip(j as int)[0],
                                now,
                                self.after,
                                self.every,
                            ) is None);
                            assert(pad.buttons@.skip(j as int).skip(1) =~= pad.buttons@.skip(
                                j as int + 1,
                            ));
                        }
                        j = j + 1;
                    }
                    proof {
                        assert(pad.buttons@.skip(j as int) =~= Seq::<ButtonEntry>::empty());
                        assert(spec_scan_buttons(pad.buttons@, now, self.after, self.every)
                            is None);
                        assert(st.pads@.skip(i as int).skip(1) =~= st.pads@.skip(i as int + 1));
                    }
                    i = i + 1;
                }
                proof {
                    assert(st.pads@.skip(i as int) =~= Seq::<Gamepad>::empty());
                }
                None
            },
        }
    }
}

} // verus!
