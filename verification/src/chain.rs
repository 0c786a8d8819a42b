//! The filter composition protocol.
//!
//! A filter is a pure function from an optional event plus a read-only state
//! snapshot to the next optional event. Filters chain by repeated
//! application, in whatever order the caller picks. The one structural
//! invariant every stage must uphold: a present event never becomes absence.
//! Suppression is expressed by `EventType::Dropped`, never by `None`.

use vstd::prelude::*;

use crate::events::Event;
use crate::state::StateView;

verus! {

/// One filter stage.
///
/// An implementation gives its exact behaviour as the spec function
/// `spec_filter`, states what it asks of its input as `spec_pre`, and must
/// prove `presence_preserved`: on any admissible present input the output
/// is present too. Custom filters plug into a chain by implementing this
/// trait; the proof obligation replaces the development-time assertion a
/// chain would otherwise need.
pub trait FilterFn {
    /// What this stage asks of its input; a violation is a producer bug,
    /// not a runtime condition.
    spec fn spec_pre(&self, ev: Option<Event>, st: StateView) -> bool;

    /// The exact output of this stage.
    spec fn spec_filter(&self, ev: Option<Event>, st: StateView) -> Option<Event>;

    /// The chain's structural law: no stage turns a present event into
    /// absence.
    proof fn presence_preserved(&self, ev: Option<Event>, st: StateView)
        requires
            self.spec_pre(ev, st),
            ev is Some,
        ensures
            self.spec_filter(ev, st) is Some,
    ;

    /// Run this stage on one optional event.
    fn filter(&self, ev: Option<Event>, st: &StateView) -> (r: Option<Event>)
        requires
            self.spec_pre(ev, *st),
        ensures
            r == self.spec_filter(ev, *st),
    ;
}

/// Feed a value into one filter stage.
///
/// Implemented for `Option<Event>` and for `Event`, so chains read
/// left-to-right: `ev.filter_ev(&jitter, &st).filter_ev(&deadzone, &st)`.
pub trait Filter: Sized {
    /// The optional event this value feeds into the chain.
    spec fn spec_ev(self) -> Option<Event>;

    /// Apply one filter stage; a present input yields a present output.
    fn filter_ev<F: FilterFn>(&self, filter: &F, st: &StateView) -> (r: Option<Event>)
        requires
            filter.spec_pre(self.spec_ev(), *st),
        ensures
            r == filter.spec_filter(self.spec_ev(), *st),
            self.spec_ev() is Some ==> r is Some,
    ;
}

/// The chain invariant end to end: two stages applied in sequence never
/// turn a present event into absence, whatever the stages are.
pub proof fn lemma_chain_preserves_presence<A: FilterFn, B: FilterFn>(
    a: &A,
    b: &B,
    ev: Option<Event>,
    st: StateView,
)
    requires
        a.spec_pre(ev, st),
        b.spec_pre(a.spec_filter(ev, st), st),
        ev is Some,
    ensures
        b.spec_filter(a.spec_filter(ev, st), st) is Some,
{
    a.presence_preserved(ev, st);
    b.presence_preserved(a.spec_filter(ev, st), st);
}

impl Filter for Option<Event> {
    open spec fn spec_ev(self) -> Option<Event> {
        self
    }

    fn filter_ev<F: FilterFn>(&self, filter: &F, st: &StateView) -> (r: Option<Event>) {
        let e = filter.filter(*self, st);
        proof {
            if self is Some {
                filter.presence_preserved(*self, *st);
            }
        }
        e
    }
}

impl Filter for Event {
    open spec fn spec_ev(self) -> Option<Event> {
        Some(self)
    }

    fn filter_ev<F: FilterFn>(&self, filter: &F, st: &StateView) -> (r: Option<Event>) {
        let e = filter.filter(Some(*self), st);
        proof {
            filter.presence_preserved(Some(*self), *st);
        }
        e
    }
}

} // verus!
