//! The way of one event through the ancestors of its target: down from the
//! root in the capture phase, then the target itself, then up again in the
//! bubble phase.

use crate::events::Phase;
use vstd::prelude::*;

verus! {

/// One stop of an event: an object on its way and the phase in which the
/// object is reached.
#[derive(Clone, Copy, Debug)]
pub struct Visit {
    /// How far the object is from the target: 0 is the target itself, 1 its
    /// parent, and so on up to the root.
    pub depth: usize,
    /// The phase in which the object is reached.
    pub phase: Phase,
}

/// The stop with the given number on the way of an event whose target has
/// `ancestors` ancestors.
pub open spec fn stop_at(ancestors: nat, i: int) -> Visit {
    if i < ancestors {
        Visit { depth: (ancestors - i) as usize, phase: Phase::Capture }
    } else if i == ancestors {
        Visit { depth: 0, phase: Phase::AtTarget }
    } else {
        Visit { depth: (i - ancestors) as usize, phase: Phase::Bubble }
    }
}

/// The whole way of an event whose target has `ancestors` ancestors: the
/// ancestors from the root down, the target, the ancestors from the parent up.
pub open spec fn route(ancestors: nat) -> Seq<Visit> {
    Seq::new(2 * ancestors + 1, |i: int| stop_at(ancestors, i))
}

/// The rank of a phase in the order in which the phases come.
pub open spec fn phase_rank(phase: Phase) -> int {
    match phase {
        Phase::Capture => 0,
        Phase::AtTarget => 1,
        Phase::Bubble => 2,
    }
}

/// Each phase is over before the next begins; the capture phase goes from
/// the root towards the target and the bubble phase from the target towards
/// the root; the target is visited once, between the two.
pub proof fn lemma_route_in_phase_order(ancestors: nat, i: int, j: int)
    requires
        ancestors <= usize::MAX,
        0 <= i < j < route(ancestors).len(),
    ensures
        phase_rank(route(ancestors)[i].phase) <= phase_rank(route(ancestors)[j].phase),
        route(ancestors)[i].phase == Phase::Capture && route(ancestors)[j].phase == Phase::Capture
            ==> route(ancestors)[i].depth > route(ancestors)[j].depth,
        route(ancestors)[i].phase == Phase::Bubble && route(ancestors)[j].phase == Phase::Bubble
            ==> route(ancestors)[i].depth < route(ancestors)[j].depth,
        route(ancestors)[i].phase != Phase::AtTarget || route(ancestors)[j].phase
            != Phase::AtTarget,
        (route(ancestors)[i].depth == 0) == (route(ancestors)[i].phase == Phase::AtTarget),
        route(ancestors)[i].depth <= ancestors,
{
}

/// How far an event has come on its way.
#[derive(Clone, Copy, Debug)]
pub struct Propagation {
    ancestors: usize,
    phase: Phase,
    depth: usize,
    finished: bool,
    stopped: bool,
}

impl Propagation {
    #[verifier::type_invariant]
    spec fn on_route(&self) -> bool {
        match self.phase {
            Phase::Capture => 1 <= self.depth <= self.ancestors,
            Phase::AtTarget => self.depth == 0,
            Phase::Bubble => 1 <= self.depth <= self.ancestors,
        }
    }

    /// The number of ancestors of the event's target.
    pub closed spec fn ancestors(&self) -> nat {
        self.ancestors as nat
    }

    /// The number of stops made so far.
    pub closed spec fn visited(&self) -> int {
        if self.finished {
            2 * self.ancestors + 1
        } else {
            match self.phase {
                Phase::Capture => self.ancestors - self.depth,
                Phase::AtTarget => self.ancestors as int,
                Phase::Bubble => self.ancestors + self.depth,
            }
        }
    }

    /// Whether a listener has asked that the event go no further.
    pub closed spec fn is_stopped(&self) -> bool {
        self.stopped
    }

    /// Whether the event makes no further stop: it was stopped, or it has
    /// gone its whole way.
    pub open spec fn over(&self) -> bool {
        self.is_stopped() || self.visited() == route(self.ancestors()).len()
    }

    /// The start of the way of an event whose target has `ancestors`
    /// ancestors.
    pub fn new(ancestors: usize) -> (way: Propagation)
        ensures
            way.ancestors() == ancestors,
            way.visited() == 0,
            !way.is_stopped(),
    {
        let phase = if ancestors == 0 {
            Phase::AtTarget
        } else {
            Phase::Capture
        };
        Propagation { ancestors, phase, depth: ancestors, finished: false, stopped: false }
    }

    /// Asks that the event go no further. Calls that were handed out already
    /// are not taken back; no object is visited after the current one.
    pub fn stop(&mut self)
        ensures
            final(self).is_stopped(),
            final(self).ancestors() == old(self).ancestors(),
            final(self).visited() == old(self).visited(),
    {
        proof {
            use_type_invariant(&*self);
        }
        self.stopped = true;
    }

    /// Whether the event has been stopped.
    pub fn stopped(&self) -> (stopped: bool)
        ensures
            stopped == self.is_stopped(),
    {
        self.stopped
    }

    /// Whether the event makes no further stop: it was stopped, or it has
    /// gone its whole way.
    pub fn is_over(&self) -> (over: bool)
        ensures
            0 <= self.visited() <= route(self.ancestors()).len(),
            over == (self.is_stopped() || self.visited() == route(self.ancestors()).len()),
    {
        proof {
            use_type_invariant(self);
        }
        self.stopped || self.finished
    }

    /// The stop that the event makes next, without making it: `None` when
    /// the event was stopped or has gone its whole way.
    pub fn peek(&self) -> (visit: Option<Visit>)
        ensures
            0 <= self.visited() <= route(self.ancestors()).len(),
            visit == if self.over() {
                None
            } else {
                Some(route(self.ancestors())[self.visited()])
            },
    {
        proof {
            use_type_invariant(self);
        }
        if self.stopped || self.finished {
            None
        } else {
            Some(Visit { depth: self.depth, phase: self.phase })
        }
    }

    /// The next stop of the event, or `None` when the event was stopped or
    /// has gone its whole way.
    pub fn next(&mut self) -> (visit: Option<Visit>)
        ensures
            final(self).ancestors() == old(self).ancestors(),
            final(self).is_stopped() == old(self).is_stopped(),
            0 <= old(self).visited() <= route(old(self).ancestors()).len(),
            old(self).is_stopped() || old(self).visited() == route(old(self).ancestors()).len()
                ==> visit.is_none() && final(self).visited() == old(self).visited(),
            !old(self).is_stopped() && old(self).visited() < route(old(self).ancestors()).len()
                ==> visit == Some(route(old(self).ancestors())[old(self).visited()])
                && final(self).visited() == old(self).visited() + 1,
    {
        proof {
            use_type_invariant(&*self);
        }
        if self.stopped || self.finished {
            return None;
        }
        let visit = Visit { depth: self.depth, phase: self.phase };
        let ancestors = self.ancestors;
        let (phase, depth, finished): (Phase, usize, bool) = match self.phase {
            Phase::Capture => if self.depth > 1 {
                (Phase::Capture, self.depth - 1, false)
            } else {
                (Phase::AtTarget, 0, false)
            },
            Phase::AtTarget => if ancestors >= 1 {
                (Phase::Bubble, 1, false)
            } else {
                (Phase::AtTarget, 0, true)
            },
            Phase::Bubble => if self.depth < ancestors {
                (Phase::Bubble, self.depth + 1, false)
            } else {
                (Phase::Bubble, self.depth, true)
            },
        };
        *self = Propagation { ancestors, phase, depth, finished, stopped: false };
        Some(visit)
    }
}

} // verus!
