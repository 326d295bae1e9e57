//! The event-target machinery: listeners are attached to an object through
//! its dispatch list, and an event is taken through the ancestors of its
//! target one call at a time.
//!
//! The library decides which callback is called next; whoever runs the
//! dispatch calls it and reports how the call ended.

use crate::arena::{borrowed_list, borrowed_list_mut};
use crate::error::Error;
use crate::events::Phase;
use crate::invocation::{CallbackFailure, Invocation};
use crate::object::{Object, TObject};
use crate::propagation::{route, Propagation, Visit};
use gc_arena::Mutation;
use vstd::prelude::*;

verus! {

/// Registers `callback` on `target` for `event_type`. An object that holds
/// no dispatch list takes no listeners.
pub fn add_event_listener<'gc>(
    target: Object<'gc>,
    mc: &Mutation<'gc>,
    event_type: &str,
    callback: u64,
    use_capture: bool,
    priority: i32,
    once: bool,
) -> (done: Result<(), Error>)
    ensures
        !target.holds_dispatch_list() ==> done == Err::<(), Error>(Error::NotEventTarget),
        target.holds_dispatch_list() ==> done is Ok || done == Err::<(), Error>(
            Error::BorrowViolation,
        ),
{
    match target.as_dispatch_mut(mc) {
        None => Err(Error::NotEventTarget),
        Some(Err(e)) => Err(e),
        Some(Ok(mut view)) => {
            let list = borrowed_list_mut(&mut view);
            list.add_listener(event_type, callback, use_capture, priority, once);
            Ok(())
        },
    }
}

/// Removes the registration of `callback` on `target` for `event_type` in
/// the phase that `use_capture` names. An object that holds no dispatch list
/// takes no listeners.
pub fn remove_event_listener<'gc>(
    target: Object<'gc>,
    mc: &Mutation<'gc>,
    event_type: &str,
    callback: u64,
    use_capture: bool,
) -> (done: Result<(), Error>)
    ensures
        !target.holds_dispatch_list() ==> done == Err::<(), Error>(Error::NotEventTarget),
        target.holds_dispatch_list() ==> done is Ok || done == Err::<(), Error>(
            Error::BorrowViolation,
        ),
{
    match target.as_dispatch_mut(mc) {
        None => Err(Error::NotEventTarget),
        Some(Err(e)) => Err(e),
        Some(Ok(mut view)) => {
            let list = borrowed_list_mut(&mut view);
            list.remove_listener(event_type, callback, use_capture);
            Ok(())
        },
    }
}

/// Whether `target` has a listener for `event_type`. An object that holds no
/// dispatch list has none.
pub fn has_event_listener<'gc>(target: Object<'gc>, event_type: &str) -> (found: Result<
    bool,
    Error,
>)
    ensures
        !target.holds_dispatch_list() ==> found == Ok::<bool, Error>(false),
        target.holds_dispatch_list() ==> found is Ok || found == Err::<bool, Error>(
            Error::BorrowViolation,
        ),
{
    match target.as_dispatch() {
        None => Ok(false),
        Some(Err(e)) => Err(e),
        Some(Ok(view)) => Ok(borrowed_list(&view).has_listener(event_type)),
    }
}

/// Begins the round of calls that an event of `event_type` makes on `node`
/// in `phase`. The node's list is borrowed only while the round is set up:
/// the callbacks may change the list while they run. A node that holds no
/// dispatch list has nothing to call.
pub fn begin_round<'gc, E>(
    node: Object<'gc>,
    mc: &Mutation<'gc>,
    event_type: &str,
    phase: Phase,
) -> (round: Result<Invocation<E>, Error>)
    ensures
        round matches Ok(r) ==> r.called() == 0 && r.failures() == Seq::<
            CallbackFailure<E>,
        >::empty(),
        !node.holds_dispatch_list() ==> (round matches Ok(r) && r.snapshot() == Seq::<u64>::empty()),
        round matches Err(e) ==> e == Error::BorrowViolation,
{
    match node.as_dispatch_mut(mc) {
        None => Ok(Invocation::begin(Vec::new())),
        Some(Err(e)) => Err(e),
        Some(Ok(mut view)) => {
            let list = borrowed_list_mut(&mut view);
            Ok(list.invoke(event_type, phase))
        },
    }
}

/// The callback to call now, and where the event stands.
#[derive(Clone, Copy)]
pub struct Call<'gc> {
    /// The object whose listener is called.
    pub current_target: Object<'gc>,
    /// The phase that the event is in.
    pub phase: Phase,
    /// The callback to call.
    pub callback: u64,
}

/// What an event does with the round begun at its next stop.
#[derive(Clone, Copy)]
pub enum Entered<'gc> {
    /// The stop was made and the round has a callback: this is the call to
    /// make first.
    Call(Call<'gc>),
    /// The stop was made and its round is empty: there is nothing to call
    /// on this object.
    PassedOver,
    /// No stop was made: a call is still due, or the event is over.
    Refused,
}

/// One event on its way through the ancestors of its target.
pub struct EventDispatch<'gc, E> {
    event_type: String,
    target: Object<'gc>,
    ancestors: Vec<Object<'gc>>,
    way: Propagation,
    current: Visit,
    round: Option<Invocation<E>>,
    failures: Vec<CallbackFailure<E>>,
    rounds: Ghost<Seq<Seq<u64>>>,
}

/// The object at the given distance from `target`, whose ancestors are given
/// from its parent up to the root.
pub open spec fn node_at<'gc>(target: Object<'gc>, ancestors: Seq<Object<'gc>>, depth: int) -> Object<
    'gc,
> {
    if depth == 0 {
        target
    } else {
        ancestors[depth - 1]
    }
}

/// The failures kept from the rounds that are over, then those of the round
/// that is running.
pub open spec fn failures_with<E>(kept: Seq<CallbackFailure<E>>, round: Option<Invocation<E>>) -> Seq<
    CallbackFailure<E>,
> {
    match round {
        Some(running) => kept + running.failures(),
        None => kept,
    }
}

/// The callbacks of `round` that are still to be called, in calling order.
pub open spec fn callbacks_due<E>(round: Option<Invocation<E>>) -> Seq<u64> {
    match round {
        Some(running) => running.pending(),
        None => Seq::empty(),
    }
}

impl<'gc, E> EventDispatch<'gc, E> {
    #[verifier::type_invariant]
    spec fn on_chain(&self) -> bool {
        &&& self.ancestors@.len() == self.way.ancestors()
        &&& self.rounds@.len() == self.way.visited()
        &&& 0 <= self.way.visited() <= route(self.way.ancestors()).len()
        &&& self.round matches Some(running) ==> {
            &&& 1 <= self.way.visited()
            &&& self.current == route(self.way.ancestors())[self.way.visited() - 1]
            &&& self.rounds@[self.way.visited() - 1] == running.snapshot()
            &&& 0 <= running.called() <= running.snapshot().len()
        }
    }

    /// The type of the event.
    pub closed spec fn event_type(&self) -> Seq<char> {
        self.event_type@
    }

    /// The target of the event.
    pub closed spec fn target(&self) -> Object<'gc> {
        self.target
    }

    /// The ancestors of the target, from its parent up to the root.
    pub closed spec fn ancestors(&self) -> Seq<Object<'gc>> {
        self.ancestors@
    }

    /// The number of stops that the event has made.
    pub closed spec fn visited(&self) -> int {
        self.way.visited()
    }

    /// Whether a listener has asked that the event go no further.
    pub closed spec fn is_stopped(&self) -> bool {
        self.way.is_stopped()
    }

    /// The callbacks that were fixed at each stop made so far, in calling
    /// order: one round for each stop.
    pub closed spec fn rounds(&self) -> Seq<Seq<u64>> {
        self.rounds@
    }

    /// The callbacks of the round at the latest stop whose end has not been
    /// reported yet, in calling order.
    pub closed spec fn due(&self) -> Seq<u64> {
        callbacks_due(self.round)
    }

    /// The callback that is to be called now: the first that is due.
    pub open spec fn pending_call(&self) -> Option<u64> {
        if self.due().len() > 0 {
            Some(self.due()[0])
        } else {
            None
        }
    }

    /// The failures reported so far, in the order of the calls.
    pub closed spec fn failures(&self) -> Seq<CallbackFailure<E>> {
        failures_with(self.failures@, self.round)
    }

    /// The whole way of the event.
    pub open spec fn whole_way(&self) -> Seq<Visit> {
        route(self.ancestors().len())
    }

    /// Whether the event makes no further stop: it was stopped, or it has
    /// gone its whole way.
    pub open spec fn is_over(&self) -> bool {
        self.is_stopped() || self.visited() == self.whole_way().len()
    }

    /// The stop that the event made last.
    pub open spec fn latest_stop(&self) -> Visit
        recommends
            1 <= self.visited() <= self.whole_way().len(),
    {
        self.whole_way()[self.visited() - 1]
    }

    /// The call of `callback` at the stop that the event made last.
    pub open spec fn call_of(&self, callback: u64) -> Call<'gc>
        recommends
            1 <= self.visited() <= self.whole_way().len(),
    {
        Call {
            current_target: node_at(
                self.target(),
                self.ancestors(),
                self.latest_stop().depth as int,
            ),
            phase: self.latest_stop().phase,
            callback,
        }
    }

    /// Whether `self` is the same event as `other`, wherever the two stand
    /// on their way.
    pub open spec fn same_event(&self, other: &Self) -> bool {
        &&& self.event_type() == other.event_type()
        &&& self.target() == other.target()
        &&& self.ancestors() == other.ancestors()
    }

    /// Whether `self` stands where `other` stands: the same stops made with
    /// the same rounds, and the same callbacks due.
    pub open spec fn stands_as(&self, other: &Self) -> bool {
        &&& self.visited() == other.visited()
        &&& self.rounds() == other.rounds()
        &&& self.due() == other.due()
    }

    /// An event of `event_type` for `target`, whose ancestors are given from
    /// its parent up to the root.
    pub fn new(event_type: &str, target: Object<'gc>, ancestors: Vec<Object<'gc>>) -> (dispatch:
        EventDispatch<'gc, E>)
        ensures
            dispatch.event_type() == event_type@,
            dispatch.target() == target,
            dispatch.ancestors() == ancestors@,
            dispatch.visited() == 0,
            !dispatch.is_stopped(),
            dispatch.rounds() == Seq::<Seq<u64>>::empty(),
            dispatch.due() == Seq::<u64>::empty(),
            dispatch.failures() == Seq::<CallbackFailure<E>>::empty(),
    {
        let way = Propagation::new(ancestors.len());
        EventDispatch {
            event_type: String::from_str(event_type),
            target,
            ancestors,
            way,
            current: Visit { depth: 0, phase: Phase::AtTarget },
            round: None,
            failures: Vec::new(),
            rounds: Ghost(Seq::empty()),
        }
    }

    /// Takes the state out and leaves an event without ancestors behind.
    fn take(&mut self) -> (state: EventDispatch<'gc, E>)
        ensures
            state == *old(self),
    {
        let mut state = EventDispatch {
            event_type: String::new(),
            target: self.target,
            ancestors: Vec::new(),
            way: Propagation::new(0),
            current: Visit { depth: 0, phase: Phase::AtTarget },
            round: None,
            failures: Vec::new(),
            rounds: Ghost(Seq::empty()),
        };
        std::mem::swap(&mut state, self);
        state
    }

    /// Asks that the event go no further: the listeners of the object that
    /// it has reached are still called, no other object is visited.
    pub fn stop_propagation(&mut self)
        ensures
            final(self).is_stopped(),
            final(self).same_event(old(self)),
            final(self).stands_as(old(self)),
            final(self).failures() == old(self).failures(),
    {
        let state = self.take();
        proof {
            use_type_invariant(&state);
        }
        let EventDispatch {
            event_type,
            target,
            ancestors,
            mut way,
            current,
            round,
            failures,
            rounds,
        } = state;
        way.stop();
        *self = EventDispatch {
            event_type,
            target,
            ancestors,
            way,
            current,
            round,
            failures,
            rounds,
        };
    }

    /// The call that is to be made now, if one is due.
    pub fn due_call(&self) -> (call: Option<Call<'gc>>)
        ensures
            self.rounds().len() == self.visited(),
            0 <= self.visited() <= self.whole_way().len(),
            call == match self.pending_call() {
                Some(callback) => Some(self.call_of(callback)),
                None => None,
            },
            call is Some ==> 1 <= self.visited() && self.latest_stop().depth
                <= self.ancestors().len(),
    {
        proof {
            use_type_invariant(self);
        }
        match &self.round {
            Some(running) => match running.next_callback() {
                Some(callback) => {
                    assert(running.pending()[0] == callback);
                    let node = if self.current.depth == 0 {
                        self.target
                    } else {
                        self.ancestors[self.current.depth - 1]
                    };
                    Some(Call { current_target: node, phase: self.current.phase, callback })
                },
                None => None,
            },
            None => None,
        }
    }

    /// The object and the phase of the stop that the event makes next, or
    /// `None` when the event was stopped or has gone its whole way.
    pub fn next_stop(&self) -> (stop: Option<(Object<'gc>, Phase)>)
        ensures
            self.rounds().len() == self.visited(),
            0 <= self.visited() <= self.whole_way().len(),
            stop == if self.is_over() {
                None
            } else {
                Some(
                    (
                        node_at(
                            self.target(),
                            self.ancestors(),
                            self.whole_way()[self.visited()].depth as int,
                        ),
                        self.whole_way()[self.visited()].phase,
                    ),
                )
            },
    {
        proof {
            use_type_invariant(self);
        }
        match self.way.peek() {
            Some(visit) => {
                let node = if visit.depth == 0 {
                    self.target
                } else {
                    self.ancestors[visit.depth - 1]
                };
                Some((node, visit.phase))
            },
            None => None,
        }
    }

    /// Makes the next stop with the round that was begun on its object. The
    /// round is fixed from here on. Where the round has a callback, the
    /// first is handed out as the call to make; where it is empty, the
    /// object is passed over. Nothing is done while a call is still due or
    /// when the event is over.
    pub fn enter(&mut self, begun: Invocation<E>) -> (entered: Entered<'gc>)
        ensures
            final(self).same_event(old(self)),
            final(self).is_stopped() == old(self).is_stopped(),
            final(self).rounds().len() == final(self).visited(),
            old(self).due().len() > 0 || old(self).is_over() ==> {
                &&& entered is Refused
                &&& final(self).stands_as(old(self))
                &&& final(self).failures() == old(self).failures()
            },
            old(self).due().len() == 0 && !old(self).is_over() ==> {
                &&& final(self).visited() == old(self).visited() + 1
                &&& final(self).visited() <= old(self).whole_way().len()
                &&& final(self).rounds() == old(self).rounds().push(begun.snapshot())
                &&& final(self).due() == begun.pending()
                &&& final(self).failures() == old(self).failures() + begun.failures()
                &&& entered == if begun.pending().len() > 0 {
                    Entered::Call(final(self).call_of(begun.pending()[0]))
                } else {
                    Entered::PassedOver
                }
            },
    {
        let state = self.take();
        proof {
            use_type_invariant(&state);
        }
        let EventDispatch {
            event_type,
            target,
            ancestors,
            mut way,
            current,
            round,
            mut failures,
            rounds,
        } = state;
        let ghost kept = failures_with(failures@, round);
        let due_now = match &round {
            Some(running) => !running.is_finished(),
            None => false,
        };
        let next = way.peek();
        let visit = match next {
            Some(visit) => visit,
            None => {
                *self = EventDispatch {
                    event_type,
                    target,
                    ancestors,
                    way,
                    current,
                    round,
                    failures,
                    rounds,
                };
                return Entered::Refused;
            },
        };
        if due_now {
            *self = EventDispatch {
                event_type,
                target,
                ancestors,
                way,
                current,
                round,
                failures,
                rounds,
            };
            return Entered::Refused;
        }
        if let Some(finished) = round {
            let mut reported = finished.into_failures();
            failures.append(&mut reported);
        }
        assert(failures@ =~= kept);
        let stepped = way.next();
        let first = begun.next_callback();
        let node = if visit.depth == 0 {
            target
        } else {
            ancestors[visit.depth - 1]
        };
        let ghost fixed = rounds@.push(begun.snapshot());
        *self = EventDispatch {
            event_type,
            target,
            ancestors,
            way,
            current: visit,
            round: Some(begun),
            failures,
            rounds: Ghost(fixed),
        };
        match first {
            Some(callback) => {
                assert(begun.pending()[0] == callback);
                Entered::Call(Call { current_target: node, phase: visit.phase, callback })
            },
            None => Entered::PassedOver,
        }
    }

    /// Puts the event back to where it stood with `way` and `rounds`. The
    /// round at the latest stop is given up; its failures are kept.
    fn rewind(&mut self, way: Propagation, rounds: Ghost<Seq<Seq<u64>>>)
        requires
            way.ancestors() == old(self).ancestors().len(),
            rounds@.len() == way.visited(),
            0 <= way.visited() <= route(way.ancestors()).len(),
        ensures
            final(self).same_event(old(self)),
            final(self).is_stopped() == way.is_stopped(),
            final(self).visited() == way.visited(),
            final(self).rounds() == rounds@,
            final(self).due() == Seq::<u64>::empty(),
            final(self).failures() == old(self).failures(),
    {
        let state = self.take();
        proof {
            use_type_invariant(&state);
        }
        let EventDispatch {
            event_type,
            target,
            ancestors,
            way: _,
            current,
            round,
            mut failures,
            rounds: _,
        } = state;
        let ghost kept = failures_with(failures@, round);
        if let Some(finished) = round {
            let mut reported = finished.into_failures();
            failures.append(&mut reported);
        }
        assert(failures@ =~= kept);
        *self = EventDispatch {
            event_type,
            target,
            ancestors,
            way,
            current,
            round: None,
            failures,
            rounds,
        };
    }

    /// The next callback to call, or `None` when the event was stopped or
    /// has gone its whole way.
    ///
    /// A call whose end has not been reported is handed out again. Else the
    /// event goes on from stop to stop: at each stop a round is begun on the
    /// object, an empty round is passed over, and the first callback of the
    /// first round that has one is handed out. Where a list on the way
    /// cannot be borrowed, the event stays where it stood.
    pub fn next_call(&mut self, mc: &Mutation<'gc>) -> (call: Result<Option<Call<'gc>>, Error>)
        ensures
            final(self).same_event(old(self)),
            final(self).is_stopped() == old(self).is_stopped(),
            final(self).failures() == old(self).failures(),
            final(self).rounds().len() == final(self).visited(),
            old(self).visited() <= final(self).visited() <= old(self).whole_way().len(),
            final(self).rounds().subrange(0, old(self).visited()) == old(self).rounds(),
            old(self).due().len() > 0 ==> final(self).stands_as(old(self)) && call == Ok::<
                Option<Call<'gc>>,
                Error,
            >(Some(old(self).call_of(old(self).due()[0]))),
            call matches Ok(Some(c)) ==> {
                &&& final(self).due().len() > 0
                &&& c == final(self).call_of(final(self).due()[0])
                &&& old(self).due().len() == 0 ==> final(self).visited() > old(self).visited()
                    && final(self).due() == final(self).rounds()[final(self).visited() - 1]
                &&& forall|k: int|
                    old(self).visited() <= k < final(self).visited() - 1 ==> (
                    #[trigger] final(self).rounds()[k]).len() == 0
            },
            call matches Ok(None) ==> {
                &&& final(self).due().len() == 0
                &&& final(self).is_over()
                &&& forall|k: int|
                    old(self).visited() <= k < final(self).visited() ==> (
                    #[trigger] final(self).rounds()[k]).len() == 0
            },
            call matches Err(e) ==> {
                &&& e == Error::BorrowViolation
                &&& final(self).visited() == old(self).visited()
                &&& final(self).rounds() == old(self).rounds()
                &&& final(self).due().len() == 0
                &&& !old(self).is_over()
            },
    {
        proof {
            use_type_invariant(&*self);
        }
        let start = self.way;
        let ghost start_rounds = self.rounds@;
        if let Some(call) = self.due_call() {
            assert(self.rounds().subrange(0, self.visited()) =~= self.rounds());
            return Ok(Some(call));
        }
        assert(self.rounds().subrange(0, self.visited()) =~= self.rounds());
        loop
            invariant
                self.same_event(old(self)),
                self.is_stopped() == old(self).is_stopped(),
                self.failures() == old(self).failures(),
                self.rounds().len() == self.visited(),
                old(self).visited() <= self.visited() <= old(self).whole_way().len(),
                self.rounds().subrange(0, old(self).visited()) == old(self).rounds(),
                old(self).due().len() == 0,
                self.due().len() == 0,
                forall|k: int|
                    old(self).visited() <= k < self.visited() ==> (#[trigger] self.rounds()[k]).len()
                        == 0,
                start.ancestors() == old(self).ancestors().len(),
                start.visited() == old(self).visited(),
                start.is_stopped() == old(self).is_stopped(),
                start_rounds == old(self).rounds(),
                old(self).rounds().len() == old(self).visited(),
                0 <= old(self).visited(),
            decreases old(self).whole_way().len() - self.visited(),
        {
            let (node, phase) = match self.next_stop() {
                Some(stop) => stop,
                None => {
                    return Ok(None);
                },
            };
            let ghost before = self.rounds();
            let begun = match begin_round(node, mc, self.event_type.as_str(), phase) {
                Ok(begun) => begun,
                Err(e) => {
                    self.rewind(start, Ghost(start_rounds));
                    return Err(e);
                },
            };
            let entered = self.enter(begun);
            proof {
                assert(self.rounds().subrange(0, old(self).visited()) =~= before.subrange(
                    0,
                    old(self).visited(),
                ));
                assert(begun.pending() =~= begun.snapshot());
                assert forall|k: int| old(self).visited() <= k < self.visited() - 1 implies (
                #[trigger] self.rounds()[k]).len() == 0 by {
                    assert(self.rounds()[k] == before[k]);
                }
            }
            match entered {
                Entered::Call(call) => {
                    return Ok(Some(call));
                },
                Entered::PassedOver => {},
                Entered::Refused => {},
            }
        }
    }

    /// Reports how the call of the callback that `next_call` gave last
    /// ended: that callback is no longer due, and the next of its round is
    /// the one to call. A failure is recorded with its callback and the
    /// event goes on. Where no call is waiting for its report, nothing
    /// changes.
    pub fn complete(&mut self, outcome: Result<(), E>)
        ensures
            final(self).same_event(old(self)),
            final(self).is_stopped() == old(self).is_stopped(),
            final(self).visited() == old(self).visited(),
            final(self).rounds() == old(self).rounds(),
            final(self).due() == if old(self).due().len() > 0 {
                old(self).due().drop_first()
            } else {
                old(self).due()
            },
            final(self).failures() == match (old(self).pending_call(), outcome) {
                (Some(callback), Err(error)) => old(self).failures().push(
                    CallbackFailure { callback, error },
                ),
                _ => old(self).failures(),
            },
    {
        let state = self.take();
        proof {
            use_type_invariant(&state);
        }
        let EventDispatch {
            event_type,
            target,
            ancestors,
            way,
            current,
            round,
            failures,
            rounds,
        } = state;
        let ghost due = callbacks_due(round);
        let round = match round {
            Some(mut running) => {
                let ghost reported = running.failures();
                let ghost before = running.pending();
                running.complete(outcome);
                proof {
                    if before.len() > 0 {
                        assert(running.pending() =~= before.drop_first());
                    } else {
                        assert(running.pending() =~= before);
                    }
                    assert(failures@ + running.failures() =~= match (
                        if due.len() > 0 {
                            Some(due[0])
                        } else {
                            None
                        },
                        outcome,
                    ) {
                        (Some(callback), Err(error)) => (failures@ + reported).push(
                            CallbackFailure { callback, error },
                        ),
                        _ => failures@ + reported,
                    });
                }
                Some(running)
            },
            None => None,
        };
        *self = EventDispatch {
            event_type,
            target,
            ancestors,
            way,
            current,
            round,
            failures,
            rounds,
        };
    }

    /// Ends the dispatch and hands out the failures reported in it, in the
    /// order of the calls.
    pub fn into_failures(self) -> (failures: Vec<CallbackFailure<E>>)
        ensures
            failures@ == self.failures(),
    {
        let mut failures = self.failures;
        if let Some(round) = self.round {
            let mut reported = round.into_failures();
            failures.append(&mut reported);
        }
        assert(failures@ =~= self.failures());
        failures
    }
}

} // verus!
