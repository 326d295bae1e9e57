//! The dispatch list: the ordered registry of the event listeners of one
//! event target.
//!
//! A list is modelled as the sequence of its registrations in the order in
//! which they are called: by priority, highest first, and among equal
//! priorities in the order of registration.

use crate::invocation::{CallbackFailure, Invocation};
use crate::text::same_text;
use vstd::prelude::*;

verus! {

/// One stage of an event's way through the ancestors of its target.
#[derive(Clone, Copy, Debug, PartialEq, Eq)]
pub enum Phase {
    /// From the root down to the target's parent: capture listeners fire.
    Capture,
    /// On the target itself: every listener of the event's type fires.
    AtTarget,
    /// From the target's parent up to the root: the other listeners fire.
    Bubble,
}

/// One registration of a callback for a type of event.
#[derive(Debug)]
pub struct Listener {
    /// The type of event listened for.
    pub event_type: String,
    /// The identity of the callback target.
    pub callback: u64,
    /// Whether the callback is for the capture phase.
    pub use_capture: bool,
    /// Listeners of higher priority are called first.
    pub priority: i32,
    /// Whether the registration ends with its first call.
    pub once: bool,
}

/// What a [`Listener`] is to a contract.
pub struct ListenerView {
    pub event_type: Seq<char>,
    pub callback: u64,
    pub use_capture: bool,
    pub priority: i32,
    pub once: bool,
}

impl View for Listener {
    type V = ListenerView;

    open spec fn view(&self) -> ListenerView {
        ListenerView {
            event_type: self.event_type@,
            callback: self.callback,
            use_capture: self.use_capture,
            priority: self.priority,
            once: self.once,
        }
    }
}

/// The views of a run of listeners.
pub open spec fn views(listeners: Seq<Listener>) -> Seq<ListenerView> {
    listeners.map_values(|l: Listener| l@)
}

/// Whether `l` is the registration of `callback` for `event_type` in the
/// phase that `use_capture` names. Priority and the once flag are no part of
/// a registration's identity.
pub open spec fn same_registration(
    l: ListenerView,
    event_type: Seq<char>,
    callback: u64,
    use_capture: bool,
) -> bool {
    l.event_type == event_type && l.callback == callback && l.use_capture == use_capture
}

/// Whether some entry of `s` is the given registration.
pub open spec fn is_registered(
    s: Seq<ListenerView>,
    event_type: Seq<char>,
    callback: u64,
    use_capture: bool,
) -> bool {
    exists|i: int|
        0 <= i < s.len() && same_registration(#[trigger] s[i], event_type, callback, use_capture)
}

/// Whether `s` is a list in calling order that holds no registration twice.
pub open spec fn well_formed(s: Seq<ListenerView>) -> bool {
    &&& forall|i: int, j: int|
        0 <= i < j < s.len() ==> (#[trigger] s[i]).priority >= (#[trigger] s[j]).priority
    &&& forall|i: int, j: int|
        0 <= i < j < s.len() ==> !same_registration(
            #[trigger] s[i],
            (#[trigger] s[j]).event_type,
            s[j].callback,
            s[j].use_capture,
        )
}

/// The length of the longest prefix of `s` whose entries all have at least
/// the given priority: the place where a new listener of that priority goes.
pub open spec fn insertion_point(s: Seq<ListenerView>, priority: i32) -> int
    decreases s.len(),
{
    if s.len() == 0 || s[0].priority < priority {
        0
    } else {
        1 + insertion_point(s.drop_first(), priority)
    }
}

/// The list after `l` was added: unchanged where `l`'s registration is there
/// already, else with `l` behind the entries of the same or a higher priority.
pub open spec fn register(s: Seq<ListenerView>, l: ListenerView) -> Seq<ListenerView> {
    if is_registered(s, l.event_type, l.callback, l.use_capture) {
        s
    } else {
        s.insert(insertion_point(s, l.priority), l)
    }
}

/// The test that keeps every entry but the given registration.
pub open spec fn other_than(
    event_type: Seq<char>,
    callback: u64,
    use_capture: bool,
) -> spec_fn(ListenerView) -> bool {
    |l: ListenerView| !same_registration(l, event_type, callback, use_capture)
}

/// The list after the given registration was removed.
pub open spec fn unregister(
    s: Seq<ListenerView>,
    event_type: Seq<char>,
    callback: u64,
    use_capture: bool,
) -> Seq<ListenerView> {
    s.filter(other_than(event_type, callback, use_capture))
}

/// Whether `s` holds a listener for `event_type`, in either phase.
pub open spec fn listens_for(s: Seq<ListenerView>, event_type: Seq<char>) -> bool {
    exists|i: int| 0 <= i < s.len() && (#[trigger] s[i]).event_type == event_type
}

/// Whether `l` is called when an event of `event_type` is in `phase`.
pub open spec fn fires_in(l: ListenerView, event_type: Seq<char>, phase: Phase) -> bool {
    l.event_type == event_type && match phase {
        Phase::Capture => l.use_capture,
        Phase::AtTarget => true,
        Phase::Bubble => !l.use_capture,
    }
}

/// The test for the listeners that an event of `event_type` calls in `phase`.
pub open spec fn firing(event_type: Seq<char>, phase: Phase) -> spec_fn(ListenerView) -> bool {
    |l: ListenerView| fires_in(l, event_type, phase)
}

/// The listeners that an event of `event_type` calls in `phase`, in calling
/// order.
pub open spec fn bucket(s: Seq<ListenerView>, event_type: Seq<char>, phase: Phase) -> Seq<
    ListenerView,
> {
    s.filter(firing(event_type, phase))
}

/// The callbacks of a run of listeners.
pub open spec fn callbacks(s: Seq<ListenerView>) -> Seq<u64> {
    s.map_values(|l: ListenerView| l.callback)
}

/// The test for the listeners that outlive a call of the listeners of
/// `event_type` in `phase`: all but the once-only ones among those called.
pub open spec fn outliving(event_type: Seq<char>, phase: Phase) -> spec_fn(ListenerView) -> bool {
    |l: ListenerView| !(fires_in(l, event_type, phase) && l.once)
}

/// The list after the listeners of `event_type` in `phase` were called.
pub open spec fn after_invocation(
    s: Seq<ListenerView>,
    event_type: Seq<char>,
    phase: Phase,
) -> Seq<ListenerView> {
    s.filter(outliving(event_type, phase))
}

/// Where every entry before `k` has at least the given priority and the entry
/// at `k`, if there is one, has less, `k` is the insertion point.
pub proof fn lemma_insertion_point_is(s: Seq<ListenerView>, priority: i32, k: int)
    requires
        0 <= k <= s.len(),
        forall|i: int| 0 <= i < k ==> (#[trigger] s[i]).priority >= priority,
        k < s.len() ==> s[k].priority < priority,
    ensures
        insertion_point(s, priority) == k,
    decreases s.len(),
{
    if k > 0 {
        assert(s[0].priority >= priority);
        let rest = s.drop_first();
        assert forall|i: int| 0 <= i < k - 1 implies (#[trigger] rest[i]).priority >= priority by {
            assert(rest[i] == s[i + 1]);
        }
        lemma_insertion_point_is(rest, priority, k - 1);
    }
}

/// The insertion point lies within the list; before it stand entries of at
/// least the given priority, and in a well-formed list only entries of a
/// lower priority stand from it on.
pub proof fn lemma_insertion_point_splits(s: Seq<ListenerView>, priority: i32)
    ensures
        0 <= insertion_point(s, priority) <= s.len(),
        forall|i: int|
            0 <= i < insertion_point(s, priority) ==> (#[trigger] s[i]).priority >= priority,
        well_formed(s) ==> forall|i: int|
            insertion_point(s, priority) <= i < s.len() ==> (#[trigger] s[i]).priority < priority,
    decreases s.len(),
{
    if s.len() == 0 || s[0].priority < priority {
        if well_formed(s) {
            assert forall|i: int| 0 <= i < s.len() implies (#[trigger] s[i]).priority
                < priority by {
                if i > 0 {
                    assert(s[0].priority >= s[i].priority);
                }
            }
        }
    } else {
        let rest = s.drop_first();
        lemma_insertion_point_splits(rest, priority);
        let k = insertion_point(s, priority);
        assert forall|i: int| 0 <= i < k implies (#[trigger] s[i]).priority >= priority by {
            if i > 0 {
                assert(s[i] == rest[i - 1]);
            }
        }
        if well_formed(s) {
            assert(well_formed(rest)) by {
                assert forall|i: int, j: int| 0 <= i < j < rest.len() implies (#[trigger] rest[i]).priority
                    >= (#[trigger] rest[j]).priority && !same_registration(
                    rest[i],
                    rest[j].event_type,
                    rest[j].callback,
                    rest[j].use_capture,
                ) by {
                    assert(rest[i] == s[i + 1]);
                    assert(rest[j] == s[j + 1]);
                }
            }
            assert forall|i: int| k <= i < s.len() implies (#[trigger] s[i]).priority
                < priority by {
                assert(s[i] == rest[i - 1]);
            }
        }
    }
}

/// Adding a listener keeps a list well formed.
pub proof fn lemma_register_well_formed(s: Seq<ListenerView>, l: ListenerView)
    requires
        well_formed(s),
    ensures
        well_formed(register(s, l)),
{
    if !is_registered(s, l.event_type, l.callback, l.use_capture) {
        let k = insertion_point(s, l.priority);
        lemma_insertion_point_splits(s, l.priority);
        let r = s.insert(k, l);
        s.insert_ensures(k, l);
        assert forall|i: int, j: int| 0 <= i < j < r.len() implies (#[trigger] r[i]).priority
            >= (#[trigger] r[j]).priority && !same_registration(
            r[i],
            r[j].event_type,
            r[j].callback,
            r[j].use_capture,
        ) by {
            let a = if i < k { i } else { i - 1 };
            let b = if j < k { j } else { j - 1 };
            if i != k {
                assert(r[i] == s[a]);
            }
            if j != k {
                assert(r[j] == s[b]);
            }
        }
    }
}

/// A filter keeps a sequence whose entries all pass it.
pub proof fn lemma_filter_keeps_all(s: Seq<ListenerView>, pred: spec_fn(ListenerView) -> bool)
    requires
        forall|i: int| 0 <= i < s.len() ==> pred(#[trigger] s[i]),
    ensures
        s.filter(pred) == s,
    decreases s.len(),
{
    reveal(Seq::filter);
    if s.len() > 0 {
        let front = s.drop_last();
        assert forall|i: int| 0 <= i < front.len() implies pred(#[trigger] front[i]) by {
            assert(front[i] == s[i]);
        }
        lemma_filter_keeps_all(front, pred);
        assert(pred(s.last()));
        assert(front.push(s.last()) =~= s);
    }
}

/// A filter that only the entry at `at` fails removes that entry.
proof fn lemma_filter_drops_one(
    s: Seq<ListenerView>,
    pred: spec_fn(ListenerView) -> bool,
    at: int,
)
    requires
        0 <= at < s.len(),
        !pred(s[at]),
        forall|i: int| 0 <= i < s.len() && i != at ==> pred(#[trigger] s[i]),
    ensures
        s.filter(pred) == s.remove(at),
    decreases s.len(),
{
    reveal(Seq::filter);
    let front = s.drop_last();
    if at == s.len() - 1 {
        assert forall|i: int| 0 <= i < front.len() implies pred(#[trigger] front[i]) by {
            assert(front[i] == s[i]);
        }
        lemma_filter_keeps_all(front, pred);
        assert(s.remove(at) =~= front);
    } else {
        assert(front[at] == s[at]);
        assert forall|i: int| 0 <= i < front.len() && i != at implies pred(
            #[trigger] front[i],
        ) by {
            assert(front[i] == s[i]);
        }
        lemma_filter_drops_one(front, pred, at);
        assert(pred(s.last()));
        assert(front.remove(at).push(s.last()) =~= s.remove(at));
    }
}

/// Removing an entry keeps a list well formed.
proof fn lemma_remove_well_formed(s: Seq<ListenerView>, at: int)
    requires
        well_formed(s),
        0 <= at < s.len(),
    ensures
        well_formed(s.remove(at)),
{
    let r = s.remove(at);
    assert forall|i: int, j: int| 0 <= i < j < r.len() implies (#[trigger] r[i]).priority
        >= (#[trigger] r[j]).priority && !same_registration(
        r[i],
        r[j].event_type,
        r[j].callback,
        r[j].use_capture,
    ) by {
        let a = if i < at { i } else { i + 1 };
        let b = if j < at { j } else { j + 1 };
        assert(r[i] == s[a]);
        assert(r[j] == s[b]);
    }
}

/// Whether `l` is the given registration.
fn is_registration(l: &Listener, event_type: &str, callback: u64, use_capture: bool) -> (same: bool)
    ensures
        same == same_registration(l@, event_type@, callback, use_capture),
{
    l.callback == callback && l.use_capture == use_capture && same_text(
        l.event_type.as_str(),
        event_type,
    )
}

/// Whether an event of `event_type` in `phase` calls `l`.
fn is_fired(l: &Listener, event_type: &str, phase: Phase) -> (fired: bool)
    ensures
        fired == fires_in(l@, event_type@, phase),
{
    let in_phase = match phase {
        Phase::Capture => l.use_capture,
        Phase::AtTarget => true,
        Phase::Bubble => !l.use_capture,
    };
    in_phase && same_text(l.event_type.as_str(), event_type)
}

/// The ordered registry of the listeners of one event target.
#[derive(Debug)]
pub struct DispatchList {
    listeners: Vec<Listener>,
}

impl View for DispatchList {
    type V = Seq<ListenerView>;

    closed spec fn view(&self) -> Seq<ListenerView> {
        views(self.listeners@)
    }
}

impl DispatchList {
    #[verifier::type_invariant]
    spec fn ordered_without_duplicates(&self) -> bool {
        well_formed(views(self.listeners@))
    }

    /// A list without listeners.
    pub fn new() -> (list: DispatchList)
        ensures
            list@ == Seq::<ListenerView>::empty(),
            well_formed(list@),
    {
        let list = DispatchList { listeners: Vec::new() };
        assert(list@ =~= Seq::<ListenerView>::empty());
        list
    }

    /// The number of registrations.
    pub fn len(&self) -> (n: usize)
        ensures
            n == self@.len(),
    {
        self.listeners.len()
    }

    /// Whether the list holds no registration.
    pub fn is_empty(&self) -> (empty: bool)
        ensures
            empty == (self@.len() == 0),
    {
        self.listeners.len() == 0
    }

    /// The registrations, in calling order.
    pub fn listeners(&self) -> (all: &Vec<Listener>)
        ensures
            views(all@) == self@,
            well_formed(self@),
    {
        proof {
            use_type_invariant(self);
        }
        &self.listeners
    }

    /// Registers `callback` for `event_type`. A registration that is there
    /// already, whatever its priority, stays as it is; a new one goes behind
    /// the listeners of the same or a higher priority.
    pub fn add_listener(
        &mut self,
        event_type: &str,
        callback: u64,
        use_capture: bool,
        priority: i32,
        once: bool,
    )
        ensures
            final(self)@ == register(
                old(self)@,
                (ListenerView { event_type: event_type@, callback, use_capture, priority, once }),
            ),
            well_formed(old(self)@),
            well_formed(final(self)@),
    {
        proof {
            use_type_invariant(&*self);
        }
        let ghost before = self@;
        let n = self.listeners.len();
        let mut i: usize = 0;
        while i < n
            invariant
                n == self.listeners.len(),
                i <= n,
                before == views(self.listeners@),
                before == old(self)@,
                well_formed(before),
                forall|j: int|
                    0 <= j < i ==> !same_registration(
                        #[trigger] before[j],
                        event_type@,
                        callback,
                        use_capture,
                    ),
            decreases n - i,
        {
            if is_registration(&self.listeners[i], event_type, callback, use_capture) {
                assert(same_registration(before[i as int], event_type@, callback, use_capture));
                return ;
            }
            i += 1;
        }
        let mut k: usize = 0;
        while k < n && self.listeners[k].priority >= priority
            invariant
                n == self.listeners.len(),
                k <= n,
                before == views(self.listeners@),
                forall|j: int| 0 <= j < k ==> (#[trigger] before[j]).priority >= priority,
            decreases n - k,
        {
            k += 1;
        }
        let listener = Listener {
            event_type: String::from_str(event_type),
            callback,
            use_capture,
            priority,
            once,
        };
        proof {
            lemma_insertion_point_is(before, priority, k as int);
            lemma_register_well_formed(before, listener@);
        }
        let mut listeners = Vec::new();
        std::mem::swap(&mut listeners, &mut self.listeners);
        listeners.insert(k, listener);
        assert(views(listeners@) =~= before.insert(k as int, listener@));
        self.listeners = listeners;
    }

    /// Removes the registration of `callback` for `event_type` in the phase
    /// that `use_capture` names. Where there is none, nothing changes.
    pub fn remove_listener(&mut self, event_type: &str, callback: u64, use_capture: bool)
        ensures
            final(self)@ == unregister(old(self)@, event_type@, callback, use_capture),
            well_formed(old(self)@),
            well_formed(final(self)@),
    {
        proof {
            use_type_invariant(&*self);
        }
        let ghost before = self@;
        let ghost pred = other_than(event_type@, callback, use_capture);
        let n = self.listeners.len();
        let mut i: usize = 0;
        while i < n
            invariant
                n == self.listeners.len(),
                i <= n,
                before == views(self.listeners@),
                before == old(self)@,
                well_formed(before),
                pred == other_than(event_type@, callback, use_capture),
                forall|j: int| 0 <= j < i ==> pred(#[trigger] before[j]),
            decreases n - i,
        {
            if is_registration(&self.listeners[i], event_type, callback, use_capture) {
                proof {
                    assert forall|j: int| 0 <= j < before.len() && j != i implies pred(
                        #[trigger] before[j],
                    ) by {
                        if j > i {
                            assert(!same_registration(
                                before[i as int],
                                before[j].event_type,
                                before[j].callback,
                                before[j].use_capture,
                            ));
                        }
                    }
                    lemma_filter_drops_one(before, pred, i as int);
                    lemma_remove_well_formed(before, i as int);
                }
                let mut listeners = Vec::new();
                std::mem::swap(&mut listeners, &mut self.listeners);
                listeners.remove(i);
                assert(views(listeners@) =~= before.remove(i as int));
                self.listeners = listeners;
                return ;
            }
            i += 1;
        }
        proof {
            lemma_filter_keeps_all(before, pred);
        }
    }

    /// Whether a listener is registered for `event_type`, in either phase.
    pub fn has_listener(&self, event_type: &str) -> (found: bool)
        ensures
            found == listens_for(self@, event_type@),
            well_formed(self@),
    {
        proof {
            use_type_invariant(self);
        }
        let n = self.listeners.len();
        let mut i: usize = 0;
        while i < n
            invariant
                n == self.listeners.len(),
                i <= n,
                well_formed(self@),
                forall|j: int| 0 <= j < i ==> (#[trigger] self@[j]).event_type != event_type@,
            decreases n - i,
        {
            if same_text(self.listeners[i].event_type.as_str(), event_type) {
                assert(self@[i as int].event_type == event_type@);
                return true;
            }
            i += 1;
        }
        false
    }

    /// The callbacks that an event of `event_type` calls in `phase`, in
    /// calling order. The result is a copy: later changes to the list do not
    /// reach it.
    pub fn handlers(&self, event_type: &str, phase: Phase) -> (found: Vec<u64>)
        ensures
            found@ == callbacks(bucket(self@, event_type@, phase)),
            well_formed(self@),
    {
        proof {
            use_type_invariant(self);
        }
        let ghost all = self@;
        let ghost pred = firing(event_type@, phase);
        let mut found: Vec<u64> = Vec::new();
        let n = self.listeners.len();
        let mut i: usize = 0;
        assert(all.subrange(0, 0).filter(pred) =~= Seq::<ListenerView>::empty()) by {
            reveal(Seq::filter);
        }
        while i < n
            invariant
                n == self.listeners.len(),
                i <= n,
                all == views(self.listeners@),
                pred == firing(event_type@, phase),
                found@ =~= callbacks(all.subrange(0, i as int).filter(pred)),
            decreases n - i,
        {
            let listener = &self.listeners[i];
            proof {
                let done = all.subrange(0, i as int);
                assert(done.push(all[i as int]) =~= all.subrange(0, i + 1));
                done.lemma_filter_push(all[i as int], pred);
            }
            if is_fired(listener, event_type, phase) {
                found.push(listener.callback);
            }
            i += 1;
        }
        assert(all.subrange(0, n as int) =~= all);
        found
    }

    /// Begins a round of calls for an event of `event_type` in `phase`: fixes
    /// the callbacks to call, in calling order, and ends the registration of
    /// the once-only listeners among them. Later changes to the list do not
    /// reach the round.
    pub fn invoke<E>(&mut self, event_type: &str, phase: Phase) -> (round: Invocation<E>)
        ensures
            round.snapshot() == callbacks(bucket(old(self)@, event_type@, phase)),
            round.called() == 0,
            round.failures() == Seq::<CallbackFailure<E>>::empty(),
            final(self)@ == after_invocation(old(self)@, event_type@, phase),
            well_formed(old(self)@),
            well_formed(final(self)@),
    {
        proof {
            use_type_invariant(&*self);
        }
        let ghost orig = self@;
        let ghost fires = firing(event_type@, phase);
        let ghost stays = outliving(event_type@, phase);
        let mut listeners = Vec::new();
        std::mem::swap(&mut listeners, &mut self.listeners);
        let mut fired: Vec<u64> = Vec::new();
        let mut i: usize = 0;
        proof {
            reveal(Seq::filter);
            assert(orig.subrange(0, 0).filter(fires) =~= Seq::<ListenerView>::empty());
            assert(orig.subrange(0, 0).filter(stays) =~= Seq::<ListenerView>::empty());
            assert(views(listeners@).subrange(0, 0) =~= Seq::<ListenerView>::empty());
            assert(views(listeners@).subrange(0, listeners@.len() as int) =~= orig);
            assert(orig.subrange(0, orig.len() as int) =~= orig);
        }
        while i < listeners.len()
            invariant
                fires == firing(event_type@, phase),
                stays == outliving(event_type@, phase),
                well_formed(views(listeners@)),
                i <= listeners@.len() <= orig.len(),
                views(listeners@).subrange(0, i as int) =~= orig.subrange(
                    0,
                    i + orig.len() - listeners@.len(),
                ).filter(stays),
                views(listeners@).subrange(i as int, listeners@.len() as int) =~= orig.subrange(
                    i + orig.len() - listeners@.len(),
                    orig.len() as int,
                ),
                fired@ =~= callbacks(
                    orig.subrange(0, i + orig.len() - listeners@.len()).filter(fires),
                ),
            decreases listeners@.len() - i,
        {
            let ghost j = i + orig.len() - listeners@.len();
            let ghost now = views(listeners@);
            let is_called = is_fired(&listeners[i], event_type, phase);
            let once = listeners[i].once;
            proof {
                assert(now[i as int] == now.subrange(i as int, now.len() as int)[0]);
                assert(now[i as int] == orig[j]);
                let done = orig.subrange(0, j);
                assert(done.push(orig[j]) =~= orig.subrange(0, j + 1));
                done.lemma_filter_push(orig[j], fires);
                done.lemma_filter_push(orig[j], stays);
            }
            if is_called {
                fired.push(listeners[i].callback);
            }
            if is_called && once {
                proof {
                    lemma_remove_well_formed(now, i as int);
                }
                listeners.remove(i);
                proof {
                    let then = views(listeners@);
                    assert(then =~= now.remove(i as int));
                    assert(then.subrange(0, i as int) =~= now.subrange(0, i as int));
                    assert(then.subrange(i as int, then.len() as int) =~= now.subrange(
                        i as int,
                        now.len() as int,
                    ).drop_first());
                    assert(orig.subrange(j, orig.len() as int).drop_first() =~= orig.subrange(
                        j + 1,
                        orig.len() as int,
                    ));
                }
            } else {
                proof {
                    assert(now.subrange(0, i + 1) =~= now.subrange(0, i as int).push(now[i as int]));
                    assert(now.subrange(i + 1, now.len() as int) =~= now.subrange(
                        i as int,
                        now.len() as int,
                    ).drop_first());
                    assert(orig.subrange(j, orig.len() as int).drop_first() =~= orig.subrange(
                        j + 1,
                        orig.len() as int,
                    ));
                }
                i += 1;
            }
        }
        proof {
            assert(views(listeners@).subrange(0, i as int) =~= views(listeners@));
            assert(views(listeners@).subrange(i as int, i as int).len() == 0);
            assert(orig.subrange(i + orig.len() - listeners@.len(), orig.len() as int).len() == 0);
            assert(orig.subrange(0, orig.len() as int) =~= orig);
        }
        self.listeners = listeners;
        Invocation::begin(fired)
    }
}

} // verus!
