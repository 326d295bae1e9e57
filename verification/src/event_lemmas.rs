//! What holds of every dispatch list: the order of calls, registration that
//! is idempotent, and once-only listeners that are called a single time.

use crate::events::{
    after_invocation, bucket, callbacks, fires_in, firing, insertion_point, is_registered,
    lemma_filter_keeps_all, lemma_insertion_point_is, listens_for, lemma_insertion_point_splits,
    lemma_register_well_formed, other_than, outliving, register, same_registration, unregister,
    well_formed, ListenerView, Phase,
};
use vstd::prelude::*;

verus! {

/// Picking entries out of a well-formed list leaves a well-formed list.
pub proof fn lemma_filter_well_formed(s: Seq<ListenerView>, pred: spec_fn(ListenerView) -> bool)
    requires
        well_formed(s),
    ensures
        well_formed(s.filter(pred)),
    decreases s.len(),
{
    reveal(Seq::filter);
    if s.len() > 0 {
        let front = s.drop_last();
        let last = s.last();
        assert(well_formed(front)) by {
            assert forall|i: int, j: int| 0 <= i < j < front.len() implies (#[trigger] front[i]).priority
                >= (#[trigger] front[j]).priority && !same_registration(
                front[i],
                front[j].event_type,
                front[j].callback,
                front[j].use_capture,
            ) by {
                assert(front[i] == s[i]);
                assert(front[j] == s[j]);
            }
        }
        lemma_filter_well_formed(front, pred);
        let kept = front.filter(pred);
        if pred(last) {
            let r = kept.push(last);
            assert forall|i: int, j: int| 0 <= i < j < r.len() implies (#[trigger] r[i]).priority
                >= (#[trigger] r[j]).priority && !same_registration(
                r[i],
                r[j].event_type,
                r[j].callback,
                r[j].use_capture,
            ) by {
                assert(r[i] == kept[i]);
                if j < kept.len() {
                    assert(r[j] == kept[j]);
                } else {
                    assert(kept.contains(kept[i]));
                    front.lemma_filter_contains_rev(pred, kept[i]);
                    let m = choose|m: int| 0 <= m < front.len() && front[m] == kept[i];
                    assert(s[m] == kept[i]);
                    assert(s[s.len() - 1] == last);
                }
            }
        }
    }
}

/// The listeners that an event calls on one target are called by priority,
/// highest first, and none of them twice.
pub proof fn lemma_bucket_in_calling_order(
    s: Seq<ListenerView>,
    event_type: Seq<char>,
    phase: Phase,
)
    requires
        well_formed(s),
    ensures
        well_formed(bucket(s, event_type, phase)),
        forall|i: int, j: int|
            0 <= i < j < bucket(s, event_type, phase).len() ==> (#[trigger] bucket(
                s,
                event_type,
                phase,
            )[i]).priority >= (#[trigger] bucket(s, event_type, phase)[j]).priority,
{
    lemma_filter_well_formed(s, firing(event_type, phase));
}

/// Adding a registration that is there already changes nothing, whatever the
/// priority and the once flag of the second call; after the first call the
/// list holds the registration, and holds it at one place only.
pub proof fn lemma_register_idempotent(s: Seq<ListenerView>, l: ListenerView, again: ListenerView)
    requires
        well_formed(s),
        same_registration(again, l.event_type, l.callback, l.use_capture),
    ensures
        register(register(s, l), again) == register(s, l),
        is_registered(register(s, l), l.event_type, l.callback, l.use_capture),
        forall|i: int, j: int|
            0 <= i < register(s, l).len() && 0 <= j < register(s, l).len() && same_registration(
                #[trigger] register(s, l)[i],
                l.event_type,
                l.callback,
                l.use_capture,
            ) && same_registration(
                #[trigger] register(s, l)[j],
                l.event_type,
                l.callback,
                l.use_capture,
            ) ==> i == j,
{
    let r = register(s, l);
    lemma_register_well_formed(s, l);
    if !is_registered(s, l.event_type, l.callback, l.use_capture) {
        lemma_insertion_point_splits(s, l.priority);
        let k = insertion_point(s, l.priority);
        s.insert_ensures(k, l);
        assert(same_registration(r[k], l.event_type, l.callback, l.use_capture));
    }
    assert(is_registered(r, again.event_type, again.callback, again.use_capture));
    assert forall|i: int, j: int|
        0 <= i < r.len() && 0 <= j < r.len() && same_registration(
            #[trigger] r[i],
            l.event_type,
            l.callback,
            l.use_capture,
        ) && same_registration(
            #[trigger] r[j],
            l.event_type,
            l.callback,
            l.use_capture,
        ) implies i == j by {
        if i < j {
            assert(!same_registration(r[i], r[j].event_type, r[j].callback, r[j].use_capture));
        }
        if j < i {
            assert(!same_registration(r[j], r[i].event_type, r[i].callback, r[i].use_capture));
        }
    }
}

/// A new listener is called behind the listeners of the same or a higher
/// priority that an event calls with it, and before those of a lower one; the
/// order of the others among themselves stays. Where the event does not call
/// the new listener, its calls are as before.
pub proof fn lemma_register_places_listener(
    s: Seq<ListenerView>,
    l: ListenerView,
    event_type: Seq<char>,
    phase: Phase,
)
    requires
        well_formed(s),
        !is_registered(s, l.event_type, l.callback, l.use_capture),
    ensures
        fires_in(l, event_type, phase) ==> bucket(register(s, l), event_type, phase) == bucket(
            s,
            event_type,
            phase,
        ).insert(insertion_point(bucket(s, event_type, phase), l.priority), l),
        !fires_in(l, event_type, phase) ==> bucket(register(s, l), event_type, phase) == bucket(
            s,
            event_type,
            phase,
        ),
{
    let pred = firing(event_type, phase);
    let k = insertion_point(s, l.priority);
    lemma_insertion_point_splits(s, l.priority);
    let head = s.subrange(0, k);
    let tail = s.subrange(k, s.len() as int);
    assert(head + tail =~= s);
    assert(s.insert(k, l) =~= head.push(l) + tail);
    Seq::filter_distributes_over_add(head, tail, pred);
    Seq::filter_distributes_over_add(head.push(l), tail, pred);
    head.lemma_filter_push(l, pred);
    let a = head.filter(pred);
    let b = tail.filter(pred);
    if fires_in(l, event_type, phase) {
        assert forall|i: int| 0 <= i < a.len() implies (#[trigger] (a + b)[i]).priority
            >= l.priority by {
            assert(a.contains(a[i]));
            head.lemma_filter_contains_rev(pred, a[i]);
            let m = choose|m: int| 0 <= m < head.len() && head[m] == a[i];
            assert(s[m] == a[i]);
        }
        if b.len() > 0 {
            assert(b.contains(b[0]));
            tail.lemma_filter_contains_rev(pred, b[0]);
            let m = choose|m: int| 0 <= m < tail.len() && tail[m] == b[0];
            assert(s[k + m] == b[0]);
            assert((a + b)[a.len() as int] == b[0]);
        }
        lemma_insertion_point_is(a + b, l.priority, a.len() as int);
        assert((a + b).insert(a.len() as int, l) =~= a.push(l) + b);
    }
}

/// Filtering for the listeners that an event calls, after the once-only ones
/// among them were dropped, gives those that it calls and that are not
/// once-only.
proof fn lemma_bucket_after_invocation(s: Seq<ListenerView>, event_type: Seq<char>, phase: Phase)
    ensures
        s.filter(outliving(event_type, phase)).filter(firing(event_type, phase)) == s.filter(
            firing(event_type, phase),
        ).filter(lasting()),
    decreases s.len(),
{
    reveal(Seq::filter);
    let stays = outliving(event_type, phase);
    let fires = firing(event_type, phase);
    if s.len() > 0 {
        let front = s.drop_last();
        let last = s.last();
        lemma_bucket_after_invocation(front, event_type, phase);
        assert(front.push(last) =~= s);
        front.lemma_filter_push(last, stays);
        front.lemma_filter_push(last, fires);
        front.filter(stays).lemma_filter_push(last, fires);
        front.filter(fires).lemma_filter_push(last, lasting());
    }
}

/// The test for the listeners that are not once-only.
pub open spec fn lasting() -> spec_fn(ListenerView) -> bool {
    |l: ListenerView| !l.once
}

/// A once-only registration is called a single time: after the round of
/// calls that reached it the list no longer holds it, and the next event of
/// that type and phase calls just those listeners of the first round that
/// are not once-only. This is said of registrations: a callback that is
/// registered a second time, for the other phase, is still called through
/// that registration.
pub proof fn lemma_once_listeners_leave(s: Seq<ListenerView>, event_type: Seq<char>, phase: Phase)
    requires
        well_formed(s),
    ensures
        well_formed(after_invocation(s, event_type, phase)),
        bucket(after_invocation(s, event_type, phase), event_type, phase) == bucket(
            s,
            event_type,
            phase,
        ).filter(lasting()),
        forall|i: int|
            0 <= i < s.len() && fires_in(#[trigger] s[i], event_type, phase) && s[i].once
                ==> !is_registered(
                after_invocation(s, event_type, phase),
                s[i].event_type,
                s[i].callback,
                s[i].use_capture,
            ),
{
    let stays = outliving(event_type, phase);
    let after = after_invocation(s, event_type, phase);
    lemma_filter_well_formed(s, stays);
    lemma_bucket_after_invocation(s, event_type, phase);
    assert forall|i: int|
        0 <= i < s.len() && fires_in(#[trigger] s[i], event_type, phase)
            && s[i].once implies !is_registered(
        after,
        s[i].event_type,
        s[i].callback,
        s[i].use_capture,
    ) by {
        if is_registered(after, s[i].event_type, s[i].callback, s[i].use_capture) {
            let a = choose|a: int|
                0 <= a < after.len() && same_registration(
                    #[trigger] after[a],
                    s[i].event_type,
                    s[i].callback,
                    s[i].use_capture,
                );
            s.lemma_filter_pred(stays, a);
            assert(after.contains(after[a]));
            s.lemma_filter_contains_rev(stays, after[a]);
            let m = choose|m: int| 0 <= m < s.len() && s[m] == after[a];
            if m < i {
                assert(!same_registration(s[m], s[i].event_type, s[i].callback, s[i].use_capture));
            }
            if i < m {
                assert(!same_registration(s[i], s[m].event_type, s[m].callback, s[m].use_capture));
            }
            assert(m == i);
            assert(stays(s[i]));
        }
    }
}

/// Removing a registration that the list does not hold changes nothing.
pub proof fn lemma_unregister_absent(
    s: Seq<ListenerView>,
    event_type: Seq<char>,
    callback: u64,
    use_capture: bool,
)
    requires
        !is_registered(s, event_type, callback, use_capture),
    ensures
        unregister(s, event_type, callback, use_capture) == s,
{
    let pred = other_than(event_type, callback, use_capture);
    assert forall|i: int| 0 <= i < s.len() implies pred(#[trigger] s[i]) by {
        assert(!same_registration(s[i], event_type, callback, use_capture));
    }
    lemma_filter_keeps_all(s, pred);
}

/// After its removal a registration is gone, and the list is still well
/// formed.
pub proof fn lemma_unregister_removes(
    s: Seq<ListenerView>,
    event_type: Seq<char>,
    callback: u64,
    use_capture: bool,
)
    requires
        well_formed(s),
    ensures
        well_formed(unregister(s, event_type, callback, use_capture)),
        !is_registered(
            unregister(s, event_type, callback, use_capture),
            event_type,
            callback,
            use_capture,
        ),
{
    let pred = other_than(event_type, callback, use_capture);
    let r = unregister(s, event_type, callback, use_capture);
    lemma_filter_well_formed(s, pred);
    assert forall|i: int| 0 <= i < r.len() implies !same_registration(
        #[trigger] r[i],
        event_type,
        callback,
        use_capture,
    ) by {
        s.lemma_filter_pred(pred, i);
    }
}

/// A round of calls is fixed when it begins. Where a listener that the
/// round calls is removed while the round runs, the round still holds its
/// callback, and the list that the next event finds no longer holds its
/// registration.
pub proof fn lemma_removal_after_round_began(
    s: Seq<ListenerView>,
    event_type: Seq<char>,
    phase: Phase,
    i: int,
)
    requires
        well_formed(s),
        0 <= i < s.len(),
        fires_in(s[i], event_type, phase),
    ensures
        bucket(s, event_type, phase).contains(s[i]),
        callbacks(bucket(s, event_type, phase)).contains(s[i].callback),
        !is_registered(
            unregister(
                after_invocation(s, event_type, phase),
                s[i].event_type,
                s[i].callback,
                s[i].use_capture,
            ),
            s[i].event_type,
            s[i].callback,
            s[i].use_capture,
        ),
{
    let fires = firing(event_type, phase);
    let called = bucket(s, event_type, phase);
    s.lemma_filter_contains(fires, i);
    let at = choose|at: int| 0 <= at < called.len() && called[at] == s[i];
    assert(callbacks(called)[at] == s[i].callback);
    lemma_filter_well_formed(s, outliving(event_type, phase));
    lemma_unregister_removes(
        after_invocation(s, event_type, phase),
        s[i].event_type,
        s[i].callback,
        s[i].use_capture,
    );
}

/// A list has a listener for a type of event exactly where an event of that
/// type calls a listener in the capture phase or in the bubble phase.
pub proof fn lemma_listens_for_means_some_call(s: Seq<ListenerView>, event_type: Seq<char>)
    ensures
        listens_for(s, event_type) == (bucket(s, event_type, Phase::Capture).len() > 0 || bucket(
            s,
            event_type,
            Phase::Bubble,
        ).len() > 0),
{
    let capture = firing(event_type, Phase::Capture);
    let bubble = firing(event_type, Phase::Bubble);
    if listens_for(s, event_type) {
        let i = choose|i: int| 0 <= i < s.len() && (#[trigger] s[i]).event_type == event_type;
        if s[i].use_capture {
            s.lemma_filter_contains(capture, i);
        } else {
            s.lemma_filter_contains(bubble, i);
        }
    }
    if bucket(s, event_type, Phase::Capture).len() > 0 {
        let called = bucket(s, event_type, Phase::Capture);
        s.lemma_filter_pred(capture, 0);
        assert(called.contains(called[0]));
        s.lemma_filter_contains_rev(capture, called[0]);
        let m = choose|m: int| 0 <= m < s.len() && s[m] == called[0];
        assert(s[m].event_type == event_type);
    }
    if bucket(s, event_type, Phase::Bubble).len() > 0 {
        let called = bucket(s, event_type, Phase::Bubble);
        s.lemma_filter_pred(bubble, 0);
        assert(called.contains(called[0]));
        s.lemma_filter_contains_rev(bubble, called[0]);
        let m = choose|m: int| 0 <= m < s.len() && s[m] == called[0];
        assert(s[m].event_type == event_type);
    }
}

} // verus!
