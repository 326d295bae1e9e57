use ruffle_dispatch::events::{DispatchList, Phase};
use ruffle_dispatch::invocation::{CallbackFailure, Invocation};

const L1: u64 = 1;
const L2: u64 = 2;
const L3: u64 = 3;

fn run(round: &mut Invocation<String>) -> Vec<u64> {
    let mut called = Vec::new();
    while let Some(callback) = round.next_callback() {
        called.push(callback);
        round.complete(Ok(()));
    }
    called
}

#[test]
fn new_list_is_empty() {
    let list = DispatchList::new();
    assert!(list.is_empty());
    assert_eq!(list.len(), 0);
    assert!(!list.has_listener("click"));
    assert_eq!(list.handlers("click", Phase::AtTarget), Vec::<u64>::new());
}

#[test]
fn adding_the_same_registration_twice_keeps_one() {
    let mut list = DispatchList::new();
    list.add_listener("click", L1, false, 0, false);
    list.add_listener("click", L1, false, 0, false);
    assert_eq!(list.len(), 1);
    assert!(list.has_listener("click"));
    assert_eq!(list.handlers("click", Phase::Bubble), vec![L1]);
    let mut round = list.invoke::<String>("click", Phase::Bubble);
    assert_eq!(run(&mut round), vec![L1]);
}

#[test]
fn second_registration_does_not_change_priority_or_once() {
    let mut list = DispatchList::new();
    list.add_listener("click", L1, false, 0, false);
    list.add_listener("click", L2, false, 5, false);
    list.add_listener("click", L1, false, 10, true);
    assert_eq!(list.len(), 2);
    assert_eq!(list.handlers("click", Phase::Bubble), vec![L2, L1]);
    let mut round = list.invoke::<String>("click", Phase::Bubble);
    assert_eq!(run(&mut round), vec![L2, L1]);
    assert_eq!(list.len(), 2);
}

#[test]
fn same_callback_in_both_phases_is_two_registrations() {
    let mut list = DispatchList::new();
    list.add_listener("click", L1, false, 0, false);
    list.add_listener("click", L1, true, 0, false);
    list.add_listener("keydown", L1, false, 0, false);
    assert_eq!(list.len(), 3);
    assert_eq!(list.handlers("click", Phase::Capture), vec![L1]);
    assert_eq!(list.handlers("click", Phase::Bubble), vec![L1]);
    assert_eq!(list.handlers("click", Phase::AtTarget), vec![L1, L1]);
}

#[test]
fn listeners_are_kept_as_they_were_registered() {
    let mut list = DispatchList::new();
    list.add_listener("click", L1, true, -3, true);
    list.add_listener("keydown", L2, false, 8, false);
    let all = list.listeners();
    assert_eq!(all.len(), 2);
    assert_eq!(all[0].event_type, "keydown");
    assert_eq!(all[0].callback, L2);
    assert!(!all[0].use_capture);
    assert_eq!(all[0].priority, 8);
    assert!(!all[0].once);
    assert_eq!(all[1].event_type, "click");
    assert_eq!(all[1].callback, L1);
    assert!(all[1].use_capture);
    assert_eq!(all[1].priority, -3);
    assert!(all[1].once);
}

#[test]
fn higher_priority_first_then_order_of_registration() {
    let mut list = DispatchList::new();
    list.add_listener("click", L1, false, 5, false);
    list.add_listener("click", L2, false, 10, false);
    list.add_listener("click", L3, false, 10, false);
    assert_eq!(list.handlers("click", Phase::Bubble), vec![L2, L3, L1]);
    let mut round = list.invoke::<String>("click", Phase::Bubble);
    assert_eq!(run(&mut round), vec![L2, L3, L1]);
}

#[test]
fn lower_priority_is_never_called_first() {
    let mut list = DispatchList::new();
    list.add_listener("click", L3, false, 10, false);
    list.add_listener("click", L1, false, 5, false);
    list.add_listener("click", L2, false, 10, false);
    let order = list.handlers("click", Phase::Bubble);
    assert_eq!(order, vec![L3, L2, L1]);
    assert_ne!(order, vec![L1, L3, L2]);
    assert_ne!(order, vec![L2, L3, L1]);
}

#[test]
fn negative_and_extreme_priorities_are_ordered() {
    let mut list = DispatchList::new();
    list.add_listener("click", 1, false, i32::MIN, false);
    list.add_listener("click", 2, false, -1, false);
    list.add_listener("click", 3, false, i32::MAX, false);
    list.add_listener("click", 4, false, 0, false);
    assert_eq!(list.handlers("click", Phase::Bubble), vec![3, 4, 2, 1]);
}

#[test]
fn phases_pick_their_listeners() {
    let mut list = DispatchList::new();
    list.add_listener("click", L1, true, 0, false);
    list.add_listener("click", L2, false, 0, false);
    list.add_listener("keydown", L3, false, 0, false);
    assert_eq!(list.handlers("click", Phase::Capture), vec![L1]);
    assert_eq!(list.handlers("click", Phase::Bubble), vec![L2]);
    assert_eq!(list.handlers("click", Phase::AtTarget), vec![L1, L2]);
    assert_eq!(list.handlers("keydown", Phase::Capture), Vec::<u64>::new());
    assert_eq!(list.handlers("keydown", Phase::AtTarget), vec![L3]);
    assert_eq!(list.handlers("keyup", Phase::AtTarget), Vec::<u64>::new());
}

#[test]
fn has_listener_looks_at_both_phases() {
    let mut list = DispatchList::new();
    list.add_listener("click", L1, true, 0, false);
    assert!(list.has_listener("click"));
    assert!(!list.has_listener("clic"));
    assert!(!list.has_listener("clicks"));
    assert!(!list.has_listener(""));
    list.add_listener("", L2, false, 0, false);
    assert!(list.has_listener(""));
}

#[test]
fn removing_takes_the_registration_away() {
    let mut list = DispatchList::new();
    list.add_listener("click", L1, false, 0, false);
    list.add_listener("click", L2, false, 0, false);
    list.add_listener("click", L3, false, 0, false);
    list.remove_listener("click", L2, false);
    assert_eq!(list.handlers("click", Phase::Bubble), vec![L1, L3]);
    list.remove_listener("click", L1, false);
    list.remove_listener("click", L3, false);
    assert!(!list.has_listener("click"));
    assert!(list.is_empty());
}

#[test]
fn removing_an_absent_registration_changes_nothing() {
    let mut list = DispatchList::new();
    list.remove_listener("click", L1, false);
    assert!(list.is_empty());
    list.add_listener("click", L1, false, 0, false);
    list.remove_listener("click", L1, true);
    list.remove_listener("click", L2, false);
    list.remove_listener("keydown", L1, false);
    assert_eq!(list.len(), 1);
    assert_eq!(list.handlers("click", Phase::Bubble), vec![L1]);
}

#[test]
fn removed_listener_can_be_registered_again_behind_the_others() {
    let mut list = DispatchList::new();
    list.add_listener("click", L1, false, 0, false);
    list.add_listener("click", L2, false, 0, false);
    list.remove_listener("click", L1, false);
    list.add_listener("click", L1, false, 0, false);
    assert_eq!(list.handlers("click", Phase::Bubble), vec![L2, L1]);
}

#[test]
fn once_listener_fires_once_across_two_events() {
    let mut list = DispatchList::new();
    list.add_listener("click", L1, false, 0, true);
    assert!(list.has_listener("click"));
    let mut first = list.invoke::<String>("click", Phase::Bubble);
    assert_eq!(run(&mut first), vec![L1]);
    assert!(!list.has_listener("click"));
    let mut second = list.invoke::<String>("click", Phase::Bubble);
    assert_eq!(run(&mut second), Vec::<u64>::new());
}

#[test]
fn once_listener_leaves_and_the_others_stay() {
    let mut list = DispatchList::new();
    list.add_listener("click", L1, false, 0, false);
    list.add_listener("click", L2, false, 5, true);
    list.add_listener("click", L3, true, 0, true);
    list.add_listener("keydown", L2, false, 0, true);
    let mut first = list.invoke::<String>("click", Phase::Bubble);
    assert_eq!(run(&mut first), vec![L2, L1]);
    assert_eq!(list.len(), 3);
    let mut second = list.invoke::<String>("click", Phase::Bubble);
    assert_eq!(run(&mut second), vec![L1]);
    assert_eq!(list.handlers("click", Phase::Capture), vec![L3]);
    assert_eq!(list.handlers("keydown", Phase::Bubble), vec![L2]);
}

#[test]
fn handlers_does_not_end_a_once_registration() {
    let mut list = DispatchList::new();
    list.add_listener("click", L1, false, 0, true);
    assert_eq!(list.handlers("click", Phase::Bubble), vec![L1]);
    assert_eq!(list.handlers("click", Phase::Bubble), vec![L1]);
    assert!(list.has_listener("click"));
}

#[test]
fn round_is_not_touched_by_later_removal() {
    let mut list = DispatchList::new();
    list.add_listener("click", L1, false, 10, false);
    list.add_listener("click", L2, false, 5, false);
    let mut round = list.invoke::<String>("click", Phase::Bubble);
    assert_eq!(round.next_callback(), Some(L1));
    list.remove_listener("click", L2, false);
    round.complete(Ok(()));
    assert_eq!(round.next_callback(), Some(L2));
    round.complete(Ok(()));
    assert_eq!(round.next_callback(), None);
    assert!(round.is_finished());
    assert_eq!(list.handlers("click", Phase::Bubble), vec![L1]);
}

#[test]
fn round_is_not_touched_by_later_registration() {
    let mut list = DispatchList::new();
    list.add_listener("click", L1, false, 0, false);
    let mut round = list.invoke::<String>("click", Phase::Bubble);
    list.add_listener("click", L2, false, 100, false);
    assert_eq!(run(&mut round), vec![L1]);
    assert_eq!(list.handlers("click", Phase::Bubble), vec![L2, L1]);
}

#[test]
fn failing_callback_does_not_end_the_round() {
    let mut list = DispatchList::new();
    list.add_listener("click", L1, false, 3, false);
    list.add_listener("click", L2, false, 2, false);
    list.add_listener("click", L3, false, 1, false);
    let mut round = list.invoke::<String>("click", Phase::Bubble);
    assert_eq!(round.next_callback(), Some(L1));
    round.complete(Err("first".to_string()));
    assert_eq!(round.next_callback(), Some(L2));
    round.complete(Ok(()));
    assert_eq!(round.next_callback(), Some(L3));
    round.complete(Err("third".to_string()));
    assert_eq!(round.next_callback(), None);
    let failures: Vec<CallbackFailure<String>> = round.into_failures();
    assert_eq!(failures.len(), 2);
    assert_eq!(failures[0].callback, L1);
    assert_eq!(failures[0].error, "first");
    assert_eq!(failures[1].callback, L3);
    assert_eq!(failures[1].error, "third");
}

#[test]
fn completing_a_finished_round_changes_nothing() {
    let mut round = Invocation::<String>::begin(vec![7]);
    assert!(!round.is_finished());
    round.complete(Ok(()));
    assert!(round.is_finished());
    round.complete(Err("late".to_string()));
    assert!(round.is_finished());
    assert_eq!(round.next_callback(), None);
    assert_eq!(round.into_failures().len(), 0);
}

#[test]
fn empty_round_is_finished_at_once() {
    let round = Invocation::<String>::begin(Vec::new());
    assert!(round.is_finished());
    assert_eq!(round.next_callback(), None);
}
