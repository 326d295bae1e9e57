use gc_arena::{Arena, Gc, GcWeak, Rootable, Static};
use ruffle_dispatch::dispatch_object::{
    debug_form_of, DispatchObject, DispatchObjectData, DispatchObjectWeak,
};
use ruffle_dispatch::error::Error;
use ruffle_dispatch::event_dispatcher::{
    add_event_listener, begin_round, has_event_listener, remove_event_listener, Entered,
    EventDispatch,
};
use ruffle_dispatch::invocation::Invocation;
use ruffle_dispatch::events::Phase;
use ruffle_dispatch::object::{Object, TObject, Value};
use ruffle_dispatch::script_object::{ScriptObject, ScriptObjectData};

const OBJECT_CLASS: u64 = 1;
const A: u64 = 100;
const B: u64 = 200;
const C: u64 = 300;

fn no_roots() -> Arena<Static<()>> {
    Arena::<Static<()>>::new(|_| Static(()))
}

struct Roots;

impl<'a> Rootable<'a> for Roots {
    type Root = (
        Option<Gc<'a, DispatchObjectData>>,
        Option<GcWeak<'a, DispatchObjectData>>,
    );
}

#[test]
fn empty_list_makes_a_dispatch_object_with_the_given_class() {
    no_roots().mutate(|mc, _| {
        let object = DispatchObject::empty_list(mc, OBJECT_CLASS);
        assert!(matches!(object, Object::DispatchObject(_)));
        assert_eq!(object.class(), OBJECT_CLASS);
        assert_eq!(*object.gc_base(), ScriptObjectData { class: OBJECT_CLASS });
        let holder = object.as_dispatch_object().unwrap();
        assert_eq!(holder.gc_base().class, OBJECT_CLASS);
        let list = holder.as_dispatch().unwrap().unwrap();
        assert!(list.is_empty());
    });
}

#[test]
fn header_is_read_the_same_way_for_every_kind() {
    no_roots().mutate(|mc, _| {
        let plain = Object::ScriptObject(ScriptObject::new(mc, 7));
        let holder = DispatchObject::empty_list(mc, 9);
        assert_eq!(plain.gc_base().class, 7);
        assert_eq!(holder.gc_base().class, 9);
        assert_eq!(plain.class(), 7);
        assert_eq!(holder.class(), 9);
    });
}

#[test]
fn dispatch_object_data_begins_with_the_given_header() {
    let data = DispatchObjectData::new(ScriptObjectData::new(3));
    assert_eq!(*data.base(), ScriptObjectData { class: 3 });
    assert_eq!(data.base().class, 3);
}

#[test]
fn plain_kind_answers_the_capability_operations_itself() {
    no_roots().mutate(|mc, _| {
        let plain = ScriptObject::new(mc, 4);
        assert_eq!(plain.gc_base().class, 4);
        assert!(plain.as_dispatch().is_none());
        assert!(plain.as_dispatch_mut(mc).is_none());
        assert!(matches!(plain.value_of(), Ok(Value::Object(Object::ScriptObject(_)))));
        assert!(matches!(plain.construct(mc, &[Value::Bool(true)]), Ok(Object::ScriptObject(_))));
        assert!(plain.ptr_eq(plain));
        assert!(!plain.ptr_eq(ScriptObject::new(mc, 4)));
    });
}

#[test]
fn header_alignment_fits_the_dispatch_object() {
    let header = std::mem::align_of::<ScriptObjectData>();
    let whole = std::mem::align_of::<DispatchObjectData>();
    assert_eq!(whole % header, 0);
}

#[test]
fn constructing_a_dispatch_object_is_refused() {
    no_roots().mutate(|mc, _| {
        let object = DispatchObject::empty_list(mc, OBJECT_CLASS);
        let made = object.construct(mc, &[]);
        assert!(matches!(made, Err(Error::NotConstructible)));
        let made = object.construct(mc, &[Value::Integer(1), Value::Null]);
        assert!(matches!(made, Err(Error::NotConstructible)));
        let holder = object.as_dispatch_object().unwrap();
        assert!(matches!(holder.construct(mc, &[]), Err(Error::NotConstructible)));
        assert_eq!(
            Error::NotConstructible.message(),
            "Cannot construct internal event dispatcher structures."
        );
    });
}

#[test]
fn coercing_a_dispatch_object_is_refused() {
    no_roots().mutate(|mc, _| {
        let object = DispatchObject::empty_list(mc, OBJECT_CLASS);
        assert!(matches!(object.value_of(), Err(Error::NotSubclassable)));
        let holder = object.as_dispatch_object().unwrap();
        assert!(matches!(holder.value_of(), Err(Error::NotSubclassable)));
        assert_eq!(
            Error::NotSubclassable.message(),
            "Cannot subclass internal event dispatcher structures."
        );
    });
}

#[test]
fn plain_object_constructs_and_coerces() {
    no_roots().mutate(|mc, _| {
        let plain = Object::ScriptObject(ScriptObject::new(mc, 5));
        match plain.construct(mc, &[]) {
            Ok(made) => {
                assert!(matches!(made, Object::ScriptObject(_)));
                assert_eq!(made.class(), 5);
                assert!(!made.ptr_eq(plain));
            }
            Err(_) => panic!("a plain object constructs"),
        }
        match plain.value_of() {
            Ok(Value::Object(same)) => assert!(same.ptr_eq(plain)),
            _ => panic!("a plain object is its own value"),
        }
    });
}

#[test]
fn only_dispatch_objects_expose_a_list() {
    no_roots().mutate(|mc, _| {
        let plain = Object::ScriptObject(ScriptObject::new(mc, 5));
        let holder = DispatchObject::empty_list(mc, OBJECT_CLASS);
        assert!(plain.as_dispatch().is_none());
        assert!(plain.as_dispatch_mut(mc).is_none());
        assert!(plain.as_dispatch_object().is_none());
        assert!(matches!(holder.as_dispatch(), Some(Ok(_))));
        assert!(matches!(holder.as_dispatch_mut(mc), Some(Ok(_))));
    });
}

#[test]
fn handles_are_equal_by_identity() {
    no_roots().mutate(|mc, _| {
        let first = DispatchObject::empty_list(mc, OBJECT_CLASS);
        let second = DispatchObject::empty_list(mc, OBJECT_CLASS);
        let copy = first;
        assert!(first.ptr_eq(copy));
        assert!(!first.ptr_eq(second));
        let plain = Object::ScriptObject(ScriptObject::new(mc, OBJECT_CLASS));
        let other = Object::ScriptObject(ScriptObject::new(mc, OBJECT_CLASS));
        assert!(plain.ptr_eq(plain));
        assert!(!plain.ptr_eq(other));
        assert!(!plain.ptr_eq(first));
        assert!(!first.ptr_eq(plain));
    });
}

#[test]
fn debug_text_names_the_object() {
    no_roots().mutate(|mc, _| {
        let first = DispatchObject::empty_list(mc, OBJECT_CLASS).as_dispatch_object().unwrap();
        let second = DispatchObject::empty_list(mc, OBJECT_CLASS).as_dispatch_object().unwrap();
        let text = first.debug_text();
        assert!(text.starts_with("DispatchObject { ptr: 0x"));
        assert!(text.ends_with(" }"));
        assert_eq!(text, first.debug_text());
        assert_ne!(text, second.debug_text());
        assert_eq!(text, format!("DispatchObject {{ ptr: {:p} }}", first.0));
        assert_eq!(second.debug_text(), format!("DispatchObject {{ ptr: {:p} }}", second.0));
    });
    assert_eq!(debug_form_of("0x10"), "DispatchObject { ptr: 0x10 }");
    assert_eq!(debug_form_of(""), "DispatchObject { ptr:  }");
}

#[test]
fn list_is_changed_through_the_mutable_view() {
    no_roots().mutate(|mc, _| {
        let object = DispatchObject::empty_list(mc, OBJECT_CLASS);
        let holder = object.as_dispatch_object().unwrap();
        {
            let mut list = holder.as_dispatch_mut(mc).unwrap().unwrap();
            list.add_listener("click", A, false, 0, false);
        }
        let list = holder.as_dispatch().unwrap().unwrap();
        assert!(list.has_listener("click"));
        assert_eq!(list.handlers("click", Phase::Bubble), vec![A]);
    });
}

#[test]
fn conflicting_borrows_are_refused() {
    no_roots().mutate(|mc, _| {
        let object = DispatchObject::empty_list(mc, OBJECT_CLASS);
        let holder = object.as_dispatch_object().unwrap();
        {
            let reading = holder.as_dispatch().unwrap().unwrap();
            assert!(matches!(holder.as_dispatch(), Some(Ok(_))));
            assert!(matches!(holder.as_dispatch_mut(mc), Some(Err(Error::BorrowViolation))));
            assert_eq!(
                add_event_listener(object, mc, "click", A, false, 0, false),
                Err(Error::BorrowViolation)
            );
            assert!(matches!(
                begin_round::<String>(object, mc, "click", Phase::AtTarget),
                Err(Error::BorrowViolation)
            ));
            assert!(reading.is_empty());
        }
        {
            let _writing = holder.as_dispatch_mut(mc).unwrap().unwrap();
            assert!(matches!(holder.as_dispatch(), Some(Err(Error::BorrowViolation))));
            assert!(matches!(holder.as_dispatch_mut(mc), Some(Err(Error::BorrowViolation))));
            assert_eq!(has_event_listener(object, "click"), Err(Error::BorrowViolation));
            assert_eq!(
                remove_event_listener(object, mc, "click", A, false),
                Err(Error::BorrowViolation)
            );
        }
        assert_eq!(add_event_listener(object, mc, "click", A, false, 0, false), Ok(()));
        assert_eq!(has_event_listener(object, "click"), Ok(true));
    });
}

#[test]
fn every_error_has_its_text() {
    assert_eq!(Error::NotEventTarget.message(), "The object holds no event dispatch list.");
    assert_eq!(Error::BorrowViolation.message(), "The event dispatch list is already borrowed.");
    assert_ne!(Error::NotConstructible.message(), Error::NotSubclassable.message());
}

#[test]
fn plain_object_takes_no_listeners() {
    no_roots().mutate(|mc, _| {
        let plain = Object::ScriptObject(ScriptObject::new(mc, 5));
        assert_eq!(
            add_event_listener(plain, mc, "click", A, false, 0, false),
            Err(Error::NotEventTarget)
        );
        assert_eq!(
            remove_event_listener(plain, mc, "click", A, false),
            Err(Error::NotEventTarget)
        );
        assert_eq!(has_event_listener(plain, "click"), Ok(false));
        match begin_round::<String>(plain, mc, "click", Phase::AtTarget) {
            Ok(round) => assert!(round.is_finished()),
            Err(_) => panic!("a plain object has nothing to call"),
        }
    });
}

#[test]
fn listeners_are_added_and_removed_through_the_handle() {
    no_roots().mutate(|mc, _| {
        let target = DispatchObject::empty_list(mc, OBJECT_CLASS);
        let other = DispatchObject::empty_list(mc, OBJECT_CLASS);
        assert_eq!(add_event_listener(target, mc, "click", A, false, 0, false), Ok(()));
        assert_eq!(add_event_listener(target, mc, "click", A, false, 0, false), Ok(()));
        assert_eq!(has_event_listener(target, "click"), Ok(true));
        assert_eq!(has_event_listener(other, "click"), Ok(false));
        assert_eq!(target.as_dispatch().unwrap().unwrap().len(), 1);
        assert_eq!(remove_event_listener(target, mc, "click", A, false), Ok(()));
        assert_eq!(has_event_listener(target, "click"), Ok(false));
        assert_eq!(remove_event_listener(target, mc, "click", A, false), Ok(()));
    });
}

#[test]
fn weak_handle_resolves_while_the_object_is_alive() {
    no_roots().mutate(|mc, _| {
        let object = DispatchObject::empty_list(mc, OBJECT_CLASS);
        let other = DispatchObject::empty_list(mc, OBJECT_CLASS);
        let holder = object.as_dispatch_object().unwrap();
        let weak = holder.downgrade();
        match weak.upgrade(mc) {
            Some(strong) => {
                assert!(strong.ptr_eq(holder));
                assert!(!Object::DispatchObject(strong).ptr_eq(other));
            }
            None => panic!("the object is alive"),
        }
    });
}

#[test]
fn weak_handle_is_absent_after_collection() {
    let mut arena = Arena::<Roots>::new(|_| (None, None));
    arena.mutate_root(|mc, root| {
        let object = DispatchObject::empty_list(mc, OBJECT_CLASS);
        let holder = object.as_dispatch_object().unwrap();
        root.0 = Some(holder.0);
        root.1 = Some(holder.downgrade().0);
    });
    arena.finish_cycle();
    arena.finish_cycle();
    arena.mutate(|mc, root| {
        let weak = DispatchObjectWeak(root.1.unwrap());
        let strong = weak.upgrade(mc).unwrap();
        assert!(strong.ptr_eq(DispatchObject(root.0.unwrap())));
    });
    arena.mutate_root(|_, root| {
        root.0 = None;
    });
    arena.finish_cycle();
    arena.finish_cycle();
    arena.mutate(|mc, root| {
        let weak = DispatchObjectWeak(root.1.unwrap());
        assert!(weak.upgrade(mc).is_none());
    });
}

#[test]
fn click_reaches_the_ancestor_in_capture_and_then_the_target() {
    no_roots().mutate(|mc, _| {
        let target = DispatchObject::empty_list(mc, OBJECT_CLASS);
        let ancestor = DispatchObject::empty_list(mc, OBJECT_CLASS);
        assert_eq!(add_event_listener(target, mc, "click", A, false, 0, false), Ok(()));
        assert_eq!(add_event_listener(ancestor, mc, "click", B, true, 0, false), Ok(()));
        let mut dispatch = EventDispatch::<String>::new("click", target, vec![ancestor]);
        let mut calls = Vec::new();
        loop {
            match dispatch.next_call(mc) {
                Ok(Some(call)) => {
                    calls.push((call.callback, call.phase, call.current_target.ptr_eq(target)));
                    dispatch.complete(Ok(()));
                }
                Ok(None) => break,
                Err(_) => panic!("no list is borrowed"),
            }
        }
        assert_eq!(calls, vec![(B, Phase::Capture, false), (A, Phase::AtTarget, true)]);
        assert!(dispatch.into_failures().is_empty());
    });
}

#[test]
fn bubble_listeners_of_ancestors_fire_on_the_way_up() {
    no_roots().mutate(|mc, _| {
        let target = DispatchObject::empty_list(mc, OBJECT_CLASS);
        let parent = Object::ScriptObject(ScriptObject::new(mc, OBJECT_CLASS));
        let root = DispatchObject::empty_list(mc, OBJECT_CLASS);
        assert_eq!(add_event_listener(root, mc, "click", A, true, 0, false), Ok(()));
        assert_eq!(add_event_listener(root, mc, "click", B, false, 0, false), Ok(()));
        assert_eq!(add_event_listener(target, mc, "click", C, true, 0, false), Ok(()));
        let mut dispatch = EventDispatch::<String>::new("click", target, vec![parent, root]);
        let mut calls = Vec::new();
        while let Ok(Some(call)) = dispatch.next_call(mc) {
            calls.push((call.callback, call.phase, call.current_target.ptr_eq(root)));
            dispatch.complete(Ok(()));
        }
        assert_eq!(
            calls,
            vec![(A, Phase::Capture, true), (C, Phase::AtTarget, false), (B, Phase::Bubble, true)]
        );
    });
}

#[test]
fn listener_removed_during_dispatch_still_fires_once() {
    no_roots().mutate(|mc, _| {
        let target = DispatchObject::empty_list(mc, OBJECT_CLASS);
        assert_eq!(add_event_listener(target, mc, "click", A, false, 10, false), Ok(()));
        assert_eq!(add_event_listener(target, mc, "click", B, false, 5, false), Ok(()));
        let mut dispatch = EventDispatch::<String>::new("click", target, Vec::new());
        let first = dispatch.next_call(mc).unwrap().unwrap();
        assert_eq!(first.callback, A);
        assert_eq!(remove_event_listener(target, mc, "click", B, false), Ok(()));
        dispatch.complete(Ok(()));
        let second = dispatch.next_call(mc).unwrap().unwrap();
        assert_eq!(second.callback, B);
        dispatch.complete(Ok(()));
        assert!(dispatch.next_call(mc).unwrap().is_none());

        let mut again = EventDispatch::<String>::new("click", target, Vec::new());
        let only = again.next_call(mc).unwrap().unwrap();
        assert_eq!(only.callback, A);
        again.complete(Ok(()));
        assert!(again.next_call(mc).unwrap().is_none());
    });
}

#[test]
fn once_listener_on_an_object_fires_for_one_event_only() {
    no_roots().mutate(|mc, _| {
        let target = DispatchObject::empty_list(mc, OBJECT_CLASS);
        assert_eq!(add_event_listener(target, mc, "click", A, false, 0, true), Ok(()));
        let mut fired = Vec::new();
        for _ in 0..2 {
            let mut dispatch = EventDispatch::<String>::new("click", target, Vec::new());
            while let Ok(Some(call)) = dispatch.next_call(mc) {
                fired.push(call.callback);
                dispatch.complete(Ok(()));
            }
        }
        assert_eq!(fired, vec![A]);
        assert_eq!(has_event_listener(target, "click"), Ok(false));
    });
}

#[test]
fn stopping_ends_the_traversal_but_not_the_current_round() {
    no_roots().mutate(|mc, _| {
        let target = DispatchObject::empty_list(mc, OBJECT_CLASS);
        let ancestor = DispatchObject::empty_list(mc, OBJECT_CLASS);
        assert_eq!(add_event_listener(ancestor, mc, "click", A, true, 5, false), Ok(()));
        assert_eq!(add_event_listener(ancestor, mc, "click", B, true, 0, false), Ok(()));
        assert_eq!(add_event_listener(target, mc, "click", C, false, 0, false), Ok(()));
        let mut dispatch = EventDispatch::<String>::new("click", target, vec![ancestor]);
        let first = dispatch.next_call(mc).unwrap().unwrap();
        assert_eq!(first.callback, A);
        dispatch.stop_propagation();
        dispatch.complete(Ok(()));
        let second = dispatch.next_call(mc).unwrap().unwrap();
        assert_eq!(second.callback, B);
        dispatch.complete(Ok(()));
        assert!(dispatch.next_call(mc).unwrap().is_none());
        assert!(dispatch.next_call(mc).unwrap().is_none());
    });
}

#[test]
fn failures_are_kept_per_listener_and_the_event_goes_on() {
    no_roots().mutate(|mc, _| {
        let target = DispatchObject::empty_list(mc, OBJECT_CLASS);
        let ancestor = DispatchObject::empty_list(mc, OBJECT_CLASS);
        assert_eq!(add_event_listener(ancestor, mc, "click", A, true, 0, false), Ok(()));
        assert_eq!(add_event_listener(target, mc, "click", B, false, 0, false), Ok(()));
        assert_eq!(add_event_listener(ancestor, mc, "click", C, false, 0, false), Ok(()));
        let mut dispatch = EventDispatch::<String>::new("click", target, vec![ancestor]);
        let mut calls = Vec::new();
        while let Ok(Some(call)) = dispatch.next_call(mc) {
            calls.push(call.callback);
            if call.callback == B {
                dispatch.complete(Ok(()));
            } else {
                dispatch.complete(Err(format!("callback {} failed", call.callback)));
            }
        }
        assert_eq!(calls, vec![A, B, C]);
        let failures = dispatch.into_failures();
        assert_eq!(failures.len(), 2);
        assert_eq!(failures[0].callback, A);
        assert_eq!(failures[0].error, "callback 100 failed");
        assert_eq!(failures[1].callback, C);
        assert_eq!(failures[1].error, "callback 300 failed");
    });
}

#[test]
fn borrowed_list_on_the_way_leaves_the_event_where_it_stood() {
    no_roots().mutate(|mc, _| {
        let target = DispatchObject::empty_list(mc, OBJECT_CLASS);
        let parent = DispatchObject::empty_list(mc, OBJECT_CLASS);
        let root = DispatchObject::empty_list(mc, OBJECT_CLASS);
        assert_eq!(add_event_listener(parent, mc, "click", A, true, 0, false), Ok(()));
        assert_eq!(add_event_listener(target, mc, "click", B, false, 0, false), Ok(()));
        let mut dispatch = EventDispatch::<String>::new("click", target, vec![parent, root]);
        {
            let _view = parent.as_dispatch_mut(mc).unwrap().unwrap();
            assert!(matches!(dispatch.next_call(mc), Err(Error::BorrowViolation)));
            assert!(matches!(dispatch.next_call(mc), Err(Error::BorrowViolation)));
            assert!(dispatch.due_call().is_none());
            match dispatch.next_stop() {
                Some((node, phase)) => {
                    assert!(node.ptr_eq(root));
                    assert_eq!(phase, Phase::Capture);
                }
                None => panic!("the event has not begun"),
            }
        }
        let mut calls = Vec::new();
        while let Ok(Some(call)) = dispatch.next_call(mc) {
            calls.push((call.callback, call.phase, call.current_target.ptr_eq(parent)));
            dispatch.complete(Ok(()));
        }
        assert_eq!(calls, vec![(A, Phase::Capture, true), (B, Phase::AtTarget, false)]);
        assert!(dispatch.next_stop().is_none());
    });
}

#[test]
fn call_that_is_due_is_handed_out_until_it_is_reported() {
    no_roots().mutate(|mc, _| {
        let target = DispatchObject::empty_list(mc, OBJECT_CLASS);
        assert_eq!(add_event_listener(target, mc, "click", A, false, 5, false), Ok(()));
        assert_eq!(add_event_listener(target, mc, "click", B, false, 0, false), Ok(()));
        let mut dispatch = EventDispatch::<String>::new("click", target, Vec::new());
        assert!(dispatch.due_call().is_none());
        assert_eq!(dispatch.next_call(mc).unwrap().unwrap().callback, A);
        assert_eq!(dispatch.next_call(mc).unwrap().unwrap().callback, A);
        assert_eq!(dispatch.due_call().unwrap().callback, A);
        dispatch.complete(Ok(()));
        assert_eq!(dispatch.due_call().unwrap().callback, B);
        assert_eq!(dispatch.next_call(mc).unwrap().unwrap().callback, B);
        dispatch.complete(Ok(()));
        assert!(dispatch.due_call().is_none());
        dispatch.complete(Err("nothing was called".to_string()));
        assert!(dispatch.next_call(mc).unwrap().is_none());
        assert!(dispatch.into_failures().is_empty());
    });
}

#[test]
fn entering_a_stop_hands_out_the_first_callback_of_its_round() {
    no_roots().mutate(|mc, _| {
        let target = DispatchObject::empty_list(mc, OBJECT_CLASS);
        let parent = DispatchObject::empty_list(mc, OBJECT_CLASS);
        let mut dispatch = EventDispatch::<String>::new("click", target, vec![parent]);
        assert!(matches!(dispatch.enter(Invocation::begin(Vec::new())), Entered::PassedOver));
        match dispatch.enter(Invocation::begin(vec![7, 8])) {
            Entered::Call(call) => {
                assert_eq!(call.callback, 7);
                assert_eq!(call.phase, Phase::AtTarget);
                assert!(call.current_target.ptr_eq(target));
            }
            _ => panic!("the round has a callback"),
        }
        assert!(matches!(dispatch.enter(Invocation::begin(vec![9])), Entered::Refused));
        assert_eq!(dispatch.due_call().unwrap().callback, 7);
        dispatch.complete(Ok(()));
        dispatch.complete(Ok(()));
        match dispatch.enter(Invocation::begin(vec![9])) {
            Entered::Call(call) => {
                assert_eq!(call.callback, 9);
                assert_eq!(call.phase, Phase::Bubble);
                assert!(call.current_target.ptr_eq(parent));
            }
            _ => panic!("the round has a callback"),
        }
        dispatch.complete(Ok(()));
        assert!(matches!(dispatch.enter(Invocation::begin(vec![1])), Entered::Refused));
        assert!(dispatch.next_call(mc).unwrap().is_none());
    });
}

#[test]
fn resolved_weak_handle_shows_the_same_list() {
    no_roots().mutate(|mc, _| {
        let object = DispatchObject::empty_list(mc, OBJECT_CLASS);
        let holder = object.as_dispatch_object().unwrap();
        let weak = holder.downgrade();
        assert_eq!(add_event_listener(object, mc, "click", A, false, 0, false), Ok(()));
        let strong = weak.upgrade(mc).unwrap();
        assert!(strong.ptr_eq(holder));
        assert_eq!(has_event_listener(Object::DispatchObject(strong), "click"), Ok(true));
    });
}
