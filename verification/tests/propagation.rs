use ruffle_dispatch::events::Phase;
use ruffle_dispatch::propagation::{Propagation, Visit};

fn walk(way: &mut Propagation) -> Vec<(usize, Phase)> {
    let mut stops = Vec::new();
    while let Some(Visit { depth, phase }) = way.next() {
        stops.push((depth, phase));
    }
    stops
}

#[test]
fn target_without_ancestors_is_visited_once() {
    let mut way = Propagation::new(0);
    assert!(!way.is_over());
    assert_eq!(walk(&mut way), vec![(0, Phase::AtTarget)]);
    assert!(way.is_over());
    assert!(!way.stopped());
}

#[test]
fn one_ancestor_is_visited_before_and_after_the_target() {
    let mut way = Propagation::new(1);
    assert_eq!(
        walk(&mut way),
        vec![(1, Phase::Capture), (0, Phase::AtTarget), (1, Phase::Bubble)]
    );
}

#[test]
fn capture_goes_down_from_the_root_and_bubble_goes_up() {
    let mut way = Propagation::new(3);
    assert_eq!(
        walk(&mut way),
        vec![
            (3, Phase::Capture),
            (2, Phase::Capture),
            (1, Phase::Capture),
            (0, Phase::AtTarget),
            (1, Phase::Bubble),
            (2, Phase::Bubble),
            (3, Phase::Bubble),
        ]
    );
    assert!(way.next().is_none());
}

#[test]
fn stopped_event_goes_no_further() {
    let mut way = Propagation::new(2);
    let first = way.next().unwrap();
    assert_eq!((first.depth, first.phase), (2, Phase::Capture));
    way.stop();
    assert!(way.stopped());
    assert!(way.is_over());
    assert!(way.next().is_none());
    assert!(way.next().is_none());
}

#[test]
fn stopping_before_the_first_stop_visits_nothing() {
    let mut way = Propagation::new(5);
    way.stop();
    assert_eq!(walk(&mut way), Vec::<(usize, Phase)>::new());
}
