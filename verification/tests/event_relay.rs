use worker_pool::events::relay_events;
use worker_pool::events::relay_step;
use worker_pool::events::slot_tag;
use worker_pool::events::tag_event;
use worker_pool::numeral::decimal_string;
use worker_pool::Event;
use worker_pool::RelayAction;
use worker_pool::WorkerObservation;

fn event(msg: &str) -> Event {
    Event { msg: String::from(msg), origin_slot: None }
}

#[test]
fn decimal_rendering_is_exact() {
    assert_eq!(decimal_string(0), "0");
    assert_eq!(decimal_string(7), "7");
    assert_eq!(decimal_string(12), "12");
    assert_eq!(decimal_string(12345), "12345");
    assert_eq!(decimal_string(u64::MAX), "18446744073709551615");
}

#[test]
fn slot_tag_names_the_slot() {
    assert_eq!(slot_tag(0), "[W0] ");
    assert_eq!(slot_tag(3), "[W3] ");
    assert_eq!(slot_tag(42), "[W42] ");
}

#[test]
fn tagged_event_keeps_message_after_prefix() {
    let tagged = tag_event(event("task complete"), 3);
    assert_eq!(tagged.msg, "[W3] task complete");
    assert_eq!(tagged.origin_slot, Some(3));
}

#[test]
fn relay_step_forwards_events_tagged() {
    let action = relay_step(WorkerObservation::Item(event("hello")), 7);
    match action {
        RelayAction::Forward(e) => {
            assert_eq!(e.msg, "[W7] hello");
            assert_eq!(e.origin_slot, Some(7));
        }
        RelayAction::Stop => panic!("an event must be forwarded"),
    }
}

#[test]
fn relay_step_stops_on_shutdown_and_close() {
    assert!(matches!(relay_step(WorkerObservation::Shutdown, 1), RelayAction::Stop));
    assert!(matches!(relay_step(WorkerObservation::Closed, 1), RelayAction::Stop));
}

#[test]
fn relay_preserves_order_of_one_worker() {
    let observations = vec![
        WorkerObservation::Item(event("first")),
        WorkerObservation::Item(event("second")),
        WorkerObservation::Item(event("third")),
        WorkerObservation::Closed,
    ];
    let forwarded = relay_events(&observations, 1);
    let msgs: Vec<&str> = forwarded.iter().map(|e| e.msg.as_str()).collect();
    assert_eq!(msgs, vec!["[W1] first", "[W1] second", "[W1] third"]);
}

#[test]
fn relay_discards_events_buffered_behind_a_shutdown() {
    let observations = vec![
        WorkerObservation::Item(event("delivered")),
        WorkerObservation::Shutdown,
        WorkerObservation::Item(event("discarded")),
    ];
    let forwarded = relay_events(&observations, 0);
    let msgs: Vec<&str> = forwarded.iter().map(|e| e.msg.as_str()).collect();
    assert_eq!(msgs, vec!["[W0] delivered"]);
}

#[test]
fn relay_forwards_nothing_after_immediate_shutdown() {
    let observations = vec![
        WorkerObservation::Shutdown,
        WorkerObservation::Item(event("late")),
    ];
    let forwarded = relay_events(&observations, 5);
    assert!(forwarded.is_empty());
}
