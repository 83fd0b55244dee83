use niri_switch::fanout::{Delivery, Fanout, Subscription};
use niri_switch::NiriEvent;

fn closed(id: u64) -> NiriEvent {
    NiriEvent::WindowClosed { id }
}

#[test]
fn new_subscription_is_empty() {
    let mut sub = Subscription::new(4);
    assert_eq!(sub.capacity(), 4);
    assert_eq!(sub.len(), 0);
    assert_eq!(sub.take(), Delivery::Empty);
    assert_eq!(sub.take(), Delivery::Empty);
}

#[test]
fn events_are_read_in_the_order_they_were_offered() {
    let mut sub = Subscription::new(3);
    sub.offer(closed(1));
    sub.offer(closed(2));
    sub.offer(closed(3));
    assert_eq!(sub.len(), 3);
    assert_eq!(sub.take(), Delivery::Event(closed(1)));
    assert_eq!(sub.take(), Delivery::Event(closed(2)));
    assert_eq!(sub.take(), Delivery::Event(closed(3)));
    assert_eq!(sub.take(), Delivery::Empty);
}

#[test]
fn full_queue_drops_the_oldest_and_reports_the_gap() {
    let mut sub = Subscription::new(2);
    for id in 0..5 {
        sub.offer(closed(id));
    }
    assert_eq!(sub.len(), 2);
    assert_eq!(sub.take(), Delivery::Lagged(3));
    assert_eq!(sub.take(), Delivery::Event(closed(3)));
    assert_eq!(sub.take(), Delivery::Event(closed(4)));
    assert_eq!(sub.take(), Delivery::Empty);
}

#[test]
fn one_event_over_capacity_is_a_gap_of_one() {
    let mut sub = Subscription::new(2);
    sub.offer(closed(0));
    sub.offer(closed(1));
    sub.offer(closed(2));
    assert_eq!(sub.take(), Delivery::Lagged(1));
    assert_eq!(sub.take(), Delivery::Event(closed(1)));
    assert_eq!(sub.take(), Delivery::Event(closed(2)));
}

#[test]
fn exactly_capacity_events_is_no_gap() {
    let mut sub = Subscription::new(2);
    sub.offer(closed(0));
    sub.offer(closed(1));
    assert_eq!(sub.take(), Delivery::Event(closed(0)));
}

#[test]
fn the_gap_is_reported_once() {
    let mut sub = Subscription::new(1);
    sub.offer(closed(0));
    sub.offer(closed(1));
    assert_eq!(sub.take(), Delivery::Lagged(1));
    sub.offer(closed(2));
    assert_eq!(sub.take(), Delivery::Lagged(1));
    assert_eq!(sub.take(), Delivery::Event(closed(2)));
    sub.offer(closed(3));
    assert_eq!(sub.take(), Delivery::Event(closed(3)));
    assert_eq!(sub.take(), Delivery::Empty);
}

#[test]
fn publishing_far_beyond_capacity_always_returns() {
    let mut fanout = Fanout::new(256);
    let slow = fanout.subscribe();
    for id in 0..1000 {
        assert_eq!(fanout.publish(&closed(id)), 1);
    }
    assert_eq!(fanout.recv(slow), Some(Delivery::Lagged(744)));
    assert_eq!(fanout.recv(slow), Some(Delivery::Event(closed(744))));
    for id in 745..1000 {
        assert_eq!(fanout.recv(slow), Some(Delivery::Event(closed(id))));
    }
    assert_eq!(fanout.recv(slow), Some(Delivery::Empty));
}

#[test]
fn every_subscriber_gets_every_event() {
    let mut fanout = Fanout::new(8);
    let a = fanout.subscribe();
    let b = fanout.subscribe();
    assert_eq!((a, b), (0, 1));
    assert_eq!(fanout.subscriber_count(), 2);
    assert_eq!(fanout.publish(&closed(1)), 2);
    assert_eq!(fanout.publish(&closed(2)), 2);
    assert_eq!(fanout.recv(a), Some(Delivery::Event(closed(1))));
    assert_eq!(fanout.recv(b), Some(Delivery::Event(closed(1))));
    assert_eq!(fanout.recv(b), Some(Delivery::Event(closed(2))));
    assert_eq!(fanout.recv(b), Some(Delivery::Empty));
    assert_eq!(fanout.recv(a), Some(Delivery::Event(closed(2))));
}

#[test]
fn a_slow_subscriber_does_not_hold_up_a_fast_one() {
    let mut fanout = Fanout::new(2);
    let slow = fanout.subscribe();
    let fast = fanout.subscribe();
    for id in 0..6 {
        fanout.publish(&closed(id));
        assert_eq!(fanout.recv(fast), Some(Delivery::Event(closed(id))));
    }
    assert_eq!(fanout.recv(fast), Some(Delivery::Empty));
    assert_eq!(fanout.recv(slow), Some(Delivery::Lagged(4)));
    assert_eq!(fanout.recv(slow), Some(Delivery::Event(closed(4))));
    assert_eq!(fanout.recv(slow), Some(Delivery::Event(closed(5))));
}

#[test]
fn a_late_subscriber_sees_only_later_events() {
    let mut fanout = Fanout::new(4);
    fanout.publish(&closed(1));
    let late = fanout.subscribe();
    fanout.publish(&closed(2));
    assert_eq!(fanout.recv(late), Some(Delivery::Event(closed(2))));
    assert_eq!(fanout.recv(late), Some(Delivery::Empty));
}

#[test]
fn publishing_without_subscribers_reaches_nobody() {
    let mut fanout = Fanout::new(4);
    assert_eq!(fanout.subscriber_count(), 0);
    assert_eq!(fanout.publish(&closed(1)), 0);
}

#[test]
fn reading_for_an_unknown_subscriber_gives_nothing() {
    let mut fanout = Fanout::new(4);
    assert_eq!(fanout.recv(0), None);
    let only = fanout.subscribe();
    fanout.publish(&closed(1));
    assert_eq!(fanout.recv(only + 1), None);
    assert_eq!(fanout.recv(only), Some(Delivery::Event(closed(1))));
}
