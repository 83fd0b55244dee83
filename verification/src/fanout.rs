//! The event fanout: every published event is offered to every subscriber.
//!
//! Each subscriber has a bounded queue of its own. Publishing never waits
//! for a subscriber: where a queue is full its oldest event is dropped and
//! counted, and the subscriber is told of the gap before it reads on.

use crate::types::{NiriEvent, NiriEventView};
use std::collections::VecDeque;
use vstd::prelude::*;

verus! {

/// The values of a sequence of events, in order.
pub open spec fn event_views(events: Seq<NiriEvent>) -> Seq<NiriEventView> {
    events.map_values(|e: NiriEvent| e@)
}

/// Mathematical value of a [`Subscription`].
pub struct SubscriptionView {
    /// How many unread events the queue holds at most.
    pub capacity: nat,
    /// The unread events, oldest first.
    pub pending: Seq<NiriEventView>,
    /// How many events were dropped since the subscriber last read.
    pub missed: nat,
}

/// What a subscriber gets when it reads.
#[derive(Debug, PartialEq, Eq)]
pub enum Delivery {
    /// The oldest unread event.
    Event(NiriEvent),
    /// This many events were dropped unread; the next read goes on with the
    /// oldest event that is still held.
    Lagged(u64),
    /// Nothing is pending.
    Empty,
}

/// Mathematical value of a [`Delivery`].
pub enum DeliveryView {
    Event(NiriEventView),
    Lagged(nat),
    Empty,
}

impl View for Delivery {
    type V = DeliveryView;

    open spec fn view(&self) -> DeliveryView {
        match *self {
            Delivery::Event(event) => DeliveryView::Event(event@),
            Delivery::Lagged(missed) => DeliveryView::Lagged(missed as nat),
            Delivery::Empty => DeliveryView::Empty,
        }
    }
}

/// The drop counter after one more drop; it stops at the largest `u64`.
pub open spec fn one_more(missed: nat) -> nat {
    if missed < u64::MAX {
        missed + 1
    } else {
        missed
    }
}

/// The queue after `event` was offered to it: appended where there is room,
/// else appended in place of the oldest event, which is counted as missed.
pub open spec fn offered(sub: SubscriptionView, event: NiriEventView) -> SubscriptionView {
    if sub.pending.len() < sub.capacity {
        SubscriptionView {
            capacity: sub.capacity,
            pending: sub.pending.push(event),
            missed: sub.missed,
        }
    } else {
        SubscriptionView {
            capacity: sub.capacity,
            pending: sub.pending.drop_first().push(event),
            missed: one_more(sub.missed),
        }
    }
}

/// The queue after a run of events was offered to it, in order.
pub open spec fn offered_all(sub: SubscriptionView, events: Seq<NiriEventView>) -> SubscriptionView
    decreases events.len(),
{
    if events.len() == 0 {
        sub
    } else {
        offered(offered_all(sub, events.drop_last()), events.last())
    }
}

/// What the next read returns: the gap, where events were dropped; else the
/// oldest unread event; else nothing.
pub open spec fn next_delivery(sub: SubscriptionView) -> DeliveryView {
    if sub.missed > 0 {
        DeliveryView::Lagged(sub.missed)
    } else if sub.pending.len() > 0 {
        DeliveryView::Event(sub.pending[0])
    } else {
        DeliveryView::Empty
    }
}

/// The queue after the next read.
pub open spec fn after_delivery(sub: SubscriptionView) -> SubscriptionView {
    if sub.missed > 0 {
        SubscriptionView { capacity: sub.capacity, pending: sub.pending, missed: 0 }
    } else if sub.pending.len() > 0 {
        SubscriptionView {
            capacity: sub.capacity,
            pending: sub.pending.drop_first(),
            missed: sub.missed,
        }
    } else {
        sub
    }
}

/// Whether the queue respects its bound.
pub open spec fn within_bound(sub: SubscriptionView) -> bool {
    &&& sub.capacity >= 1
    &&& sub.pending.len() <= sub.capacity
    &&& sub.missed <= u64::MAX
}

/// One subscriber's bounded queue of unread events.
#[derive(Debug)]
pub struct Subscription {
    capacity: usize,
    queue: VecDeque<NiriEvent>,
    missed: u64,
}

impl View for Subscription {
    type V = SubscriptionView;

    closed spec fn view(&self) -> SubscriptionView {
        SubscriptionView {
            capacity: self.capacity as nat,
            pending: event_views(self.queue@),
            missed: self.missed as nat,
        }
    }
}

impl Subscription {
    /// An empty queue that holds at most `capacity` unread events.
    pub fn new(capacity: usize) -> (sub: Subscription)
        requires
            capacity >= 1,
        ensures
            sub@ == (SubscriptionView { capacity: capacity as nat, pending: Seq::empty(), missed: 0 }),
            within_bound(sub@),
    {
        let sub = Subscription { capacity, queue: VecDeque::new(), missed: 0 };
        proof {
            assert(sub@.pending =~= Seq::empty());
        }
        sub
    }

    /// How many unread events the queue holds at most.
    pub fn capacity(&self) -> (capacity: usize)
        ensures
            capacity == self@.capacity,
    {
        self.capacity
    }

    /// How many events are pending.
    pub fn len(&self) -> (len: usize)
        ensures
            len == self@.pending.len(),
    {
        self.queue.len()
    }

    /// Offers one event. This never waits and never fails: a full queue
    /// drops its oldest event and counts it.
    pub fn offer(&mut self, event: NiriEvent)
        requires
            within_bound(old(self)@),
        ensures
            final(self)@ == offered(old(self)@, event@),
            within_bound(final(self)@),
    {
        let ghost before = self.queue@;
        if self.queue.len() >= self.capacity {
            let _ = self.queue.pop_front();
            if self.missed < u64::MAX {
                self.missed = self.missed + 1;
            }
            proof {
                assert(self.queue@ =~= before.drop_first());
                assert(event_views(before.drop_first()) =~= event_views(before).drop_first());
            }
        }
        let ghost kept = self.queue@;
        self.queue.push_back(event);
        proof {
            assert(event_views(kept.push(event)) =~= event_views(kept).push(event@));
        }
    }

    /// Reads once: the gap, where events were dropped since the last read;
    /// else the oldest unread event; else nothing.
    pub fn take(&mut self) -> (delivery: Delivery)
        requires
            within_bound(old(self)@),
        ensures
            delivery@ == next_delivery(old(self)@),
            final(self)@ == after_delivery(old(self)@),
            within_bound(final(self)@),
    {
        if self.missed > 0 {
            let missed = self.missed;
            self.missed = 0;
            return Delivery::Lagged(missed);
        }
        let ghost before = self.queue@;
        match self.queue.pop_front() {
            Some(event) => {
                proof {
                    assert(self.queue@ =~= before.drop_first());
                    assert(event_views(before.drop_first()) =~= event_views(before).drop_first());
                }
                Delivery::Event(event)
            },
            None => Delivery::Empty,
        }
    }
}

/// Mathematical value of a [`Fanout`].
pub struct FanoutView {
    /// The bound of every subscriber's queue.
    pub capacity: nat,
    /// The subscribers' queues, in the order they subscribed.
    pub subscribers: Seq<SubscriptionView>,
}

/// The queues after `event` was offered to each of them.
pub open spec fn published(subscribers: Seq<SubscriptionView>, event: NiriEventView) -> Seq<
    SubscriptionView,
> {
    subscribers.map_values(|sub: SubscriptionView| offered(sub, event))
}

/// The publisher's side of the event fanout, with the subscribers' queues.
#[derive(Debug)]
pub struct Fanout {
    capacity: usize,
    subscribers: Vec<Subscription>,
}

impl View for Fanout {
    type V = FanoutView;

    closed spec fn view(&self) -> FanoutView {
        FanoutView {
            capacity: self.capacity as nat,
            subscribers: self.subscribers@.map_values(|sub: Subscription| sub@),
        }
    }
}

/// Whether every queue of the fanout has the fanout's bound and respects it.
pub open spec fn fanout_within_bound(fanout: FanoutView) -> bool {
    &&& fanout.capacity >= 1
    &&& forall|i: int|
        0 <= i < fanout.subscribers.len() ==> within_bound(#[trigger] fanout.subscribers[i])
            && fanout.subscribers[i].capacity == fanout.capacity
}

impl Fanout {
    /// A fanout without subscribers, whose queues will hold at most
    /// `capacity` unread events each.
    pub fn new(capacity: usize) -> (fanout: Fanout)
        requires
            capacity >= 1,
        ensures
            fanout@ == (FanoutView { capacity: capacity as nat, subscribers: Seq::empty() }),
            fanout_within_bound(fanout@),
    {
        let fanout = Fanout { capacity, subscribers: Vec::new() };
        proof {
            assert(fanout@.subscribers =~= Seq::empty());
        }
        fanout
    }

    /// How many subscribers there are.
    pub fn subscriber_count(&self) -> (count: usize)
        ensures
            count == self@.subscribers.len(),
    {
        self.subscribers.len()
    }

    /// Adds a subscriber with an empty queue and returns its number.
    pub fn subscribe(&mut self) -> (id: usize)
        requires
            fanout_within_bound(old(self)@),
        ensures
            id == old(self)@.subscribers.len(),
            final(self)@.capacity == old(self)@.capacity,
            final(self)@.subscribers == old(self)@.subscribers.push(
                SubscriptionView {
                    capacity: old(self)@.capacity,
                    pending: Seq::empty(),
                    missed: 0,
                },
            ),
            fanout_within_bound(final(self)@),
    {
        let id = self.subscribers.len();
        let ghost before = self.subscribers@;
        let sub = Subscription::new(self.capacity);
        self.subscribers.push(sub);
        proof {
            assert(self@.subscribers =~= old(self)@.subscribers.push(sub@));
            assert forall|j: int| 0 <= j < self@.subscribers.len() implies within_bound(
                #[trigger] self@.subscribers[j],
            ) && self@.subscribers[j].capacity == self@.capacity by {
                if j < before.len() {
                    assert(within_bound(old(self)@.subscribers[j]));
                }
            }
        }
        id
    }

    /// Offers `event` to every subscriber and returns how many there are.
    /// This never waits for a subscriber, however far behind it is.
    pub fn publish(&mut self, event: &NiriEvent) -> (reached: usize)
        requires
            fanout_within_bound(old(self)@),
        ensures
            reached == old(self)@.subscribers.len(),
            final(self)@.capacity == old(self)@.capacity,
            final(self)@.subscribers == published(old(self)@.subscribers, event@),
            fanout_within_bound(final(self)@),
    {
        let ghost before = self@.subscribers;
        let mut i: usize = 0;
        while i < self.subscribers.len()
            invariant
                i <= self.subscribers.len(),
                self.subscribers.len() == before.len(),
                self.capacity == old(self).capacity,
                old(self)@.subscribers == before,
                fanout_within_bound(old(self)@),
                forall|j: int| 0 <= j < i ==> (#[trigger] self.subscribers@[j])@ == offered(before[j], event@),
                forall|j: int|
                    i <= j < self.subscribers.len() ==> (#[trigger] self.subscribers@[j])@
                        == before[j],
            decreases self.subscribers.len() - i,
        {
            proof {
                assert(within_bound(before[i as int]));
            }
            self.subscribers[i].offer(event.clone());
            i += 1;
        }
        proof {
            assert(self@.subscribers =~= published(before, event@));
            assert forall|j: int| 0 <= j < self@.subscribers.len() implies within_bound(
                #[trigger] self@.subscribers[j],
            ) && self@.subscribers[j].capacity == self@.capacity by {
                assert(within_bound(before[j]));
            }
        }
        i
    }

    /// Reads once for subscriber `id`; `None` where there is no such
    /// subscriber.
    pub fn recv(&mut self, id: usize) -> (delivery: Option<Delivery>)
        requires
            fanout_within_bound(old(self)@),
        ensures
            final(self)@.capacity == old(self)@.capacity,
            id >= old(self)@.subscribers.len() ==> delivery is None && final(self)@ == old(self)@,
            id < old(self)@.subscribers.len() ==> delivery is Some && delivery.unwrap()@
                == next_delivery(old(self)@.subscribers[id as int]) && final(self)@.subscribers
                == old(self)@.subscribers.update(
                id as int,
                after_delivery(old(self)@.subscribers[id as int]),
            ),
            fanout_within_bound(final(self)@),
    {
        if id >= self.subscribers.len() {
            return None;
        }
        let ghost before = self@.subscribers;
        proof {
            assert(within_bound(before[id as int]));
        }
        let delivery = self.subscribers[id].take();
        proof {
            assert(self@.subscribers =~= before.update(id as int, after_delivery(before[id as int])));
            assert forall|j: int| 0 <= j < self@.subscribers.len() implies within_bound(
                #[trigger] self@.subscribers[j],
            ) && self@.subscribers[j].capacity == self@.capacity by {
                assert(within_bound(before[j]));
            }
        }
        Some(delivery)
    }
}

/// The drop counter after `drops` more drops.
pub open spec fn counted(missed: nat, drops: nat) -> nat {
    if missed + drops <= u64::MAX {
        missed + drops
    } else if missed <= u64::MAX {
        u64::MAX as nat
    } else {
        missed
    }
}

/// How many events a queue drops when `offers` events are offered to it.
pub open spec fn overflow(sub: SubscriptionView, offers: nat) -> nat {
    if sub.pending.len() + offers > sub.capacity {
        (sub.pending.len() + offers - sub.capacity) as nat
    } else {
        0
    }
}

/// After any run of offers a queue holds the newest events, as many as fit,
/// and has counted every event that it dropped.
pub proof fn lemma_offered_all(sub: SubscriptionView, events: Seq<NiriEventView>)
    requires
        within_bound(sub),
    ensures
        ({
            let after = offered_all(sub, events);
            let drops = overflow(sub, events.len());
            &&& within_bound(after)
            &&& after.capacity == sub.capacity
            &&& after.pending == (sub.pending + events).skip(drops as int)
            &&& after.missed == counted(sub.missed, drops)
        }),
    decreases events.len(),
{
    if events.len() == 0 {
        assert((sub.pending + events).skip(0) =~= sub.pending);
    } else {
        let front = events.drop_last();
        let last = events.last();
        lemma_offered_all(sub, front);
        let mid = offered_all(sub, front);
        let after = offered(mid, last);
        let drops = overflow(sub, events.len());
        assert(sub.pending + events =~= (sub.pending + front).push(last));
        assert(after.pending =~= (sub.pending + events).skip(drops as int));
    }
}

/// Publishing more events than a subscriber's queue holds, while the
/// subscriber does not read, is never held up: every offer goes through,
/// the queue ends with the newest events, and the subscriber's next read
/// reports the gap, after which it reads the events that are left in order.
pub proof fn lemma_overflow_is_reported(sub: SubscriptionView, events: Seq<NiriEventView>)
    requires
        within_bound(sub),
        sub.pending.len() + events.len() > sub.capacity,
    ensures
        ({
            let after = offered_all(sub, events);
            let drops = (sub.pending.len() + events.len() - sub.capacity) as nat;
            &&& after.pending == (sub.pending + events).skip(drops as int)
            &&& after.pending.len() == sub.capacity
            &&& after.missed == counted(sub.missed, drops)
            &&& after.missed > 0
            &&& next_delivery(after) == DeliveryView::Lagged(after.missed)
            &&& after_delivery(after).pending == after.pending
            &&& after_delivery(after).missed == 0
            &&& next_delivery(after_delivery(after)) == DeliveryView::Event(after.pending[0])
        }),
{
    lemma_offered_all(sub, events);
}

} // verus!
