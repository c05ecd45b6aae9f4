//! The coalescer together with the flush tasks that its caller runs.
//!
//! A caller schedules a flush task whenever
//! [`enqueue`](crate::coalescer::BatchCoalescer::enqueue) asks for one. The
//! task waits out the delay, begins the flush, sends the message if there is
//! one, and finishes the flush. Producers and tasks take turns at the
//! coalescer in whatever order the scheduler gives them.
//!
//! This module models that arrangement as a transition system over the
//! coalescer's mathematical value and proves, for every order of events, that
//! a window has exactly one flush task, that no two sends overlap, and that
//! every item is sent once, in its place.

use vstd::prelude::*;

use crate::coalescer::{CoalescerView, EnqueueAction};
use crate::item::ItemView;
use crate::message::composed;

verus! {

/// One turn at the coalescer.
pub enum Event {
    /// A producer hands an item in.
    Enqueue(ItemView),
    /// The delay of a scheduled flush task has passed: the task begins its
    /// flush, and starts to send where there is a message.
    TimerFires,
    /// The send of a flush task has come back, with success or with failure:
    /// the task finishes its flush.
    SendReturns,
}

/// A coalescer, the flush tasks around it, and what has been sent so far.
pub struct System {
    /// The coalescer.
    pub coalescer: CoalescerView,
    /// The number of flush tasks that wait for their delay to pass.
    pub scheduled: nat,
    /// The number of flush tasks that are sending a message.
    pub sending: nat,
    /// The batches that flushes took and sent, oldest first.
    pub batches: Seq<Seq<ItemView>>,
    /// The messages handed to the notification channel, oldest first.
    pub sent: Seq<Seq<char>>,
}

impl System {
    /// The system as it starts: an idle coalescer, no task, nothing sent.
    pub open spec fn start(delay_secs: u64) -> System {
        System {
            coalescer: CoalescerView::idle(delay_secs),
            scheduled: 0,
            sending: 0,
            batches: Seq::empty(),
            sent: Seq::empty(),
        }
    }

    /// Whether an event can happen now. An item may arrive at any time; a
    /// timer fires only for a task that waits, and a send comes back only for
    /// a task that sends.
    pub open spec fn admits(self, event: Event) -> bool {
        match event {
            Event::Enqueue(_) => true,
            Event::TimerFires => self.scheduled > 0,
            Event::SendReturns => self.sending > 0,
        }
    }

    /// The system after one event.
    pub open spec fn step(self, event: Event) -> System {
        match event {
            Event::Enqueue(item) => System {
                coalescer: self.coalescer.enqueued(item),
                scheduled: if self.coalescer.enqueue_action() is ScheduleFlush {
                    self.scheduled + 1
                } else {
                    self.scheduled
                },
                ..self
            },
            Event::TimerFires => match self.coalescer.flush_message() {
                Some(text) => System {
                    coalescer: self.coalescer.flush_begun(),
                    scheduled: (self.scheduled - 1) as nat,
                    sending: self.sending + 1,
                    batches: self.batches.push(self.coalescer.batch),
                    sent: self.sent.push(text),
                },
                None => System {
                    coalescer: self.coalescer.flush_begun(),
                    scheduled: (self.scheduled - 1) as nat,
                    ..self
                },
            },
            Event::SendReturns => System {
                coalescer: self.coalescer.flush_finished(),
                sending: (self.sending - 1) as nat,
                ..self
            },
        }
    }

    /// The system after a sequence of events, the first of them first.
    pub open spec fn run(self, events: Seq<Event>) -> System
        decreases events.len(),
    {
        if events.len() == 0 {
            self
        } else {
            self.run(events.drop_last()).step(events.last())
        }
    }

    /// Whether a sequence of events can happen from here, each event at the
    /// point that the ones before it lead to.
    pub open spec fn admits_all(self, events: Seq<Event>) -> bool
        decreases events.len(),
    {
        events.len() == 0 || (self.admits_all(events.drop_last()) && self.run(
            events.drop_last(),
        ).admits(events.last()))
    }

    /// The window flag counts the flush tasks: while a window is open exactly
    /// one task is waiting or sending, and while none is open there is no
    /// task at all.
    pub open spec fn single_flight(self) -> bool {
        self.scheduled + self.sending == if self.coalescer.window_open {
            1nat
        } else {
            0nat
        }
    }

    /// Whether the system is at rest: no window, no task.
    pub open spec fn at_rest(self) -> bool {
        !self.coalescer.window_open && self.scheduled == 0 && self.sending == 0
    }
}

/// The arrival of each item of a sequence, in order.
pub open spec fn enqueues(items: Seq<ItemView>) -> Seq<Event> {
    Seq::new(items.len(), |i: int| Event::Enqueue(items[i]))
}

/// The items that a sequence of events hands in, in order.
pub open spec fn arrived(events: Seq<Event>) -> Seq<ItemView>
    decreases events.len(),
{
    if events.len() == 0 {
        Seq::empty()
    } else {
        match events.last() {
            Event::Enqueue(item) => arrived(events.drop_last()).push(item),
            _ => arrived(events.drop_last()),
        }
    }
}

/// Any event that can happen keeps the flush tasks in step with the window
/// flag.
pub proof fn lemma_step_keeps_single_flight(system: System, event: Event)
    requires
        system.single_flight(),
        system.admits(event),
    ensures
        system.step(event).single_flight(),
{
}

/// Whatever the order in which producers and flush tasks take their turns,
/// the window flag is set exactly while one flush task is waiting or sending.
/// So at most one flush is scheduled at any time, and at most one send is on
/// its way.
pub proof fn lemma_single_flight(delay_secs: u64, events: Seq<Event>)
    requires
        System::start(delay_secs).admits_all(events),
    ensures
        System::start(delay_secs).run(events).single_flight(),
        System::start(delay_secs).run(events).scheduled <= 1,
        System::start(delay_secs).run(events).sending <= 1,
    decreases events.len(),
{
    if events.len() > 0 {
        lemma_single_flight(delay_secs, events.drop_last());
        lemma_step_keeps_single_flight(
            System::start(delay_secs).run(events.drop_last()),
            events.last(),
        );
    }
}

/// Whatever the order of events, the batches sent so far, one after another,
/// followed by the items still in the batch are the items that arrived, each
/// once and in arrival order: no flush loses an item, sends one twice, or
/// lets one overtake another.
pub proof fn lemma_every_item_once(delay_secs: u64, events: Seq<Event>)
    requires
        System::start(delay_secs).admits_all(events),
    ensures
        ({
            let system = System::start(delay_secs).run(events);
            system.batches.flatten() + system.coalescer.batch == arrived(events)
        }),
    decreases events.len(),
{
    let start = System::start(delay_secs);
    if events.len() == 0 {
        assert(start.batches.flatten() + start.coalescer.batch =~= arrived(events));
    } else {
        lemma_every_item_once(delay_secs, events.drop_last());
        let before = start.run(events.drop_last());
        let after = before.step(events.last());
        before.batches.lemma_flatten_push(before.coalescer.batch);
        assert(after.batches.flatten() + after.coalescer.batch =~= arrived(events));
    }
}

/// Whatever the order of events, each message handed to the channel is one
/// batch composed, and no batch that was sent is empty.
pub proof fn lemma_each_message_is_a_batch(delay_secs: u64, events: Seq<Event>)
    requires
        System::start(delay_secs).admits_all(events),
    ensures
        ({
            let system = System::start(delay_secs).run(events);
            &&& system.sent.len() == system.batches.len()
            &&& forall|i: int|
                0 <= i < system.batches.len() ==> (#[trigger] system.batches[i]).len() > 0
                    && system.sent[i] == composed(system.batches[i])
        }),
    decreases events.len(),
{
    if events.len() > 0 {
        lemma_each_message_is_a_batch(delay_secs, events.drop_last());
    }
}

/// Whatever the order of events, a flush task that waits finds at least one
/// item when its timer fires: every window sends a message.
pub proof fn lemma_every_window_sends(delay_secs: u64, events: Seq<Event>)
    requires
        System::start(delay_secs).admits_all(events),
        System::start(delay_secs).run(events).admits(Event::TimerFires),
    ensures
        System::start(delay_secs).run(events).coalescer.flush_message() is Some,
{
    lemma_waiting_task_has_items(delay_secs, events);
}

proof fn lemma_waiting_task_has_items(delay_secs: u64, events: Seq<Event>)
    requires
        System::start(delay_secs).admits_all(events),
    ensures
        ({
            let system = System::start(delay_secs).run(events);
            system.scheduled > 0 ==> system.coalescer.batch.len() > 0
        }),
    decreases events.len(),
{
    if events.len() > 0 {
        lemma_waiting_task_has_items(delay_secs, events.drop_last());
        lemma_single_flight(delay_secs, events.drop_last());
    }
}

/// Items that arrive one after another, with no other event between them,
/// all join the batch in their order, and together they schedule one flush
/// where no window was open and none where one was.
pub proof fn lemma_enqueues_schedule_once(system: System, items: Seq<ItemView>)
    ensures
        system.admits_all(enqueues(items)),
        ({
            let after = system.run(enqueues(items));
            &&& after.coalescer.batch == system.coalescer.batch + items
            &&& after.coalescer.window_open == (system.coalescer.window_open || items.len() > 0)
            &&& after.coalescer.delay_secs == system.coalescer.delay_secs
            &&& after.scheduled == system.scheduled + if !system.coalescer.window_open
                && items.len() > 0 {
                1nat
            } else {
                0nat
            }
            &&& after.sending == system.sending
            &&& after.batches == system.batches
            &&& after.sent == system.sent
        }),
    decreases items.len(),
{
    if items.len() == 0 {
        assert(system.coalescer.batch + items =~= system.coalescer.batch);
    } else {
        lemma_enqueues_schedule_once(system, items.drop_last());
        assert(enqueues(items).drop_last() =~= enqueues(items.drop_last()));
        assert(enqueues(items).last() == Event::Enqueue(items.last()));
        assert((system.coalescer.batch + items.drop_last()).push(items.last())
            =~= system.coalescer.batch + items);
    }
}

/// A burst of items that arrives at a system at rest, in any number and
/// however close together, schedules exactly one flush. When that flush
/// begins, exactly one message is handed to the channel: the batch composed,
/// with every item of the burst in its arrival order. When the send comes
/// back the system is at rest again, with an empty batch.
pub proof fn lemma_burst_is_one_message(system: System, items: Seq<ItemView>)
    requires
        system.at_rest(),
        items.len() > 0,
    ensures
        ({
            let burst = system.run(enqueues(items));
            let flushing = burst.step(Event::TimerFires);
            let done = flushing.step(Event::SendReturns);
            &&& system.admits_all(enqueues(items))
            &&& burst.scheduled == 1
            &&& burst.sending == 0
            &&& burst.sent == system.sent
            &&& burst.admits(Event::TimerFires)
            &&& flushing.scheduled == 0
            &&& flushing.sending == 1
            &&& flushing.batches == system.batches.push(system.coalescer.batch + items)
            &&& flushing.sent == system.sent.push(composed(system.coalescer.batch + items))
            &&& system.coalescer.batch.len() == 0 ==> flushing.sent == system.sent.push(
                composed(items),
            )
            &&& flushing.admits(Event::SendReturns)
            &&& done.at_rest()
            &&& done.coalescer.batch.len() == 0
            &&& done.sent == flushing.sent
        }),
{
    lemma_enqueues_schedule_once(system, items);
    if system.coalescer.batch.len() == 0 {
        assert(system.coalescer.batch + items =~= items);
    }
}

/// Once a flush has begun, the message that it sends is settled. Items that
/// arrive while the send is on its way are not part of it and schedule
/// nothing: they wait in the batch. After the send has come back, the next
/// item to arrive opens a new window, and the flush of that window sends the
/// items that waited, followed by that item.
pub proof fn lemma_late_items_go_to_next_window(
    system: System,
    late: Seq<ItemView>,
    next: ItemView,
)
    requires
        system.single_flight(),
        system.admits(Event::TimerFires),
        system.coalescer.batch.len() > 0,
    ensures
        ({
            let begun = system.step(Event::TimerFires);
            let during = begun.run(enqueues(late));
            let done = during.step(Event::SendReturns);
            let reopened = done.step(Event::Enqueue(next));
            let second = reopened.step(Event::TimerFires);
            &&& begun.sent == system.sent.push(composed(system.coalescer.batch))
            &&& begun.admits_all(enqueues(late))
            &&& during.sent == begun.sent
            &&& during.scheduled == 0
            &&& during.sending == 1
            &&& during.coalescer.batch == late
            &&& done.at_rest()
            &&& done.coalescer.batch == late
            &&& reopened.scheduled == 1
            &&& second.sent == begun.sent.push(composed(late.push(next)))
        }),
{
    let begun = system.step(Event::TimerFires);
    lemma_enqueues_schedule_once(begun, late);
    assert(begun.coalescer.batch + late =~= late);
}

/// A flush that finds the batch empty sends nothing and closes the window at
/// once. The next item to arrive then opens a new window and asks for its
/// flush, and the item after that is only appended.
pub proof fn lemma_empty_flush_closes_window(coalescer: CoalescerView, item: ItemView)
    requires
        coalescer.batch.len() == 0,
    ensures
        coalescer.flush_message() is None,
        !coalescer.flush_begun().window_open,
        coalescer.flush_begun().enqueue_action() == (EnqueueAction::ScheduleFlush {
            delay_secs: coalescer.delay_secs,
        }),
        coalescer.flush_begun().enqueued(item).window_open,
        coalescer.flush_begun().enqueued(item).enqueue_action() == EnqueueAction::Appended,
{
}

} // verus!
