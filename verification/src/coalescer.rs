//! The coalescer: a batch of items and the flag of its window.
//!
//! A coalescer is idle or has a window open. An item that arrives while it is
//! idle opens a window and asks for one flush to be scheduled; an item that
//! arrives while a window is open is only appended. The scheduled flush takes
//! the whole batch when its delay has passed, so that items arriving later
//! gather in a fresh batch, and the window closes once the message has been
//! sent, or at once where there was nothing to send.
//!
//! The coalescer neither waits nor sends. Its caller holds it behind whatever
//! gives exclusive access, calls one method at a time, and does what the
//! method's result asks for.

use vstd::prelude::*;

use crate::item::{Item, ItemView};
use crate::message::{compose, composed, item_views};

verus! {

/// The delay between the opening of a window and its flush, in seconds, for
/// callers that have no reason to choose another.
pub const DEFAULT_DELAY_SECS: u64 = 5;

/// What the caller of [`BatchCoalescer::enqueue`] has to do next.
#[derive(Clone, Copy, Debug, PartialEq, Eq, Structural)]
pub enum EnqueueAction {
    /// The item joined a window that was open already: nothing is to be done.
    Appended,
    /// The item opened a window: schedule one flush, to begin after
    /// `delay_secs` seconds.
    ScheduleFlush { delay_secs: u64 },
}

/// Why a message did not reach the notification channel.
#[derive(Debug)]
pub struct DeliveryError {
    /// What the channel reported.
    pub detail: String,
}

/// The mathematical value of a [`BatchCoalescer`].
pub struct CoalescerView {
    /// The items that arrived since the last flush took its batch, oldest
    /// first.
    pub batch: Seq<ItemView>,
    /// Whether a flush is scheduled, or begun and not yet finished.
    pub window_open: bool,
    /// The delay between the opening of a window and its flush, in seconds.
    pub delay_secs: u64,
}

impl CoalescerView {
    /// The coalescer as it starts: no item, no window.
    pub open spec fn idle(delay_secs: u64) -> CoalescerView {
        CoalescerView { batch: Seq::empty(), window_open: false, delay_secs }
    }

    /// What an arriving item asks of the caller: a flush to schedule where no
    /// window is open, nothing where one is.
    pub open spec fn enqueue_action(self) -> EnqueueAction {
        if self.window_open {
            EnqueueAction::Appended
        } else {
            EnqueueAction::ScheduleFlush { delay_secs: self.delay_secs }
        }
    }

    /// The coalescer after an item has arrived: the item is last in the batch
    /// and a window is open.
    pub open spec fn enqueued(self, item: ItemView) -> CoalescerView {
        CoalescerView { batch: self.batch.push(item), window_open: true, ..self }
    }

    /// The message that a flush beginning now has to send: the whole batch
    /// composed, or none where the batch is empty.
    pub open spec fn flush_message(self) -> Option<Seq<char>> {
        if self.batch.len() == 0 {
            None
        } else {
            Some(composed(self.batch))
        }
    }

    /// The coalescer after a flush has begun: the batch is empty, and the
    /// window is closed already where there was nothing to send.
    pub open spec fn flush_begun(self) -> CoalescerView {
        CoalescerView {
            batch: Seq::empty(),
            window_open: self.window_open && self.batch.len() > 0,
            ..self
        }
    }

    /// The coalescer after the send of a flush has come back: the window is
    /// closed, and the items that arrived meanwhile are still in the batch.
    pub open spec fn flush_finished(self) -> CoalescerView {
        CoalescerView { window_open: false, ..self }
    }
}

/// A batch of items and the flag of its window.
pub struct BatchCoalescer {
    batch: Vec<Item>,
    window_open: bool,
    delay_secs: u64,
}

impl View for BatchCoalescer {
    type V = CoalescerView;

    closed spec fn view(&self) -> CoalescerView {
        CoalescerView {
            batch: item_views(self.batch@),
            window_open: self.window_open,
            delay_secs: self.delay_secs,
        }
    }
}

impl BatchCoalescer {
    /// Makes an idle coalescer with an empty batch, whose windows last
    /// `delay_secs` seconds.
    pub fn new(delay_secs: u64) -> (coalescer: BatchCoalescer)
        ensures
            coalescer@ == CoalescerView::idle(delay_secs),
    {
        let coalescer = BatchCoalescer { batch: Vec::new(), window_open: false, delay_secs };
        proof {
            assert(item_views(coalescer.batch@) =~= Seq::empty());
        }
        coalescer
    }

    /// Takes one item in. The item goes to the end of the batch. Where no
    /// window was open, one is opened and the result asks the caller to
    /// schedule its flush; where one was open, nothing else happens.
    ///
    /// To test for the window and to open it is one step, so that of any
    /// number of callers that take turns exactly one is asked to schedule a
    /// flush.
    pub fn enqueue(&mut self, item: Item) -> (action: EnqueueAction)
        ensures
            final(self)@ == old(self)@.enqueued(item@),
            action == old(self)@.enqueue_action(),
    {
        let action = if self.window_open {
            EnqueueAction::Appended
        } else {
            EnqueueAction::ScheduleFlush { delay_secs: self.delay_secs }
        };
        self.batch.push(item);
        self.window_open = true;
        proof {
            assert(item_views(self.batch@) =~= item_views(old(self).batch@).push(item@));
        }
        action
    }

    /// Begins a flush: takes the whole batch, leaving an empty one behind, and
    /// returns the message to send. Items that arrive from now on belong to
    /// the next window.
    ///
    /// Where the batch was empty there is nothing to send: the result is
    /// `None` and the window is closed at once, so that the next item opens a
    /// new one. Otherwise the window stays open until
    /// [`finish_flush`](Self::finish_flush) is called.
    pub fn begin_flush(&mut self) -> (message: Option<String>)
        ensures
            final(self)@ == old(self)@.flush_begun(),
            match message {
                Some(text) => old(self)@.flush_message() == Some(text@),
                None => old(self)@.flush_message() is None,
            },
    {
        let mut taken: Vec<Item> = Vec::new();
        core::mem::swap(&mut self.batch, &mut taken);
        proof {
            assert(item_views(self.batch@) =~= Seq::empty());
        }
        if taken.len() == 0 {
            self.window_open = false;
            None
        } else {
            Some(compose(&taken))
        }
    }

    /// Finishes a flush once the send of its message has come back, with
    /// success or with failure: closes the window.
    ///
    /// A message that could not be delivered is dropped. It is not sent again,
    /// and its items do not return to the batch, which holds what arrived
    /// since the flush began.
    pub fn finish_flush(&mut self, outcome: Result<(), DeliveryError>)
        ensures
            final(self)@ == old(self)@.flush_finished(),
    {
        let _ = outcome;
        self.window_open = false;
    }

    /// Whether a flush is scheduled, or begun and not yet finished.
    pub fn is_window_open(&self) -> (open: bool)
        ensures
            open == self@.window_open,
    {
        self.window_open
    }

    /// The number of items in the batch.
    pub fn len(&self) -> (len: usize)
        ensures
            len == self@.batch.len(),
    {
        self.batch.len()
    }

    /// Whether the batch holds no item.
    pub fn is_empty(&self) -> (empty: bool)
        ensures
            empty == (self@.batch.len() == 0),
    {
        self.batch.len() == 0
    }

    /// The delay between the opening of a window and its flush, in seconds.
    pub fn delay_secs(&self) -> (delay_secs: u64)
        ensures
            delay_secs == self@.delay_secs,
    {
        self.delay_secs
    }
}

} // verus!
