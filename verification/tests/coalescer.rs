use batch_coalescer::{BatchCoalescer, DeliveryError, EnqueueAction, Item, DEFAULT_DELAY_SECS};

fn plain(text: &str) -> Item {
    Item::new(text.to_string(), None)
}

fn from(origin: &str, text: &str) -> Item {
    Item::new(text.to_string(), Some(origin.to_string()))
}

#[test]
fn default_delay_is_five_seconds() {
    assert_eq!(DEFAULT_DELAY_SECS, 5);
}

#[test]
fn new_coalescer_is_idle_and_empty() {
    let coalescer = BatchCoalescer::new(DEFAULT_DELAY_SECS);
    assert!(!coalescer.is_window_open());
    assert!(coalescer.is_empty());
    assert_eq!(coalescer.len(), 0);
    assert_eq!(coalescer.delay_secs(), 5);
}

#[test]
fn first_enqueue_opens_window_and_schedules() {
    let mut coalescer = BatchCoalescer::new(5);
    let action = coalescer.enqueue(plain("x"));
    assert_eq!(action, EnqueueAction::ScheduleFlush { delay_secs: 5 });
    assert!(coalescer.is_window_open());
    assert_eq!(coalescer.len(), 1);
    assert!(!coalescer.is_empty());
}

#[test]
fn schedule_carries_the_configured_delay() {
    let mut coalescer = BatchCoalescer::new(60);
    assert_eq!(coalescer.delay_secs(), 60);
    assert_eq!(
        coalescer.enqueue(plain("x")),
        EnqueueAction::ScheduleFlush { delay_secs: 60 }
    );
    let mut immediate = BatchCoalescer::new(0);
    assert_eq!(
        immediate.enqueue(plain("x")),
        EnqueueAction::ScheduleFlush { delay_secs: 0 }
    );
}

#[test]
fn enqueues_in_open_window_only_append() {
    let mut coalescer = BatchCoalescer::new(5);
    assert_eq!(
        coalescer.enqueue(plain("0")),
        EnqueueAction::ScheduleFlush { delay_secs: 5 }
    );
    for i in 1..50 {
        assert_eq!(
            coalescer.enqueue(plain(&i.to_string())),
            EnqueueAction::Appended
        );
        assert_eq!(coalescer.len(), i + 1);
        assert!(coalescer.is_window_open());
    }
}

#[test]
fn burst_is_sent_as_one_message_in_arrival_order() {
    let mut coalescer = BatchCoalescer::new(5);
    let mut scheduled = 0;
    let mut expected: Vec<String> = Vec::new();
    for i in 0..200 {
        let action = if i % 2 == 0 {
            expected.push(format!("From p{}: n{}", i % 7, i));
            coalescer.enqueue(from(&format!("p{}", i % 7), &format!("n{}", i)))
        } else {
            expected.push(format!("n{}", i));
            coalescer.enqueue(plain(&format!("n{}", i)))
        };
        if action != EnqueueAction::Appended {
            scheduled += 1;
        }
    }
    assert_eq!(scheduled, 1);
    let message = coalescer.begin_flush();
    assert_eq!(message, Some(expected.join("\n\n")));
    assert!(coalescer.is_empty());
    assert!(coalescer.is_window_open());
    coalescer.finish_flush(Ok(()));
    assert!(!coalescer.is_window_open());
    assert!(coalescer.is_empty());
}

#[test]
fn begin_flush_takes_the_whole_batch() {
    let mut coalescer = BatchCoalescer::new(5);
    coalescer.enqueue(plain("a"));
    coalescer.enqueue(plain("b"));
    coalescer.enqueue(plain("c"));
    assert_eq!(coalescer.begin_flush(), Some("a\n\nb\n\nc".to_string()));
    assert_eq!(coalescer.len(), 0);
}

#[test]
fn window_stays_open_while_message_is_on_its_way() {
    let mut coalescer = BatchCoalescer::new(5);
    coalescer.enqueue(plain("a"));
    assert!(coalescer.begin_flush().is_some());
    assert!(coalescer.is_window_open());
    assert_eq!(coalescer.enqueue(plain("b")), EnqueueAction::Appended);
}

#[test]
fn empty_flush_sends_nothing_and_closes_window() {
    let mut coalescer = BatchCoalescer::new(5);
    coalescer.enqueue(plain("a"));
    assert_eq!(coalescer.begin_flush(), Some("a".to_string()));
    // A second flush of the same window finds nothing left.
    assert_eq!(coalescer.begin_flush(), None);
    assert!(!coalescer.is_window_open());
    assert!(coalescer.is_empty());
}

#[test]
fn enqueue_after_empty_flush_opens_new_window() {
    let mut coalescer = BatchCoalescer::new(5);
    coalescer.enqueue(plain("a"));
    coalescer.begin_flush();
    assert_eq!(coalescer.begin_flush(), None);
    assert!(!coalescer.is_window_open());
    assert_eq!(
        coalescer.enqueue(plain("b")),
        EnqueueAction::ScheduleFlush { delay_secs: 5 }
    );
    assert_eq!(coalescer.enqueue(plain("c")), EnqueueAction::Appended);
    assert!(coalescer.is_window_open());
    assert_eq!(coalescer.begin_flush(), Some("b\n\nc".to_string()));
}

#[test]
fn flush_of_idle_coalescer_leaves_it_idle() {
    let mut coalescer = BatchCoalescer::new(5);
    assert_eq!(coalescer.begin_flush(), None);
    assert!(!coalescer.is_window_open());
    assert!(coalescer.is_empty());
    assert_eq!(
        coalescer.enqueue(plain("a")),
        EnqueueAction::ScheduleFlush { delay_secs: 5 }
    );
}

#[test]
fn finish_flush_closes_window_and_keeps_batch() {
    let mut coalescer = BatchCoalescer::new(5);
    coalescer.enqueue(plain("a"));
    coalescer.begin_flush();
    coalescer.enqueue(plain("late 1"));
    coalescer.enqueue(plain("late 2"));
    coalescer.finish_flush(Ok(()));
    assert!(!coalescer.is_window_open());
    assert_eq!(coalescer.len(), 2);
}

#[test]
fn failed_delivery_is_dropped_not_requeued() {
    let mut coalescer = BatchCoalescer::new(5);
    coalescer.enqueue(plain("lost"));
    assert_eq!(coalescer.begin_flush(), Some("lost".to_string()));
    coalescer.finish_flush(Err(DeliveryError {
        detail: "connection reset".to_string(),
    }));
    assert!(!coalescer.is_window_open());
    assert!(coalescer.is_empty());
    assert_eq!(coalescer.begin_flush(), None);
}

#[test]
fn late_items_appear_only_in_next_message() {
    let mut coalescer = BatchCoalescer::new(5);
    assert_eq!(
        coalescer.enqueue(plain("early")),
        EnqueueAction::ScheduleFlush { delay_secs: 5 }
    );
    let first = coalescer.begin_flush();
    // The send of `first` is on its way while these arrive.
    assert_eq!(coalescer.enqueue(from("u2", "late")), EnqueueAction::Appended);
    assert_eq!(coalescer.enqueue(plain("later")), EnqueueAction::Appended);
    assert_eq!(first, Some("early".to_string()));
    coalescer.finish_flush(Ok(()));
    assert!(!coalescer.is_window_open());
    assert_eq!(coalescer.len(), 2);

    assert_eq!(
        coalescer.enqueue(plain("next")),
        EnqueueAction::ScheduleFlush { delay_secs: 5 }
    );
    assert_eq!(
        coalescer.begin_flush(),
        Some("From u2: late\n\nlater\n\nnext".to_string())
    );
    coalescer.finish_flush(Ok(()));
    assert!(coalescer.is_empty());
    assert!(!coalescer.is_window_open());
}

#[test]
fn delay_does_not_change_over_windows() {
    let mut coalescer = BatchCoalescer::new(9);
    for round in 0..4 {
        assert_eq!(
            coalescer.enqueue(plain(&round.to_string())),
            EnqueueAction::ScheduleFlush { delay_secs: 9 }
        );
        assert_eq!(coalescer.begin_flush(), Some(round.to_string()));
        coalescer.finish_flush(Ok(()));
        assert_eq!(coalescer.delay_secs(), 9);
    }
}
