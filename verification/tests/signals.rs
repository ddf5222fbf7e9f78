use module_host::signals::{Delivery, SignalBuffer, Signals};

fn pairs(plan: &[Delivery]) -> Vec<(usize, Option<usize>)> {
    plan.iter().map(|delivery| (delivery.subscription, delivery.row)).collect()
}

#[test]
fn draining_returns_an_entitys_rows_in_capture_order_and_keeps_the_rest() {
    let mut buffer: SignalBuffer<i32, ()> = SignalBuffer::new();
    buffer.capture("probes", 1, ());
    buffer.capture("other", 100, ());
    buffer.capture("probes", 2, ());
    assert_eq!(buffer.drain("probes"), vec![1, 2]);
    assert_eq!(buffer.drain("probes"), Vec::<i32>::new());
    assert_eq!(buffer.drain("other"), vec![100]);
}

#[test]
fn a_blocked_write_set_discards_only_its_entitys_rows() {
    let mut buffer: SignalBuffer<i32, ()> = SignalBuffer::new();
    buffer.capture("probes", 1, ());
    buffer.capture("other", 7, ());
    buffer.discard("probes");
    assert_eq!(buffer.drain("probes"), Vec::<i32>::new());
    assert_eq!(buffer.drain("other"), vec![7]);
}

#[test]
fn refreshing_replaces_amended_rows_in_order() {
    let mut buffer: SignalBuffer<i32, &str> = SignalBuffer::new();
    buffer.capture("rows", 1, "first");
    buffer.capture("other", 50, "other");
    buffer.capture("rows", 2, "second");
    buffer.capture("rows", 3, "third");
    buffer.refresh("rows", vec![Some(10), None]);
    assert_eq!(buffer.drain("rows"), vec![10, 2, 3]);
    assert_eq!(buffer.drain("other"), vec![50]);
}

#[test]
fn buffered_rows_are_found_with_their_captures() {
    let mut buffer: SignalBuffer<i32, &str> = SignalBuffer::new();
    buffer.capture("a", 1, "capture-a");
    buffer.capture("b", 2, "capture-b");
    buffer.capture("a", 3, "capture-a2");
    let positions = buffer.positions_of("a");
    assert_eq!(positions, vec![0, 2]);
    assert_eq!(*buffer.capture_at(2), "capture-a2");
}

#[test]
fn only_subscribers_of_the_watched_entity_are_called_once_per_row() {
    let signals: Signals<(), &str> = Signals::new()
        .on("probes", (), "first")
        .on("other", (), "unrelated")
        .on("probes", (), "second");
    assert_eq!(signals.subscribers("probes"), vec![0, 2]);
    assert_eq!(*signals.handler_at(2), "second");
    assert_eq!(
        pairs(&signals.watch_plan("probes", 2)),
        vec![(0, Some(0)), (0, Some(1)), (2, Some(0)), (2, Some(1))],
    );
}

#[test]
fn a_watch_without_captured_rows_calls_each_subscriber_once_without_a_row() {
    let signals: Signals<(), ()> = Signals::new().on("probes", (), ()).on("probes", (), ());
    assert_eq!(pairs(&signals.watch_plan("probes", 0)), vec![(0, None), (1, None)]);
    assert!(signals.watch_plan("nobody", 3).is_empty());
}
