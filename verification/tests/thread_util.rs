//! Scenarios of the latest-wins mailbox.

use mnemo::thread_util::LatestWinsWorker;

#[test]
fn delivers_values_in_order_when_drained() {
    let mut w: LatestWinsWorker<u32> = LatestWinsWorker::new();
    assert!(w.is_empty());
    w.submit(1);
    assert_eq!(w.take(), Some(1));
    w.submit(2);
    assert_eq!(w.take(), Some(2));
    assert_eq!(w.take(), None);
}

#[test]
fn coalesces_to_latest_while_consumer_is_busy() {
    let mut w: LatestWinsWorker<u32> = LatestWinsWorker::new();
    w.submit(1);
    w.submit(2);
    w.submit(3);
    assert_eq!(w.take(), Some(3));
    assert!(w.is_empty());
}
