//! Tests of the polling pool: bounded concurrency, FIFO delivery,
//! loss-free shutdown, terminal-error isolation.

use pollers::poll_buffer::PollBuffer;
use pollers::poller::Poller;
use pollers::status::{StatusCode, TerminalError};

fn not_found() -> TerminalError {
    TerminalError::new(StatusCode::NotFound, String::from("no such queue"))
}

#[test]
fn scenario_five_successes_then_permanent_failure() {
    // C=3, capacity=5: five successes arrive, then loop 1 hits a
    // permanent "not-found" failure; consumers see five successes and one
    // error, while the other loops keep producing.
    let mut pb: PollBuffer<u32> = PollBuffer::new(String::from("q"), 3, 5);
    // All three loops issue their first RPC.
    assert!(pb.begin_poll());
    assert!(pb.begin_poll());
    assert!(pb.begin_poll());
    assert_eq!(pb.outstanding, 3);
    pb.complete_poll(Ok(1));
    pb.complete_poll(Ok(2));
    pb.complete_poll(Ok(3));
    assert!(pb.begin_poll());
    assert!(pb.begin_poll());
    pb.complete_poll(Ok(4));
    pb.complete_poll(Ok(5));
    // Loop 1's next poll fails permanently; the error is delivered as
    // data.
    assert!(pb.begin_poll());
    pb.complete_poll(Err(not_found()));
    for want in 1..=5u32 {
        assert_eq!(pb.poll(), Some(Ok(want)));
    }
    assert_eq!(pb.poll(), Some(Err(not_found())));
    // The other loops are unaffected and keep producing.
    assert_eq!(pb.active_loops, 3);
    assert!(pb.begin_poll());
    pb.complete_poll(Ok(6));
    assert_eq!(pb.poll(), Some(Ok(6)));
}

#[test]
fn scenario_shutdown_with_one_buffered_item() {
    // One item is buffered; after notify_shutdown the buffered item still
    // comes out, no new RPC is issued, and the next poll returns None.
    let mut pb: PollBuffer<u32> = PollBuffer::new(String::from("q"), 1, 1);
    assert!(pb.begin_poll());
    pb.complete_poll(Ok(7));
    pb.notify_shutdown();
    assert_eq!(pb.poll(), Some(Ok(7)));
    // The loop observes the flag and exits instead of issuing an RPC.
    assert!(!pb.begin_poll());
    assert_eq!(pb.active_loops, 0);
    assert_eq!(pb.poll(), None);
}

#[test]
fn no_loss_on_shutdown() {
    // k buffered results survive shutdown: exactly k polls return them,
    // in order, before any poll returns None.
    let mut pb: PollBuffer<u32> = PollBuffer::new(String::from("q"), 3, 8);
    for v in 10..13u32 {
        assert!(pb.begin_poll());
        pb.complete_poll(Ok(v));
    }
    pb.notify_shutdown();
    while pb.active_loops > 0 {
        assert!(!pb.begin_poll());
    }
    pb.shutdown();
    let drained = pb.drain();
    assert_eq!(drained, vec![Ok(10), Ok(11), Ok(12)]);
    assert_eq!(pb.poll(), None);
    assert_eq!(pb.poll(), None);
}

#[test]
fn shutdown_is_idempotent() {
    // Any number of notify_shutdown calls, then shutdown, reaches the
    // same terminal state as a single signal: flag set, loops drained,
    // buffer intact.
    let mut a: PollBuffer<u32> = PollBuffer::new(String::from("q"), 2, 4);
    let mut b: PollBuffer<u32> = PollBuffer::new(String::from("q"), 2, 4);
    for pb in [&mut a, &mut b] {
        assert!(pb.begin_poll());
        pb.complete_poll(Ok(1));
    }
    a.notify_shutdown();
    a.notify_shutdown();
    a.notify_shutdown();
    b.notify_shutdown();
    assert_eq!(a.shutdown_requested, b.shutdown_requested);
    assert_eq!(a.buffer, b.buffer);
    a.shutdown();
    b.shutdown();
    assert!(a.closed && b.closed);
    assert_eq!(a.poll(), Some(Ok(1)));
    assert_eq!(b.poll(), Some(Ok(1)));
    assert_eq!(a.poll(), None);
    assert_eq!(b.poll(), None);
}

#[test]
fn concurrency_stays_bounded() {
    // The pool never lets more loops than configured hold an RPC: only an
    // idle loop can begin one, so outstanding never exceeds C.
    let mut pb: PollBuffer<u32> = PollBuffer::new(String::from("q"), 2, 4);
    assert!(pb.begin_poll());
    assert!(pb.begin_poll());
    assert_eq!(pb.outstanding, 2);
    assert!(pb.outstanding <= pb.concurrency);
    pb.complete_poll(Ok(1));
    assert_eq!(pb.outstanding, 1);
    assert!(pb.begin_poll());
    assert_eq!(pb.outstanding, 2);
    assert!(pb.outstanding <= pb.concurrency);
}

#[test]
fn backpressure_bounds_the_buffer() {
    // With capacity 2, two results fill the buffer; a consumer must make
    // room before another completion may be enqueued.
    let mut pb: PollBuffer<u32> = PollBuffer::new(String::from("q"), 2, 2);
    assert!(pb.begin_poll());
    assert!(pb.begin_poll());
    pb.complete_poll(Ok(1));
    pb.complete_poll(Ok(2));
    assert_eq!(pb.buffer.len(), 2);
    assert_eq!(pb.poll(), Some(Ok(1)));
    assert!(pb.begin_poll());
    pb.complete_poll(Ok(3));
    assert_eq!(pb.buffer.len(), 2);
}

#[test]
fn terminal_error_does_not_stop_other_loops() {
    let mut pb: PollBuffer<u32> = PollBuffer::new(String::from("q"), 2, 4);
    assert!(pb.begin_poll());
    assert!(pb.begin_poll());
    pb.complete_poll(Err(not_found()));
    assert_eq!(pb.active_loops, 2);
    assert!(!pb.shutdown_requested);
    // The loop that failed, and the other one, both keep polling.
    assert!(pb.begin_poll());
    pb.complete_poll(Ok(9));
    assert_eq!(pb.poll(), Some(Err(not_found())));
    assert_eq!(pb.poll(), Some(Ok(9)));
}

#[test]
fn boxed_poller_shuts_down() {
    let mut pb: PollBuffer<u32> = PollBuffer::new(String::from("q"), 1, 1);
    assert!(pb.begin_poll());
    pb.complete_poll(Ok(5));
    pb.notify_shutdown();
    assert!(!pb.begin_poll());
    let boxed: Box<PollBuffer<u32>> = Box::new(pb);
    boxed.shutdown_box();
}
