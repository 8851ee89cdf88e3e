//! End-to-end runs driven by a miniature cooperative scheduler: each side
//! runs until its step suspends, and a suspended side runs again only once a
//! step returns its continuation handle. A state where neither side can run
//! before the transfer is complete is a lost wake, and fails the test.

use spsc_rs::error::TryRecvError;
use spsc_rs::poll::{Poll, SendStep};
use spsc_rs::ring::Indexer;
use spsc_rs::{channel, Channel, SendError};

const PRODUCER: u64 = 1;
const CONSUMER: u64 = 2;

fn apply_wake(woken: Option<u64>, p_runnable: &mut bool, c_runnable: &mut bool) {
    match woken {
        Some(PRODUCER) => *p_runnable = true,
        Some(CONSUMER) => *c_runnable = true,
        Some(other) => panic!("unknown continuation handle {other}"),
        None => {}
    }
}

/// Producer awaits `send` for 0..n and drops; consumer awaits `recv` to the
/// end. Returns what the consumer observed.
fn drive_send_recv<I: Indexer>(mut c: Channel<u32, I>, n: u32) -> Vec<u32> {
    let mut got = Vec::new();
    let mut next: u32 = 0;
    let mut producer_done = false;
    let mut consumer_done = false;
    let mut p_runnable = true;
    let mut c_runnable = true;
    while !consumer_done {
        assert!(
            p_runnable || c_runnable,
            "lost wake: both sides suspended with work left"
        );
        if p_runnable && !producer_done {
            if next == n {
                let woken = c.close_producer();
                apply_wake(woken, &mut p_runnable, &mut c_runnable);
                producer_done = true;
            } else {
                match c.poll_send(next, PRODUCER) {
                    (SendStep::Sent, woken) => {
                        next += 1;
                        apply_wake(woken, &mut p_runnable, &mut c_runnable);
                    }
                    (SendStep::Pending(_), woken) => {
                        p_runnable = false;
                        apply_wake(woken, &mut p_runnable, &mut c_runnable);
                    }
                    (SendStep::Disconnected(_), _) => panic!("consumer gone early"),
                }
            }
        } else if c_runnable {
            match c.poll_recv(CONSUMER) {
                (Poll::Ready(Some(v)), woken) => {
                    got.push(v);
                    apply_wake(woken, &mut p_runnable, &mut c_runnable);
                }
                (Poll::Ready(None), _) => consumer_done = true,
                (Poll::Pending, woken) => {
                    c_runnable = false;
                    apply_wake(woken, &mut p_runnable, &mut c_runnable);
                }
            }
        } else {
            // Only the finished producer is runnable; nothing for it to do.
            p_runnable = false;
        }
    }
    got
}

/// Producer awaits `send`; consumer drains batches with `try_recv` and awaits
/// `want_recv` when empty.
fn drive_send_try_recv(mut c: Channel<u32, spsc_rs::ring::And>, n: u32) -> Vec<u32> {
    let mut got = Vec::new();
    let mut next: u32 = 0;
    let mut producer_done = false;
    let mut consumer_done = false;
    let mut p_runnable = true;
    let mut c_runnable = true;
    while !consumer_done {
        assert!(
            p_runnable || c_runnable,
            "lost wake: both sides suspended with work left"
        );
        if p_runnable && !producer_done {
            if next == n {
                let woken = c.close_producer();
                apply_wake(woken, &mut p_runnable, &mut c_runnable);
                producer_done = true;
            } else {
                match c.poll_send(next, PRODUCER) {
                    (SendStep::Sent, woken) => {
                        next += 1;
                        apply_wake(woken, &mut p_runnable, &mut c_runnable);
                    }
                    (SendStep::Pending(_), woken) => {
                        p_runnable = false;
                        apply_wake(woken, &mut p_runnable, &mut c_runnable);
                    }
                    (SendStep::Disconnected(_), _) => panic!("consumer gone early"),
                }
            }
        } else if c_runnable {
            match c.try_recv() {
                Ok(v) => got.push(v),
                Err(TryRecvError::Empty) => {
                    let (p, woken) = c.poll_want_recv(CONSUMER);
                    if p == Poll::Pending {
                        c_runnable = false;
                    }
                    apply_wake(woken, &mut p_runnable, &mut c_runnable);
                }
                Err(TryRecvError::Disconnected) => consumer_done = true,
            }
        } else {
            p_runnable = false;
        }
    }
    got
}

/// Producer batches with `start_send` and awaits `flush` on `Full`, then
/// drops; consumer awaits `recv` to the end.
fn drive_batch_send_recv(mut c: Channel<u32, spsc_rs::ring::And>, n: u32) -> Vec<u32> {
    let mut got = Vec::new();
    let mut next: u32 = 0;
    let mut producer_done = false;
    let mut consumer_done = false;
    let mut p_runnable = true;
    let mut c_runnable = true;
    while !consumer_done {
        assert!(
            p_runnable || c_runnable,
            "lost wake: both sides suspended with work left"
        );
        if p_runnable && !producer_done {
            if next == n {
                let woken = c.close_producer();
                apply_wake(woken, &mut p_runnable, &mut c_runnable);
                producer_done = true;
            } else {
                match c.start_send(next) {
                    Ok(()) => next += 1,
                    Err(SendError::Full) => {
                        let (p, woken) = c.poll_flush(PRODUCER);
                        if p == Poll::Pending {
                            p_runnable = false;
                        }
                        apply_wake(woken, &mut p_runnable, &mut c_runnable);
                    }
                    Err(SendError::Disconnected) => panic!("consumer gone early"),
                }
            }
        } else if c_runnable {
            match c.poll_recv(CONSUMER) {
                (Poll::Ready(Some(v)), woken) => {
                    got.push(v);
                    apply_wake(woken, &mut p_runnable, &mut c_runnable);
                }
                (Poll::Ready(None), _) => consumer_done = true,
                (Poll::Pending, woken) => {
                    c_runnable = false;
                    apply_wake(woken, &mut p_runnable, &mut c_runnable);
                }
            }
        } else {
            p_runnable = false;
        }
    }
    got
}

fn expected(n: u32) -> Vec<u32> {
    (0..n).collect()
}

#[test]
fn bounded_small_ring_in_order() {
    // Requested size 2: a 3-slot ring; 10000 sends arrive in order, then None.
    let got = drive_send_recv(channel::<u32>(2), 10000);
    assert_eq!(got, expected(10000));
}

#[test]
fn bounded_batch_receive_in_order() {
    let got = drive_send_try_recv(channel::<u32>(2), 10000);
    assert_eq!(got, expected(10000));

    let got = drive_send_try_recv(channel::<u32>(100), 10000);
    assert_eq!(got, expected(10000));
}

#[test]
fn bounded_batch_send_in_order() {
    let got = drive_batch_send_recv(channel::<u32>(100), 10000);
    assert_eq!(got, expected(10000));
}

#[test]
fn bounded_exact_ring_in_order() {
    let got = drive_send_recv(spsc_rs::exact_channel::<u32>(3), 1000);
    assert_eq!(got, expected(1000));
}

#[test]
fn capacity_one_two_sends_then_drop() {
    // Capacity one slot: sends 0 and 1 interleave with the receives; the
    // consumer observes Some(0), Some(1), then None.
    let mut c = channel::<u32>(1);

    assert!(matches!(c.poll_send(0, PRODUCER).0, SendStep::Sent));
    assert!(matches!(c.poll_send(1, PRODUCER).0, SendStep::Pending(1)));

    let (p, woken) = c.poll_recv(CONSUMER);
    assert_eq!(p, Poll::Ready(Some(0)));
    assert_eq!(woken, Some(PRODUCER));

    assert!(matches!(c.poll_send(1, PRODUCER).0, SendStep::Sent));
    c.close_producer();

    let (p, _) = c.poll_recv(CONSUMER);
    assert_eq!(p, Poll::Ready(Some(1)));
    let (p, _) = c.poll_recv(CONSUMER);
    assert_eq!(p, Poll::Ready(None));
}

#[test]
fn unflushed_item_survives_drop() {
    // try_send then an immediate drop without flush: the item still arrives.
    let mut c = channel::<u32>(8);
    c.start_send(77).unwrap();
    c.close_producer();
    let (p, _) = c.poll_recv(CONSUMER);
    assert_eq!(p, Poll::Ready(Some(77)));
    let (p, _) = c.poll_recv(CONSUMER);
    assert_eq!(p, Poll::Ready(None));
}

#[test]
fn unbounded_synchronous_drain() {
    // 0..100 sent synchronously, then drop; try_recv yields them all, then
    // Disconnected.
    let mut c = spsc_rs::unbounded_channel::<u32>();
    for i in 0..100 {
        c.send(i).0.unwrap();
    }
    c.close_producer();
    for i in 0..100 {
        assert_eq!(c.try_recv(), Ok(i));
    }
    assert_eq!(c.try_recv(), Err(TryRecvError::Disconnected));
}

#[test]
fn unbounded_across_blocks() {
    // More items than one block holds: the chain links and frees blocks while
    // order is kept.
    let n: u32 = 3 * (spsc_rs::queue::BLOCK_SIZE as u32) + 5;
    let mut c = spsc_rs::unbounded_channel::<u32>();
    for i in 0..n {
        c.send(i).0.unwrap();
    }
    c.close_producer();
    let mut got = Vec::new();
    loop {
        match c.poll_recv(CONSUMER) {
            Poll::Ready(Some(v)) => got.push(v),
            Poll::Ready(None) => break,
            Poll::Pending => panic!("suspended with the producer closed"),
        }
    }
    assert_eq!(got, expected(n));
}
