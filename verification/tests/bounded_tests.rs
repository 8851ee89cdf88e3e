use spsc_rs::error::SendError;
use spsc_rs::poll::{Poll, SendStep};
use spsc_rs::{channel, exact_channel};

const PRODUCER: u64 = 1;
const CONSUMER: u64 = 2;

#[test]
fn bounded_send_try_recv() {
    // Requested size 1: one usable slot, so the two sends must interleave
    // with the receives.
    let mut c = channel::<i32>(1);
    let mut count = 0;
    let mut to_send = 0;
    loop {
        if to_send < 2 {
            match c.poll_send(to_send, PRODUCER) {
                (SendStep::Sent, _) => to_send += 1,
                (SendStep::Pending(_), _) => {}
                (SendStep::Disconnected(_), _) => panic!("receiver gone"),
            }
            if to_send == 2 {
                c.close_producer();
            }
        }
        match c.try_recv() {
            Ok(idx) => {
                assert_eq!(idx, count);
                count += 1;
            }
            Err(e) if e == spsc_rs::error::TryRecvError::Empty => {
                let _ = c.poll_want_recv(CONSUMER);
            }
            Err(_) => break,
        }
    }
    assert_eq!(count, 2);
}

#[test]
fn loom_test_bounded_send_receive() {
    let mut c = channel::<i32>(1);

    assert!(matches!(c.poll_send(0, PRODUCER).0, SendStep::Sent));

    let (p, woken) = c.poll_recv(CONSUMER);
    assert_eq!(p, Poll::Ready(Some(0)));
    // No producer was suspended, so no wake is owed yet.
    assert_eq!(woken, None);

    assert!(matches!(c.poll_send(1, PRODUCER).0, SendStep::Sent));

    let (p, _) = c.poll_recv(CONSUMER);
    assert_eq!(p, Poll::Ready(Some(1)));
}

#[test]
fn bounded_closing_tx() {
    let mut c = channel::<()>(16);

    c.start_send(()).unwrap();
    c.close_producer();

    let (v, _) = c.poll_recv(CONSUMER);
    assert!(matches!(v, Poll::Ready(Some(()))));

    let (v, _) = c.poll_recv(CONSUMER);
    assert!(matches!(v, Poll::Ready(None)));
}

#[test]
fn bounded_drop_test() {
    let mut c = channel::<[i32; 8]>(64);

    c.start_send([1; 8]).unwrap();
    c.start_send([1; 8]).unwrap();
    c.start_send([1; 8]).unwrap();

    // The consumer endpoint is dropped with items still staged; they are
    // freed with the channel.
    c.close_consumer();
}

#[test]
fn miri_test_bounded_send_receive() {
    let mut c = channel::<[i32; 8]>(64);

    c.start_send([1; 8]).unwrap();
    c.start_send([1; 8]).unwrap();
    c.start_send([1; 8]).unwrap();

    let _ = c.try_recv().unwrap();
    let _ = c.try_recv().unwrap();
    let _ = c.try_recv().unwrap();
}

#[test]
fn bounded_close_test() {
    let mut c = channel::<[i32; 8]>(64);

    c.start_send([1; 8]).unwrap();
    c.start_send([1; 8]).unwrap();
    c.start_send([1; 8]).unwrap();

    c.close_consumer();

    matches!(c.start_send([1; 8]), Err(SendError::Disconnected));

    let _ = c.try_recv().unwrap();
    let _ = c.try_recv().unwrap();
    let _ = c.try_recv().unwrap();
}

#[test]
fn power_of_two_capacity() {
    // Requested size 2 rounds up to 4 ring slots, one reserved: 3 usable.
    let mut c = channel::<u8>(2);
    assert!(c.start_send(1).is_ok());
    assert!(c.start_send(2).is_ok());
    assert!(c.start_send(3).is_ok());
    assert_eq!(c.start_send(4), Err(SendError::Full));
    assert_eq!(c.try_recv(), Ok(1));
    assert!(c.start_send(4).is_ok());
}

#[test]
fn exact_capacity() {
    // The exact channel keeps the observed depth at the requested size.
    let mut c = exact_channel::<u8>(2);
    assert!(c.start_send(1).is_ok());
    assert!(c.start_send(2).is_ok());
    assert_eq!(c.start_send(3), Err(SendError::Full));
    assert_eq!(c.try_recv(), Ok(1));
    assert_eq!(c.try_recv(), Ok(2));
    assert_eq!(c.start_send(3), Ok(()));
    assert_eq!(c.try_recv(), Ok(3));
}

#[test]
fn minimum_capacity() {
    // A requested size of zero still yields one usable slot: the ring never
    // has fewer than two slots, one of them reserved.
    let mut c = channel::<u8>(0);
    assert_eq!(c.start_send(1), Ok(()));
    assert_eq!(c.start_send(2), Err(SendError::Full));
    assert_eq!(c.try_recv(), Ok(1));

    let mut c = exact_channel::<u8>(0);
    assert_eq!(c.start_send(1), Ok(()));
    assert_eq!(c.start_send(2), Err(SendError::Full));
    assert_eq!(c.try_recv(), Ok(1));
}

#[test]
fn flush_steps() {
    let mut c = channel::<u8>(4);

    // Nothing staged: a flush completes at once, with no wake.
    assert_eq!(c.poll_flush(PRODUCER), (Poll::Ready(Ok(())), None));

    // Items staged and a consumer waiting: the flush suspends and hands the
    // consumer's continuation to the scheduler.
    let _ = c.poll_recv(CONSUMER);
    c.start_send(9).unwrap();
    let (p, woken) = c.poll_flush(PRODUCER);
    assert_eq!(p, Poll::Pending);
    assert_eq!(woken, Some(CONSUMER));

    // A closed channel refuses the flush.
    c.close_consumer();
    let (p, _) = c.poll_flush(PRODUCER);
    assert_eq!(p, Poll::Ready(Err(SendError::Disconnected)));
}

#[test]
fn ready_steps() {
    let mut c = channel::<u8>(1);

    // A free slot: ready at once, touching no notifier.
    assert_eq!(c.poll_ready(PRODUCER), (Poll::Ready(Ok(())), None));

    // A suspended consumer and a full ring: one ready step suspends the
    // producer and hands the consumer's continuation to the scheduler.
    let p = c.poll_recv(CONSUMER);
    assert_eq!(p, (Poll::Pending, None));
    c.start_send(7).unwrap();
    let (s, woken) = c.poll_ready(PRODUCER);
    assert_eq!(s, Poll::Pending);
    assert_eq!(woken, Some(CONSUMER));

    // Once the consumer drains, ready completes again.
    assert_eq!(c.try_recv(), Ok(7));
    assert_eq!(c.poll_ready(PRODUCER).0, Poll::Ready(Ok(())));

    // Full and closed: the producer learns the peer is gone.
    c.start_send(8).unwrap();
    c.close_consumer();
    let (s, _) = c.poll_ready(PRODUCER);
    assert_eq!(s, Poll::Ready(Err(SendError::Disconnected)));
}

#[test]
fn close_symmetry() {
    // Consumer side: after the producer closes, a suspended recv finishes
    // with None on its next step, with no further cooperation.
    let mut c = channel::<u8>(4);
    let (p, _) = c.poll_recv(CONSUMER);
    assert_eq!(p, Poll::Pending);
    let woken = c.close_producer();
    assert_eq!(woken, Some(CONSUMER));
    let (p, _) = c.poll_recv(CONSUMER);
    assert_eq!(p, Poll::Ready(None));

    // Producer side: after the consumer closes, a suspended send sees
    // Disconnected on its next step.
    let mut c = channel::<u8>(1);
    assert!(matches!(c.poll_send(1, PRODUCER).0, SendStep::Sent));
    let (s, _) = c.poll_send(2, PRODUCER);
    assert!(matches!(s, SendStep::Pending(2)));
    let woken = c.close_consumer();
    assert_eq!(woken, Some(PRODUCER));
    let (s, _) = c.poll_send(2, PRODUCER);
    assert!(matches!(s, SendStep::Disconnected(2)));

    // The consumer may still drain what was staged before its own close.
    assert_eq!(c.try_recv(), Ok(1));
}

#[test]
fn recv_after_producer_drop_drains() {
    // An unflushed item is not lost when the producer goes away.
    let mut c = channel::<u8>(8);
    c.start_send(42).unwrap();
    c.close_producer();
    let (p, _) = c.poll_recv(CONSUMER);
    assert_eq!(p, Poll::Ready(Some(42)));
    let (p, _) = c.poll_recv(CONSUMER);
    assert_eq!(p, Poll::Ready(None));
}

#[test]
fn want_recv_steps() {
    let mut c = channel::<u8>(4);

    // Empty ring: want_recv suspends after registering.
    let (p, woken) = c.poll_want_recv(CONSUMER);
    assert_eq!(p, Poll::Pending);
    assert_eq!(woken, None);

    // An item arrives: the send wakes the registered consumer.
    let (s, woken) = c.poll_send(5, PRODUCER);
    assert!(matches!(s, SendStep::Sent));
    assert_eq!(woken, Some(CONSUMER));

    // Something is there now: want_recv completes.
    let (p, _) = c.poll_want_recv(CONSUMER);
    assert_eq!(p, Poll::Ready(()));

    // On a closed channel it returns at once.
    c.close_producer();
    let (p, _) = c.poll_want_recv(CONSUMER);
    assert_eq!(p, Poll::Ready(()));
}
