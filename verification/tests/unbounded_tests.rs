use spsc_rs::error::{SendError, TryRecvError};
use spsc_rs::poll::Poll;
use spsc_rs::queue::Queue;
use spsc_rs::unbounded_channel;

const CONSUMER: u64 = 2;

#[test]
fn push_pop() {
    let mut queue: Queue<i32> = Queue::new();
    for i in 0..3 {
        queue.push(i);
    }

    let mut count = 0;
    loop {
        match queue.try_pop() {
            None => break,
            Some(idx) => {
                assert_eq!(count, idx);
                count += 1;
                if count == 3 {
                    break;
                }
            }
        }
    }
    assert_eq!(count, 3);
}

#[test]
fn unbounded_drop_test() {
    // one block in this channel
    let mut c = unbounded_channel::<[i32; 8]>();

    c.send([1; 8]).0.unwrap();
    c.send([1; 8]).0.unwrap();
    c.send([1; 8]).0.unwrap();

    c.close_consumer();

    // multi block in this channel
    let mut c = unbounded_channel::<[i32; 8]>();

    for _ in 0..100 {
        c.send([1; 8]).0.unwrap();
    }

    c.close_consumer();
}

#[test]
fn unbounded_send_receive() {
    // one block in this channel
    let mut c = unbounded_channel::<[i32; 8]>();

    c.send([1; 8]).0.unwrap();
    c.send([1; 8]).0.unwrap();
    c.send([1; 8]).0.unwrap();

    let _ = c.try_recv().unwrap();
    let _ = c.try_recv().unwrap();
    let _ = c.try_recv().unwrap();

    // multi block in this channel
    let mut c = unbounded_channel::<[i32; 8]>();

    for _ in 0..100 {
        c.send([1; 8]).0.unwrap();
    }

    for _ in 0..100 {
        let _ = c.try_recv().unwrap();
    }
}

#[test]
fn unbounded_close_test() {
    let mut c = unbounded_channel::<[i32; 8]>();

    c.start_send([1; 8]).unwrap();
    c.start_send([1; 8]).unwrap();
    c.start_send([1; 8]).unwrap();

    c.close_consumer();

    matches!(c.start_send([1; 8]), Err(SendError::Disconnected));

    let _ = c.try_recv().unwrap();
    let _ = c.try_recv().unwrap();
    let _ = c.try_recv().unwrap();
}

#[test]
fn unbounded_send_after_close_is_refused() {
    let mut c = unbounded_channel::<u8>();
    c.close_consumer();
    assert_eq!(c.start_send(1), Err(SendError::Disconnected));
    let (r, woken) = c.send(2);
    let e = r.unwrap_err();
    assert!(e.is_disconnected());
    assert_eq!(e.into_inner(), 2);
    assert_eq!(woken, None);
}

#[test]
fn unbounded_flush_wakes_batch() {
    let mut c = unbounded_channel::<u8>();

    // A batch staged with start_send defers the wake to flush.
    let p = c.poll_recv(CONSUMER);
    assert_eq!(p, Poll::Pending);
    c.start_send(1).unwrap();
    c.start_send(2).unwrap();
    let (r, woken) = c.flush();
    assert_eq!(r, Ok(()));
    assert_eq!(woken, Some(CONSUMER));

    assert_eq!(c.try_recv(), Ok(1));
    assert_eq!(c.try_recv(), Ok(2));

    // Flushing a drained queue skips the wake.
    let (r, woken) = c.flush();
    assert_eq!(r, Ok(()));
    assert_eq!(woken, None);

    // Flushing a closed channel is refused.
    c.close_consumer();
    let (r, _) = c.flush();
    assert_eq!(r, Err(SendError::Disconnected));
}

#[test]
fn unbounded_recv_states() {
    let mut c = unbounded_channel::<u8>();

    assert_eq!(c.try_recv(), Err(TryRecvError::Empty));
    assert_eq!(c.poll_want_recv(CONSUMER), Poll::Pending);
    assert_eq!(c.poll_recv(CONSUMER), Poll::Pending);

    c.send(7).0.unwrap();
    assert_eq!(c.poll_want_recv(CONSUMER), Poll::Ready(()));
    assert_eq!(c.poll_recv(CONSUMER), Poll::Ready(Some(7)));

    c.close_producer();
    assert_eq!(c.poll_recv(CONSUMER), Poll::Ready(None));
    assert_eq!(c.try_recv(), Err(TryRecvError::Disconnected));
    assert_eq!(c.poll_want_recv(CONSUMER), Poll::Ready(()));
}
