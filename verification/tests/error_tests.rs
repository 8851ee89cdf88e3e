use spsc_rs::error::{SendError, TryRecvError};
use spsc_rs::{channel, unbounded_channel};

#[test]
fn send_error_discriminants() {
    assert!(SendError::Full.is_full());
    assert!(!SendError::Full.is_disconnected());
    assert!(SendError::Disconnected.is_disconnected());
    assert!(!SendError::Disconnected.is_full());
}

#[test]
fn try_send_error_carries_the_message() {
    // The unbounded send on a closed channel hands the message back for retry.
    let mut c = unbounded_channel::<String>();
    c.close_consumer();
    let (r, _) = c.send(String::from("payload"));
    let e = r.unwrap_err();
    assert!(e.is_disconnected());
    assert!(!e.is_full());
    assert_eq!(e.clone().into_send_error(), SendError::Disconnected);
    assert_eq!(e.into_inner(), "payload");
}

#[test]
fn try_recv_error_variants() {
    // Empty while the producer lives; Disconnected once it is gone.
    let mut c = channel::<u8>(4);
    assert_eq!(c.try_recv(), Err(TryRecvError::Empty));
    c.start_send(3).unwrap();
    c.close_producer();
    assert_eq!(c.try_recv(), Ok(3));
    assert_eq!(c.try_recv(), Err(TryRecvError::Disconnected));
}

#[test]
fn full_is_transient() {
    let mut c = channel::<u8>(1);
    c.start_send(1).unwrap();
    assert_eq!(c.start_send(2), Err(SendError::Full));
    assert_eq!(c.try_recv(), Ok(1));
    assert_eq!(c.start_send(2), Ok(()));
}
