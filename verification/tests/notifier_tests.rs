use spsc_rs::notifier::Notifier;

#[test]
fn wake_without_register_is_noop() {
    // The fresh notifier holds the no-op continuation: a wake resumes nothing.
    let mut n = Notifier::new();
    assert_eq!(n.wake_by_ref(), None);
    assert_eq!(n.wake_by_ref(), None);
}

#[test]
fn repeated_wakes_are_harmless() {
    // The stored continuation is resumed by reference and stays stored, so
    // repeated wakes hand the scheduler the same handle each time.
    let mut n = Notifier::new();
    assert_eq!(n.register(5), None);
    assert_eq!(n.wake_by_ref(), Some(5));
    assert_eq!(n.wake_by_ref(), Some(5));
    assert_eq!(n.wake_by_ref(), Some(5));
}

#[test]
fn repeated_registers_replace_without_invoking() {
    // Without an intervening wake, a register replaces the stored handle and
    // resumes neither the old one nor the new one.
    let mut n = Notifier::new();
    assert_eq!(n.register(5), None);
    assert_eq!(n.register(6), None);
    assert_eq!(n.register(6), None);
    assert_eq!(n.register(7), None);
    assert_eq!(n.wake_by_ref(), Some(7));
}
