use raw_sync::events::{busy_probe, busy_step};
use raw_sync::{Error, EventBits, EventState, Probe, Wake, WaitStep, WakeAction};

const ETIMEDOUT: i32 = 110;

/// Runs a waiter against the state until it stops or would block.
fn look(bits: &mut EventBits, wake: Wake) -> WaitStep {
    bits.wait_step(wake, false, ETIMEDOUT)
}

#[test]
fn new_event_is_clear() {
    let bits = EventBits::new(true);
    assert!(bits.auto_reset);
    assert!(!bits.signaled);
    assert_eq!(bits.signal_byte(), 0);
    assert_eq!(bits.auto_reset_byte(), 1);
    assert_eq!(EventBits::new(false).auto_reset_byte(), 0);
}

#[test]
fn auto_reset_signal_serves_one_waiter() {
    let mut bits = EventBits::new(true);
    assert_eq!(bits.set(EventState::Signaled), WakeAction::One);
    // the first waiter succeeds and clears the event
    assert_eq!(look(&mut bits, Wake::Entered), WaitStep::Ready);
    assert!(!bits.signaled);
    // the second one keeps blocking
    assert_eq!(look(&mut bits, Wake::Entered), WaitStep::Block);
    assert_eq!(look(&mut bits, Wake::Woke(0)), WaitStep::Block);
    // until the next signal
    bits.set(EventState::Signaled);
    assert_eq!(look(&mut bits, Wake::Woke(0)), WaitStep::Ready);
    assert!(!bits.signaled);
}

#[test]
fn manual_reset_serves_all_until_cleared() {
    let mut bits = EventBits::new(false);
    assert_eq!(bits.set(EventState::Signaled), WakeAction::All);
    for _ in 0..5 {
        assert_eq!(look(&mut bits, Wake::Entered), WaitStep::Ready);
        assert!(bits.signaled);
    }
    assert_eq!(bits.set(EventState::Clear), WakeAction::Nobody);
    assert_eq!(look(&mut bits, Wake::Entered), WaitStep::Block);
    // the timed wait then runs out
    assert_eq!(
        look(&mut bits, Wake::Woke(ETIMEDOUT)),
        WaitStep::Failed(Error::TimedOut)
    );
    assert!(!bits.signaled);
}

#[test]
fn set_is_idempotent() {
    let mut bits = EventBits::new(false);
    bits.set(EventState::Signaled);
    assert_eq!(bits.set(EventState::Signaled), WakeAction::All);
    assert!(bits.signaled);
    bits.set(EventState::Clear);
    assert_eq!(bits.set(EventState::Clear), WakeAction::Nobody);
    assert!(!bits.signaled);
}

#[test]
fn failed_wait_is_reported_and_keeps_state() {
    let mut bits = EventBits::new(true);
    bits.set(EventState::Signaled);
    assert_eq!(
        bits.wait_step(Wake::Woke(22), false, ETIMEDOUT),
        WaitStep::Failed(Error::WaitFailed(22))
    );
    assert!(bits.signaled);
}

#[test]
fn spurious_wake_is_reported_only_when_asked() {
    let mut bits = EventBits::new(false);
    assert_eq!(
        bits.wait_step(Wake::Woke(0), true, ETIMEDOUT),
        WaitStep::Failed(Error::SpuriousWake)
    );
    assert_eq!(bits.wait_step(Wake::Woke(0), false, ETIMEDOUT), WaitStep::Block);
    assert_eq!(bits.wait_step(Wake::Entered, true, ETIMEDOUT), WaitStep::Block);
}

#[test]
fn corrupted_reset_mode_is_detected() {
    assert_eq!(EventBits::from_bytes(2, 0), Err(Error::ObjectCorrupted));
    assert_eq!(EventBits::from_bytes(255, 1), Err(Error::ObjectCorrupted));
    assert_eq!(EventBits::from_bytes(0, 7), Err(Error::ObjectCorrupted));
}

#[test]
fn valid_bytes_are_read_back() {
    assert_eq!(
        EventBits::from_bytes(1, 0),
        Ok(EventBits { auto_reset: true, signaled: false })
    );
    assert_eq!(
        EventBits::from_bytes(0, 1),
        Ok(EventBits { auto_reset: false, signaled: true })
    );
    let bits = EventBits { auto_reset: true, signaled: true };
    assert_eq!(
        EventBits::from_bytes(bits.auto_reset_byte(), bits.signal_byte()),
        Ok(bits)
    );
}

#[test]
fn busy_event_probes() {
    assert_eq!(busy_probe(true), Probe::Claim);
    assert_eq!(busy_probe(false), Probe::Peek);
}

#[test]
fn busy_wait_never_times_out_early() {
    assert_eq!(busy_step(1, false), WaitStep::Ready);
    assert_eq!(busy_step(1, true), WaitStep::Ready);
    assert_eq!(busy_step(0, false), WaitStep::Block);
    assert_eq!(busy_step(0, true), WaitStep::Failed(Error::TimedOut));
}
