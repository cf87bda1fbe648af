use vstd::prelude::*;

use crate::error::{timed_os_result, Error, OsCall};

verus! {

/// The two states of an event.
#[derive(Clone, Copy, Debug, PartialEq, Eq, Structural)]
pub enum EventState {
    /// The next wait blocks.
    Clear,
    /// Waiters are released.
    Signaled,
}

/// Who has to be woken after the state of an event was set.
#[derive(Clone, Copy, Debug, PartialEq, Eq, Structural)]
pub enum WakeAction {
    /// Nobody: the event was cleared.
    Nobody,
    /// One blocked waiter (auto-reset).
    One,
    /// Every blocked waiter (manual-reset).
    All,
}

/// What a waiter observed before deciding its next step.
#[derive(Clone, Copy, Debug, PartialEq, Eq, Structural)]
pub enum Wake {
    /// It has just taken the event's lock and has not blocked yet.
    Entered,
    /// It came back from blocking on the condition; the code is the native result.
    Woke(i32),
}

/// A waiter's next step.
#[derive(Clone, Copy, Debug, PartialEq, Eq, Structural)]
pub enum WaitStep {
    /// Block (or spin) once more.
    Block,
    /// Stop waiting: the event was signaled.
    Ready,
    /// Stop waiting with this error.
    Failed(Error),
}

/// The step that ends a wait with `r`.
pub open spec fn finish(r: Result<(), Error>) -> WaitStep {
    match r {
        Ok(()) => WaitStep::Ready,
        Err(e) => WaitStep::Failed(e),
    }
}

/// The state an event keeps in shared memory: its reset policy, fixed at
/// creation, and its signal.
#[derive(Clone, Copy, Debug, PartialEq, Eq, Structural)]
pub struct EventBits {
    pub auto_reset: bool,
    pub signaled: bool,
}

/// The byte that stores a flag in shared memory.
pub open spec fn flag_byte(b: bool) -> u8 {
    if b { 1 } else { 0 }
}

/// Whether a byte read from shared memory is a legal flag.
pub open spec fn is_flag_byte(b: u8) -> bool {
    b <= 1
}

/// The step a waiter takes, and the state it leaves, after observing `wake`.
pub open spec fn wait_step_spec(
    bits: EventBits,
    wake: Wake,
    allow_spurious: bool,
    timed_out_code: i32,
) -> (EventBits, WaitStep) {
    match wake {
        Wake::Woke(code) if code != 0 => (
            bits,
            finish(timed_os_result(OsCall::Wait, code, timed_out_code)),
        ),
        _ => if bits.signaled {
            (
                EventBits { auto_reset: bits.auto_reset, signaled: !bits.auto_reset },
                WaitStep::Ready,
            )
        } else if wake is Woke && allow_spurious {
            (bits, WaitStep::Failed(Error::SpuriousWake))
        } else {
            (bits, WaitStep::Block)
        },
    }
}

/// The state after setting, and who has to be woken.
pub open spec fn set_spec(bits: EventBits, state: EventState) -> (EventBits, WakeAction) {
    match state {
        EventState::Clear => (EventBits { signaled: false, ..bits }, WakeAction::Nobody),
        EventState::Signaled => (
            EventBits { signaled: true, ..bits },
            if bits.auto_reset { WakeAction::One } else { WakeAction::All },
        ),
    }
}

/// The result of reading an event's two bytes from shared memory.
pub open spec fn decode_spec(auto_reset: u8, signal: u8) -> Result<EventBits, Error> {
    if is_flag_byte(auto_reset) && is_flag_byte(signal) {
        Ok(EventBits { auto_reset: auto_reset == 1, signaled: signal == 1 })
    } else {
        Err(Error::ObjectCorrupted)
    }
}

impl EventBits {
    /// The state of a freshly created event: not signaled.
    pub fn new(auto_reset: bool) -> (r: EventBits)
        ensures
            r.auto_reset == auto_reset,
            !r.signaled,
    {
        EventBits { auto_reset, signaled: false }
    }

    /// Reads the state from the reset-mode byte and the signal byte of an
    /// existing event; a byte outside {0, 1} means the memory is corrupted.
    pub fn from_bytes(auto_reset: u8, signal: u8) -> (r: Result<EventBits, Error>)
        ensures
            r == decode_spec(auto_reset, signal),
            r is Err <==> !is_flag_byte(auto_reset) || !is_flag_byte(signal),
    {
        if auto_reset > 1 || signal > 1 {
            Err(Error::ObjectCorrupted)
        } else {
            Ok(EventBits { auto_reset: auto_reset == 1, signaled: signal == 1 })
        }
    }

    /// The byte that stores the reset policy.
    pub fn auto_reset_byte(&self) -> (r: u8)
        ensures
            r == flag_byte(self.auto_reset),
    {
        if self.auto_reset { 1 } else { 0 }
    }

    /// The byte that stores the signal.
    pub fn signal_byte(&self) -> (r: u8)
        ensures
            r == flag_byte(self.signaled),
    {
        if self.signaled { 1 } else { 0 }
    }

    /// Sets the state of the event and tells who has to be woken: one waiter
    /// under auto-reset, all of them under manual-reset, nobody on clearing.
    pub fn set(&mut self, state: EventState) -> (r: WakeAction)
        ensures
            (*final(self), r) == set_spec(*old(self), state),
            final(self).auto_reset == old(self).auto_reset,
            final(self).signaled == (state == EventState::Signaled),
    {
        match state {
            EventState::Clear => {
                self.signaled = false;
                WakeAction::Nobody
            },
            EventState::Signaled => {
                self.signaled = true;
                if self.auto_reset {
                    WakeAction::One
                } else {
                    WakeAction::All
                }
            },
        }
    }

    /// Decides a waiter's next step while it holds the event's lock.
    ///
    /// A failed native wait ends the wait (`TimedOut` where the code is
    /// `timed_out_code`, `WaitFailed` otherwise) and leaves the state alone.
    /// A signaled event ends it with success, and an auto-reset event is
    /// cleared by it. Otherwise the waiter blocks again, unless it came back
    /// from a wake-up that found nothing and spurious wake-ups are reported.
    pub fn wait_step(
        &mut self,
        wake: Wake,
        allow_spurious: bool,
        timed_out_code: i32,
    ) -> (r: WaitStep)
        ensures
            (*final(self), r) == wait_step_spec(*old(self), wake, allow_spurious, timed_out_code),
            final(self).auto_reset == old(self).auto_reset,
            r == WaitStep::Ready ==> old(self).signaled,
    {
        if let Wake::Woke(code) = wake {
            if code != 0 {
                let e = if code == timed_out_code {
                    Error::TimedOut
                } else {
                    Error::from_os(OsCall::Wait, code)
                };
                return WaitStep::Failed(e);
            }
        }
        if self.signaled {
            if self.auto_reset {
                self.signaled = false;
            }
            WaitStep::Ready
        } else if allow_spurious && matches!(wake, Wake::Woke(_)) {
            WaitStep::Failed(Error::SpuriousWake)
        } else {
            WaitStep::Block
        }
    }
}

/// How a spinning waiter looks at the signal byte of a busy-spin event.
#[derive(Clone, Copy, Debug, PartialEq, Eq, Structural)]
pub enum Probe {
    /// Atomically replace 1 by 0 and observe the previous value (auto-reset).
    Claim,
    /// Observe the value without changing it (manual-reset).
    Peek,
}

/// The step of a spinning waiter that observed `observed` in the signal byte.
pub open spec fn busy_step_spec(observed: u8, expired: bool) -> WaitStep {
    if observed == 1 {
        WaitStep::Ready
    } else if expired {
        WaitStep::Failed(Error::TimedOut)
    } else {
        WaitStep::Block
    }
}

/// Chooses how a busy-spin event is probed: an auto-reset event must claim
/// the signal in the same atomic step that observes it.
pub fn busy_probe(auto_reset: bool) -> (r: Probe)
    ensures
        r == (if auto_reset { Probe::Claim } else { Probe::Peek }),
{
    if auto_reset {
        Probe::Claim
    } else {
        Probe::Peek
    }
}

/// Decides a spinning waiter's next step from the signal it observed and
/// whether its deadline has passed: it never times out before the deadline.
pub fn busy_step(observed: u8, expired: bool) -> (r: WaitStep)
    ensures
        r == busy_step_spec(observed, expired),
        r == WaitStep::Failed(Error::TimedOut) ==> expired,
        r == WaitStep::Ready <==> observed == 1,
{
    if observed == 1 {
        WaitStep::Ready
    } else if expired {
        WaitStep::Failed(Error::TimedOut)
    } else {
        WaitStep::Block
    }
}

/// Whether `wake` reports a failed native wait.
pub open spec fn is_failed_wake(wake: Wake) -> bool {
    match wake {
        Wake::Woke(code) => code != 0,
        Wake::Entered => false,
    }
}

/// Under auto-reset one signal serves exactly one waiter: setting the event
/// wakes one waiter; the first waiter that looks at it succeeds and leaves
/// it clear; every later look then leaves the state as it is and does not
/// succeed, until the event is signaled again.
pub proof fn lemma_auto_reset_serves_one(
    bits: EventBits,
    first: Wake,
    allow_spurious: bool,
    timed_out_code: i32,
)
    requires
        bits.auto_reset,
        !is_failed_wake(first),
    ensures
        set_spec(bits, EventState::Signaled).1 == WakeAction::One,
        ({
            let signaled = set_spec(bits, EventState::Signaled).0;
            let (after, step) = wait_step_spec(signaled, first, allow_spurious, timed_out_code);
            &&& step == WaitStep::Ready
            &&& !after.signaled
            &&& forall|w: Wake, a: bool, c: i32|
                #![trigger wait_step_spec(after, w, a, c)]
                wait_step_spec(after, w, a, c).0 == after && wait_step_spec(after, w, a, c).1
                    != WaitStep::Ready
        }),
{
}

/// Under manual-reset a signal serves every waiter: after setting the event
/// all waiters are woken, each look that did not fail succeeds and leaves the
/// state as it is, so every later wait succeeds too; after clearing it, no
/// look succeeds.
pub proof fn lemma_manual_reset_serves_all(bits: EventBits)
    requires
        !bits.auto_reset,
    ensures
        set_spec(bits, EventState::Signaled).1 == WakeAction::All,
        ({
            let signaled = set_spec(bits, EventState::Signaled).0;
            forall|w: Wake, a: bool, c: i32|
                #![trigger wait_step_spec(signaled, w, a, c)]
                !is_failed_wake(w) ==> wait_step_spec(signaled, w, a, c) == (
                    signaled,
                    WaitStep::Ready,
                )
        }),
        ({
            let cleared = set_spec(set_spec(bits, EventState::Signaled).0, EventState::Clear).0;
            forall|w: Wake, a: bool, c: i32|
                #![trigger wait_step_spec(cleared, w, a, c)]
                wait_step_spec(cleared, w, a, c).0 == cleared && wait_step_spec(cleared, w, a, c).1
                    != WaitStep::Ready
        }),
{
}

/// What a new event writes is what attaching to it reads back: decoding the
/// bytes of any state gives that state.
pub proof fn lemma_bytes_round_trip(bits: EventBits)
    ensures
        decode_spec(flag_byte(bits.auto_reset), flag_byte(bits.signaled)) == Ok::<
            EventBits,
            Error,
        >(bits),
{
}

/// A wait on an event that is not signaled never succeeds and never gives
/// up early: a blocking waiter reports `TimedOut` only when its native wait
/// came back with the platform's timed-out code, and a spinning waiter only
/// once it saw its deadline pass.
pub proof fn lemma_timeout_only_at_deadline(
    bits: EventBits,
    wake: Wake,
    allow_spurious: bool,
    timed_out_code: i32,
    observed: u8,
    expired: bool,
)
    requires
        !bits.signaled,
    ensures
        wait_step_spec(bits, wake, allow_spurious, timed_out_code).1 != WaitStep::Ready,
        wait_step_spec(bits, wake, allow_spurious, timed_out_code).1 == WaitStep::Failed(
            Error::TimedOut,
        ) ==> wake == Wake::Woke(timed_out_code) && timed_out_code != 0,
        busy_step_spec(observed, expired) == WaitStep::Failed(Error::TimedOut) ==> expired,
{
}

} // verus!
