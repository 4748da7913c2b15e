//! The progress of a sleeping future: started on its first poll, finished
//! once its duration has passed since then. Times are nanoseconds counted
//! from a fixed moment chosen by the caller.

use vstd::prelude::*;

verus! {

/// The largest span a `std::time::Duration` holds, in nanoseconds.
pub const MAX_NANOS: u128 = 18_446_744_073_709_551_615u128 * 1_000_000_000u128 + 999_999_999u128;

/// What a poll of a sleeping future does.
#[derive(Clone, Copy, Debug, PartialEq, Eq, Structural)]
pub enum SleepStep {
    /// First poll: arm the timer for the duration, register it with the
    /// runtime, and stay pending.
    Start,
    /// The duration has passed: the sleep is over.
    Ready,
    /// Not yet over.
    Pending,
}

/// Whether a sleep of `duration` started at `started` is over at `now`.
pub open spec fn sleep_expired(started: Option<u128>, duration: u128, now: u128) -> bool {
    match started {
        Some(s) => s + duration <= now,
        None => false,
    }
}

/// What a poll at `now` does to a sleep of `duration` started at `started`.
pub open spec fn sleep_step(started: Option<u128>, duration: u128, now: u128) -> SleepStep {
    match started {
        None => SleepStep::Start,
        Some(_) => if sleep_expired(started, duration, now) {
            SleepStep::Ready
        } else {
            SleepStep::Pending
        },
    }
}

/// When a sleep started, after a poll at `now`: the first poll records it.
pub open spec fn started_after(started: Option<u128>, now: u128) -> Option<u128> {
    match started {
        None => Some(now),
        Some(s) => Some(s),
    }
}

/// A sleep of a given length and the moment of its first poll.
pub struct SleepState {
    duration: u128,
    started: Option<u128>,
}

impl SleepState {
    pub closed spec fn duration(&self) -> u128 {
        self.duration
    }

    pub closed spec fn started(&self) -> Option<u128> {
        self.started
    }

    pub closed spec fn wf(&self) -> bool {
        &&& self.duration <= MAX_NANOS
        &&& match self.started {
            Some(s) => s <= MAX_NANOS,
            None => true,
        }
    }

    /// A sleep of `duration` nanoseconds, not started yet.
    pub fn new(duration: u128) -> (r: Self)
        requires
            duration <= MAX_NANOS,
        ensures
            r.wf(),
            r.duration() == duration,
            r.started() == None::<u128>,
    {
        SleepState { duration, started: None }
    }

    /// The length of the sleep in nanoseconds.
    pub fn duration_nanos(&self) -> (r: u128)
        ensures
            r == self.duration(),
    {
        self.duration
    }

    /// Whether the sleep is over at `now`: it has started and its duration
    /// has passed since.
    pub fn expired(&self, now: u128) -> (r: bool)
        requires
            self.wf(),
            now <= MAX_NANOS,
        ensures
            r == sleep_expired(self.started(), self.duration(), now),
    {
        match self.started {
            Some(started) => started + self.duration <= now,
            None => false,
        }
    }

    /// Polls the sleep at `now`: the first poll starts it, later ones find
    /// it over or not.
    pub fn poll(&mut self, now: u128) -> (r: SleepStep)
        requires
            old(self).wf(),
            now <= MAX_NANOS,
        ensures
            final(self).wf(),
            final(self).duration() == old(self).duration(),
            final(self).started() == started_after(old(self).started(), now),
            r == sleep_step(old(self).started(), old(self).duration(), now),
    {
        if self.started.is_none() {
            self.started = Some(now);
            SleepStep::Start
        } else if self.expired(now) {
            SleepStep::Ready
        } else {
            SleepStep::Pending
        }
    }
}

/// Once over, a sleep stays over: if it is over at one moment it is over at
/// every later one.
pub proof fn lemma_expiry_is_permanent(started: Option<u128>, duration: u128, now: u128, later: u128)
    requires
        sleep_expired(started, duration, now),
        now <= later,
    ensures
        sleep_expired(started, duration, later),
{
}

/// A sleep arms and registers its timer once: only its first poll starts
/// it, and every later poll keeps the moment it started.
pub proof fn lemma_sleep_starts_once(started: Option<u128>, duration: u128, now: u128, later: u128)
    ensures
        sleep_step(started, duration, now) == SleepStep::Start <==> started is None,
        sleep_step(started_after(started, now), duration, later) != SleepStep::Start,
        started_after(started_after(started, now), later) == started_after(started, now),
{
}

/// Once a poll finds a sleep over, every later poll finds it over too (and
/// so starts nothing again).
pub proof fn lemma_ready_stays_ready(started: Option<u128>, duration: u128, now: u128, later: u128)
    requires
        sleep_step(started, duration, now) == SleepStep::Ready,
        now <= later,
    ensures
        started_after(started, now) == started,
        sleep_step(started_after(started, now), duration, later) == SleepStep::Ready,
{
}

/// A sleep never ends before its duration has passed since its first poll.
pub proof fn lemma_no_early_wake(started: u128, duration: u128, now: u128)
    requires
        sleep_expired(Some(started), duration, now),
    ensures
        now - started >= duration,
{
}

} // verus!

verus! {

/// What each poll of a sleep reports: the first poll starts it; a later
/// poll reports it over exactly when its whole duration has passed since
/// the first poll, and pending otherwise.
pub proof fn lemma_sleep_step_cases(started: Option<u128>, duration: u128, now: u128)
    ensures
        started is None ==> sleep_step(started, duration, now) == SleepStep::Start,
        started matches Some(s) ==> (sleep_step(started, duration, now) == SleepStep::Ready <==> s
            + duration <= now),
        started matches Some(s) ==> (sleep_step(started, duration, now) == SleepStep::Pending <==> now
            < s + duration),
        started is None ==> started_after(started, now) == Some(now),
        started is Some ==> started_after(started, now) == started,
        !sleep_expired(None, duration, now),
        started matches Some(s) ==> (sleep_expired(started, duration, now) <==> s + duration <= now),
{
}

} // verus!
