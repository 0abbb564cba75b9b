use vstd::prelude::*;

verus! {

/// An interval timer: it fires once the interval has passed since it last fired.
///
/// Both fields are in microseconds; `start` is the instant of the last firing
/// (or of creation).
#[derive(Clone, Copy, Debug, PartialEq, Eq, Structural)]
pub struct Time {
    pub time_to_pass: u64,
    pub start: u64,
}

impl Time {
    /// Whether a poll at `now` fires: strictly more than the interval has
    /// passed since `start`.
    pub open spec fn fires(self, now: u64) -> bool {
        now > self.start + self.time_to_pass
    }

    /// The timer after a poll at `now`.
    pub open spec fn polled(self, now: u64) -> Time {
        if self.fires(now) {
            Time { time_to_pass: self.time_to_pass, start: now }
        } else {
            self
        }
    }

    /// A timer with the given interval whose reference point is `now`.
    pub fn new(time_to_pass: u64, now: u64) -> (r: Time)
        ensures
            r.time_to_pass == time_to_pass,
            r.start == now,
    {
        Time { time_to_pass, start: now }
    }

    /// Whether a poll at `now` would fire, without polling.
    pub fn is_due(&self, now: u64) -> (r: bool)
        ensures
            r == self.fires(now),
    {
        now > self.start && now - self.start > self.time_to_pass
    }

    /// Polls the timer at `now`: returns true and moves the reference point to
    /// `now` when the interval has passed, else returns false and changes nothing.
    pub fn update(&mut self, now: u64) -> (fired: bool)
        ensures
            fired == old(self).fires(now),
            *final(self) == old(self).polled(now),
            final(self).start >= old(self).start,
    {
        if self.is_due(now) {
            self.start = now;
            true
        } else {
            false
        }
    }
}

/// A poll strictly before `start + time_to_pass` does not fire and leaves the
/// timer as it is; a poll strictly after that instant fires and moves the
/// reference point to the time of the poll. (A poll at exactly that instant
/// does not fire: the interval must be exceeded.)
pub proof fn lemma_poll_fires_after_interval(t: Time, now: u64)
    ensures
        now < t.start + t.time_to_pass ==> !t.fires(now) && t.polled(now) == t,
        now > t.start + t.time_to_pass ==> t.fires(now) && t.polled(now).start == now
            && t.polled(now).time_to_pass == t.time_to_pass,
        now == t.start + t.time_to_pass ==> !t.fires(now),
{
}

/// The reference point of a timer never moves backwards, whatever the poll time.
pub proof fn lemma_poll_start_monotonic(t: Time, now: u64)
    ensures
        t.polled(now).start >= t.start,
{
}

} // verus!
