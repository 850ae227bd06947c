//! The millisecond clock and the periodic triggers that run on it.
use vstd::prelude::*;

verus! {

/// Milliseconds since boot. The counter wraps around after `u32::MAX`.
#[derive(Clone, Copy, Debug)]
pub struct ElapsedMs {
    ms: u32,
}

impl View for ElapsedMs {
    type V = u32;

    closed spec fn view(&self) -> u32 {
        self.ms
    }
}

impl ElapsedMs {
    /// A clock that reads zero.
    pub fn new() -> (clock: Self)
        ensures
            clock@ == 0,
    {
        ElapsedMs { ms: 0 }
    }

    /// A clock that reads `ms`.
    pub fn at(ms: u32) -> (clock: Self)
        ensures
            clock@ == ms,
    {
        ElapsedMs { ms }
    }

    /// Advances the clock by one millisecond.
    pub fn increment(&mut self)
        ensures
            final(self)@ == vstd::wrapping::u32_specs::wrapping_add(old(self)@, 1),
    {
        self.increment_by(1);
    }

    /// Advances the clock by `by` milliseconds.
    pub fn increment_by(&mut self, by: u32)
        ensures
            final(self)@ == vstd::wrapping::u32_specs::wrapping_add(old(self)@, by),
    {
        self.ms = self.ms.wrapping_add(by);
    }

    /// The current reading.
    pub fn now(&self) -> (now: u32)
        ensures
            now == self@,
    {
        self.ms
    }
}

/// A trigger that fires at most once every `period_ms` milliseconds.
#[derive(Clone, Copy, Debug)]
pub struct EveryNMillis {
    pub next_trigger: u32,
    pub period_ms: u32,
}

impl EveryNMillis {
    /// A trigger that fires when it is first asked.
    pub fn new(period_ms: u32) -> (every: Self)
        ensures
            every.next_trigger == 0,
            every.period_ms == period_ms,
    {
        EveryNMillis { next_trigger: 0, period_ms }
    }

    /// Whether the trigger fires at the reading `now`.
    pub open spec fn is_due(&self, now: u32) -> bool {
        now >= self.next_trigger
    }

    /// The reading of the clock that the trigger runs on.
    pub fn now(&self, elapsed_ms: &ElapsedMs) -> (now: u32)
        ensures
            now == elapsed_ms@,
    {
        elapsed_ms.now()
    }

    /// Asks the trigger at the clock's current reading. It fires when the
    /// reading has reached the next trigger time; it then answers with the
    /// reading and moves the next trigger time one period past it, wrapping
    /// around as the clock does. Until then it answers `None` and stays as
    /// it is.
    pub fn ready(&mut self, elapsed_ms: &ElapsedMs) -> (fired: Option<u32>)
        ensures
            final(self).period_ms == old(self).period_ms,
            old(self).is_due(elapsed_ms@) ==> fired == Some(elapsed_ms@) && final(self).next_trigger == vstd::wrapping::u32_specs::wrapping_add(
                elapsed_ms@,
                old(self).period_ms,
            ),
            !old(self).is_due(elapsed_ms@) ==> fired.is_none() && final(self).next_trigger == old(self).next_trigger,
    {
        let now = elapsed_ms.now();
        if now < self.next_trigger {
            return None;
        }
        self.next_trigger = now.wrapping_add(self.period_ms);
        Some(now)
    }
}

/// A trigger that fires once at least `period_ms` milliseconds have passed
/// since it last fired.
#[derive(Clone, Copy, Debug)]
pub struct Periodic {
    pub previous_trigger: u32,
    pub period_ms: u32,
}

impl Periodic {
    /// A trigger whose last firing counts as the clock's zero.
    pub fn new(period_ms: u32) -> (periodic: Self)
        ensures
            periodic.previous_trigger == 0,
            periodic.period_ms == period_ms,
    {
        Periodic { previous_trigger: 0, period_ms }
    }

    /// Whether the trigger fires at the reading `now`. The time since the
    /// last firing is taken on the wrapping clock.
    pub open spec fn is_due(&self, now: u32) -> bool {
        vstd::wrapping::u32_specs::wrapping_sub(now, self.previous_trigger) >= self.period_ms
    }

    /// Asks the trigger at the clock's current reading, and remembers the
    /// reading when it fires.
    pub fn ready(&mut self, elapsed_ms: &ElapsedMs) -> (fired: bool)
        ensures
            fired == old(self).is_due(elapsed_ms@),
            final(self).period_ms == old(self).period_ms,
            final(self).previous_trigger == if fired {
                elapsed_ms@
            } else {
                old(self).previous_trigger
            },
    {
        let now = elapsed_ms.now();
        let is_ready = now.wrapping_sub(self.previous_trigger) >= self.period_ms;
        if is_ready {
            self.previous_trigger = now;
        }
        is_ready
    }
}

} // verus!
