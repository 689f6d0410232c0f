//! Paces execution against wall time. Time is given to the clock as a count of
//! nanoseconds from any fixed origin; the clock answers how long to sleep.
use vstd::prelude::*;
use crate::cpu::TickCount;

verus! {

/// The nominal speed of the processor: 1 MHz.
pub const DEFAULT_CLOCK_SPEED: u32 = 1_000_000;

/// The tick count from which the clock re-anchors, so that adding one more
/// tick count cannot overflow.
pub const TICK_LIMIT: u32 = 0xfffe_ffff;

/// Whether the clock throttles execution to its speed.
#[derive(Clone, Copy, Debug, PartialEq, Eq, Structural)]
pub enum ClockMode {
    /// Execution waits for wall time to catch up with the ticks.
    Normal,
    /// Execution never waits.
    Speedy,
}

/// A clock that counts ticks from a reference instant.
#[derive(Clone, Copy, Debug)]
pub struct Clock {
    mode: ClockMode,
    speed: u32,
    interval: u64,
    reference: u64,
    ticks_since_reference: u32,
}

/// The nanoseconds from the reference instant at which `ticks` ticks are due,
/// capped at the largest instant.
pub open spec fn due_at(reference: u64, interval: u64, ticks: u32) -> u64 {
    if reference + interval * ticks > u64::MAX {
        u64::MAX
    } else {
        (reference + interval * ticks) as u64
    }
}

/// How long a clock asks to sleep after counting `tick_count` more ticks at `now`:
/// nothing when it does not throttle or the ticks are already due.
pub open spec fn sleep_for(c: Clock, tick_count: TickCount, now: u64) -> u64 {
    let due = due_at(c.reference(), c.interval(), (c.ticks() + tick_count) as u32);
    if c.mode() == ClockMode::Speedy || now >= due {
        0
    } else {
        (due - now) as u64
    }
}

impl Clock {
    pub closed spec fn mode(&self) -> ClockMode {
        self.mode
    }

    /// Ticks per second.
    pub closed spec fn speed(&self) -> u32 {
        self.speed
    }

    /// Nanoseconds per tick.
    pub closed spec fn interval(&self) -> u64 {
        self.interval
    }

    /// The instant, in nanoseconds, from which ticks are counted.
    pub closed spec fn reference(&self) -> u64 {
        self.reference
    }

    /// The ticks counted since the reference instant.
    pub closed spec fn ticks(&self) -> u32 {
        self.ticks_since_reference
    }

    /// The invariant: the tick count stays below the limit.
    pub open spec fn wf(&self) -> bool {
        self.ticks() < TICK_LIMIT
    }

    /// A clock in `mode` at the default speed, counting from instant 0.
    pub fn new(mode: ClockMode) -> (r: Clock)
        ensures
            r.wf(),
            r.mode() == mode,
            r.speed() == DEFAULT_CLOCK_SPEED,
            r.interval() == 1_000_000_000int / (DEFAULT_CLOCK_SPEED as int),
            r.reference() == 0,
            r.ticks() == 0,
    {
        Clock {
            mode,
            speed: DEFAULT_CLOCK_SPEED,
            interval: 1_000_000_000 / DEFAULT_CLOCK_SPEED as u64,
            reference: 0,
            ticks_since_reference: 0,
        }
    }

    /// The same clock running at `speed` ticks per second.
    pub fn with_clock_speed(self, speed: u32) -> (r: Clock)
        requires
            speed > 0,
        ensures
            r.wf() == self.wf(),
            r.mode() == self.mode(),
            r.speed() == speed,
            r.interval() == 1_000_000_000int / (speed as int),
            r.reference() == self.reference(),
            r.ticks() == self.ticks(),
    {
        Clock { speed, interval: 1_000_000_000 / speed as u64, ..self }
    }

    /// Counts `tick_count` more ticks at instant `now` and returns how many
    /// nanoseconds to sleep until they are due. A clock that is late, or whose
    /// count reaches the limit, re-anchors at the instant the ticks were due
    /// (or at `now`, if later) and counts from zero.
    pub fn wait_for_tick(&mut self, tick_count: TickCount, now: u64) -> (r: u64)
        requires
            old(self).wf(),
        ensures
            final(self).wf(),
            r == sleep_for(*old(self), tick_count, now),
            ({
                let c = *old(self);
                let ticks = c.ticks() + tick_count;
                let due = due_at(c.reference(), c.interval(), ticks as u32);
                if c.mode() == ClockMode::Speedy {
                    r == 0 && *final(self) == c
                } else {
                    &&& r == if now < due {
                        due - now
                    } else {
                        0
                    }
                    &&& final(self).mode() == c.mode() && final(self).speed() == c.speed()
                        && final(self).interval() == c.interval()
                    &&& if now >= due || ticks >= TICK_LIMIT {
                        final(self).ticks() == 0 && final(self).reference() == if now < due {
                            due
                        } else {
                            now
                        }
                    } else {
                        final(self).ticks() == ticks && final(self).reference() == c.reference()
                    }
                }
            }),
    {
        match self.mode {
            ClockMode::Speedy => 0,
            ClockMode::Normal => self.wait_for_normal_tick(tick_count, now),
        }
    }

    fn wait_for_normal_tick(&mut self, tick_count: TickCount, now: u64) -> (r: u64)
        requires
            old(self).wf(),
        ensures
            final(self).wf(),
            ({
                let c = *old(self);
                let ticks = c.ticks() + tick_count;
                let due = due_at(c.reference(), c.interval(), ticks as u32);
                &&& r == if now < due {
                    due - now
                } else {
                    0
                }
                &&& final(self).mode() == c.mode() && final(self).speed() == c.speed()
                    && final(self).interval() == c.interval()
                &&& if now >= due || ticks >= TICK_LIMIT {
                    final(self).ticks() == 0 && final(self).reference() == if now < due {
                        due
                    } else {
                        now
                    }
                } else {
                    final(self).ticks() == ticks && final(self).reference() == c.reference()
                }
            }),
    {
        self.ticks_since_reference = self.ticks_since_reference + tick_count as u32;
        let elapsed = self.interval.checked_mul(self.ticks_since_reference as u64);
        let due = match elapsed {
            Some(e) => self.reference.saturating_add(e),
            None => u64::MAX,
        };
        proof {
            if elapsed is Some {
                assert(self.interval * self.ticks_since_reference <= u64::MAX);
            } else {
                assert(self.interval * self.ticks_since_reference > u64::MAX);
                assert(self.reference + self.interval * self.ticks_since_reference > u64::MAX)
                    by (nonlinear_arith)
                    requires
                        self.interval * self.ticks_since_reference > u64::MAX,
                        self.reference >= 0,
                ;
            }
        }
        let sleep = if now < due {
            due - now
        } else {
            0
        };
        if now >= due || self.ticks_since_reference >= TICK_LIMIT {
            self.reference = if now < due {
                due
            } else {
                now
            };
            self.ticks_since_reference = 0;
        }
        sleep
    }
}

impl Default for Clock {
    /// A throttled clock at the default speed.
    fn default() -> (r: Clock)
        ensures
            r.wf(),
            r.mode() == ClockMode::Normal,
            r.speed() == DEFAULT_CLOCK_SPEED,
            r.interval() == 1_000_000_000int / (DEFAULT_CLOCK_SPEED as int),
            r.reference() == 0,
            r.ticks() == 0,
    {
        Clock::new(ClockMode::Normal)
    }
}

} // verus!
