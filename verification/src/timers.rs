//! The two countdown timers, decaying at a fixed sub-rate of the step rate.

use vstd::prelude::*;

verus! {

/// Engine steps between two timer decays: the timers decay once every
/// `TICK_SUB_RATE` steps, approximating a 60 Hz decay against a 480 Hz
/// step rate.
pub const TICK_SUB_RATE: u8 = 8;

/// Delay and sound timers after one engine step, as the triple
/// `(delay, sound, time_until_tick)`. While the countdown to the next decay
/// is positive it just decreases; when it reaches zero both timers decay,
/// floored at zero, and the countdown restarts.
pub open spec fn timer_tick_spec(delay: u8, sound: u8, until: u8) -> (u8, u8, u8) {
    if until != 0 {
        (delay, sound, (until - 1) as u8)
    } else {
        (
            if delay > 0 {
                (delay - 1) as u8
            } else {
                0u8
            },
            if sound > 0 {
                (sound - 1) as u8
            } else {
                0u8
            },
            (TICK_SUB_RATE - 1) as u8,
        )
    }
}

/// The timer triple after `n` engine steps.
pub open spec fn timer_ticked_n(t: (u8, u8, u8), n: nat) -> (u8, u8, u8)
    decreases n,
{
    if n == 0 {
        t
    } else {
        let p = timer_ticked_n(t, (n - 1) as nat);
        timer_tick_spec(p.0, p.1, p.2)
    }
}

/// Timer decay: a freshly started timer decrements by exactly one over the
/// 8-step sub-rate window, and the countdown returns to where it began, so
/// the decay repeats once per 8 steps and never wraps below zero.
pub proof fn lemma_timer_decay(delay: u8, sound: u8)
    requires
        delay > 0,
    ensures
        timer_ticked_n((delay, sound, 0), TICK_SUB_RATE as nat).0 == delay - 1,
        timer_ticked_n((delay, sound, 0), TICK_SUB_RATE as nat).2 == 0,
{
    let t0 = (delay, sound, 0u8);
    let d = (delay - 1) as u8;
    let s = if sound > 0 {
        (sound - 1) as u8
    } else {
        0u8
    };
    assert(timer_ticked_n(t0, 0) == t0);
    assert(timer_ticked_n(t0, 1) == (d, s, 7u8));
    assert(timer_ticked_n(t0, 2) == (d, s, 6u8));
    assert(timer_ticked_n(t0, 3) == (d, s, 5u8));
    assert(timer_ticked_n(t0, 4) == (d, s, 4u8));
    assert(timer_ticked_n(t0, 5) == (d, s, 3u8));
    assert(timer_ticked_n(t0, 6) == (d, s, 2u8));
    assert(timer_ticked_n(t0, 7) == (d, s, 1u8));
    assert(timer_ticked_n(t0, 8) == (d, s, 0u8));
}

/// Two 8-bit counters that only ever decrement, floored at zero, once per
/// `TICK_SUB_RATE` engine steps.
pub struct Timers {
    pub delay: u8,
    pub sound: u8,
    pub time_until_tick: u8,
}

impl Timers {
    /// Engine steps left before the next decay.
    pub open spec fn until_tick(&self) -> u8 {
        self.time_until_tick
    }

    pub fn new() -> (r: Self)
        ensures
            r.delay == 0,
            r.sound == 0,
            r.until_tick() == 0,
    {
        Timers { delay: 0, sound: 0, time_until_tick: 0 }
    }

    /// One engine step's worth of timer decay; the timers never wrap below
    /// zero.
    pub fn tick(&mut self)
        ensures
            (final(self).delay, final(self).sound, final(self).until_tick()) == timer_tick_spec(
                old(self).delay,
                old(self).sound,
                old(self).until_tick(),
            ),
            final(self).delay <= old(self).delay,
            final(self).sound <= old(self).sound,
    {
        if self.time_until_tick != 0 {
            self.time_until_tick -= 1;
            return ;
        }
        self.time_until_tick = TICK_SUB_RATE - 1;
        if self.delay > 0 {
            self.delay -= 1;
        }
        if self.sound > 0 {
            self.sound -= 1;
        }
    }
}

} // verus!
