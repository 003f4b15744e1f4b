//! Busy-wait delay capability and cycle-counter bookkeeping.
//!
//! The transaction engine only needs a microsecond-granularity blocking wait,
//! which it takes as a [`DelayUs`] capability supplied at construction time.
//! The cycle-counter arithmetic of the on-chip delay providers is verified
//! here; the actual counter reads live outside the library, next to the
//! hardware they touch.

use vstd::prelude::*;

verus! {

/// Clock rate of the U74 core (in Hertz): 1,500 MHz.
pub const U74_CLOCK_HZ: u64 = 1_500_000_000;

/// Blocking delay capability: a microsecond-granularity busy wait.
///
/// The engine uses it only to pace its bounded timeout polls. Nothing is
/// promised of an implementation: the engine's contracts hold whatever a
/// `delay_us` call does.
pub trait DelayUs: Sized {
    /// Busy-waits for at least `us` microseconds.
    fn delay_us(&mut self, us: u32);
}

/// The number of counter ticks that spans `ns` nanoseconds at a tick rate of
/// `ticks_second` Hertz, saturating at the counter width.
pub open spec fn spec_delay_ticks(ns: u32, ticks_second: u64) -> u64 {
    if ns * ticks_second > u64::MAX {
        ((u64::MAX as int) / 1_000_000_000) as u64
    } else {
        ((ns * ticks_second) as int / 1_000_000_000) as u64
    }
}

/// Converts a nanosecond wait into a number of counter ticks, saturating the
/// intermediate product at the counter width before dividing.
pub fn delay_ticks(ns: u32, ticks_second: u64) -> (r: u64)
    ensures
        r == spec_delay_ticks(ns, ticks_second),
{
    proof {
        assert((ns as int) * (ticks_second as int) <= (u32::MAX as int) * (u64::MAX as int))
            by (nonlinear_arith)
            requires
                ns <= u32::MAX,
                ticks_second <= u64::MAX,
        ;
    }
    let wide: u128 = (ns as u128) * (ticks_second as u128);
    let clamped: u64 = if wide > u64::MAX as u128 {
        u64::MAX
    } else {
        wide as u64
    };
    clamped / 1_000_000_000u64
}

/// The distance from `start` to `now` on a free-running counter that may wrap
/// around, as the counter's own modular subtraction gives it.
pub open spec fn spec_elapsed(start: u64, now: u64) -> u64 {
    if now >= start {
        (now - start) as u64
    } else {
        (now - start + 0x1_0000_0000_0000_0000) as u64
    }
}

/// Wraparound-tolerant distance from `start` to `now` on a free-running
/// counter.
pub fn elapsed_ticks(start: u64, now: u64) -> (r: u64)
    ensures
        r == spec_elapsed(start, now),
{
    now.wrapping_sub(start)
}

/// Machine-mode cycle counter (`mcycle`) as a delay provider.
///
/// The library holds the tick-rate record and the tick arithmetic; reading
/// the counter itself is hardware access that lives with the caller.
#[derive(Clone, Copy, Debug, PartialEq, Eq, Structural)]
pub struct McycleDelay {
    ticks_second: u64,
}

impl McycleDelay {
    /// The configured tick rate, in Hertz.
    pub closed spec fn spec_ticks_second(self) -> u64 {
        self.ticks_second
    }

    /// Creates a new [`McycleDelay`] from the provided tick rate (in Hertz).
    pub fn new(ticks_second: u64) -> (r: Self)
        ensures
            r.spec_ticks_second() == ticks_second,
    {
        Self { ticks_second }
    }

    /// Gets the configured tick rate, in Hertz.
    pub fn ticks_second(&self) -> (r: u64)
        ensures
            r == self.spec_ticks_second(),
    {
        self.ticks_second
    }

    /// The number of counter ticks this provider waits for an `ns` nanosecond
    /// delay.
    pub fn ticks_for_ns(&self, ns: u32) -> (r: u64)
        ensures
            r == spec_delay_ticks(ns, self.spec_ticks_second()),
    {
        delay_ticks(ns, self.ticks_second)
    }
}

/// User-mode cycle counter (`cycle`) as a delay provider.
///
/// The library holds the tick-rate record and the tick arithmetic; reading
/// the counter itself is hardware access that lives with the caller.
#[derive(Clone, Copy, Debug, PartialEq, Eq, Structural)]
pub struct UcycleDelay {
    ticks_second: u64,
}

impl UcycleDelay {
    /// The configured tick rate, in Hertz.
    pub closed spec fn spec_ticks_second(self) -> u64 {
        self.ticks_second
    }

    /// Creates a new [`UcycleDelay`] from the provided tick rate (in Hertz).
    pub fn new(ticks_second: u64) -> (r: Self)
        ensures
            r.spec_ticks_second() == ticks_second,
    {
        Self { ticks_second }
    }

    /// Gets the configured tick rate, in Hertz.
    pub fn ticks_second(&self) -> (r: u64)
        ensures
            r == self.spec_ticks_second(),
    {
        self.ticks_second
    }

    /// The number of counter ticks this provider waits for an `ns` nanosecond
    /// delay.
    pub fn ticks_for_ns(&self, ns: u32) -> (r: u64)
        ensures
            r == spec_delay_ticks(ns, self.spec_ticks_second()),
    {
        delay_ticks(ns, self.ticks_second)
    }
}

/// Convenience function to get a [`McycleDelay`] for the U74 core.
pub fn u74_mdelay() -> (r: McycleDelay)
    ensures
        r.spec_ticks_second() == U74_CLOCK_HZ,
{
    McycleDelay::new(U74_CLOCK_HZ)
}

/// Convenience function to get a [`UcycleDelay`] for the U74 core.
pub fn u74_udelay() -> (r: UcycleDelay)
    ensures
        r.spec_ticks_second() == U74_CLOCK_HZ,
{
    UcycleDelay::new(U74_CLOCK_HZ)
}

} // verus!
