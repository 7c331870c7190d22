//! The system timer as a delay provider

use vstd::prelude::*;
use super::Delay;
use super::DelayExt;
use crate::pmc::Clocks;
use crate::pmc::MasterClockSrc;
use crate::systick::delay_program;
use crate::systick::reload_for;
use crate::systick::reload_of;
use crate::systick::run_delay;
use crate::systick::SystClkSource;
use crate::systick::SystOp;
use crate::systick::SYST;

verus! {

pub const MILLISECONDS_PER_SECOND: u32 = 1_000;

pub const MICROSECONDS_PER_SECOND: u32 = 1_000_000;

/// Ticks of a processor clock of `hz` hertz in `us` microseconds, the clock
/// taken as a whole number of megahertz, rounded down.
pub open spec fn us_ticks(hz: u32, us: u32) -> nat {
    us as nat * (hz / MICROSECONDS_PER_SECOND) as nat
}

/// Ticks in `ms` milliseconds. On the slow clock the processor clock is
/// taken as a whole number of kilohertz, rounded down; on any other source
/// the milliseconds count as a thousand microseconds each.
pub open spec fn ms_ticks(source: MasterClockSrc, hz: u32, ms: u32) -> nat {
    if source is SlowClock {
        ms as nat * (hz / MILLISECONDS_PER_SECOND) as nat
    } else {
        (ms * 1_000) as nat * (hz / MICROSECONDS_PER_SECOND) as nat
    }
}

/// The reload value for a delay of `us` microseconds, where there is one.
pub open spec fn us_reload(clocks: Clocks, us: u32) -> Option<u32> {
    reload_for(us_ticks(clocks.processor_clk().0, us))
}

/// The reload value for a delay of `ms` milliseconds, where there is one.
/// On a source other than the slow clock there is none for a number of
/// microseconds beyond `u32::MAX`.
pub open spec fn ms_reload(clocks: Clocks, ms: u32) -> Option<u32> {
    if !(clocks.source() is SlowClock) && ms * 1_000 > u32::MAX {
        None
    } else {
        reload_for(ms_ticks(clocks.source(), clocks.processor_clk().0, ms))
    }
}

impl DelayExt<SYST> for SYST {
    open spec fn provides(self, clocks: Clocks, delay: Delay<SYST>) -> bool {
        &&& delay.issued() == self@.push(SystOp::SetClockSource(SystClkSource::Core))
        &&& delay.clocks() == clocks
    }

    fn delay(self, clocks: Clocks) -> (delay: Delay<SYST>) {
        Delay::<SYST>::new(self, clocks)
    }
}

impl Delay<SYST> {
    /// What has been issued to the timer and not yet handed to the driver.
    pub closed spec fn issued(&self) -> Seq<SystOp> {
        self.source@
    }

    /// The clocks that the provider was made under.
    pub closed spec fn clocks(&self) -> Clocks {
        self.clocks
    }

    /// Configures the system timer (SysTick) as a delay provider
    pub fn new(source: SYST, clocks: Clocks) -> (delay: Self)
        ensures
            delay.issued() == source@.push(SystOp::SetClockSource(SystClkSource::Core)),
            delay.clocks() == clocks,
    {
        let mut source = source;
        // Count the master clock, not the master clock divided by 8
        source.issue(SystOp::SetClockSource(SystClkSource::Core));
        Delay { source, clocks }
    }

    /// Releases the system timer (SysTick) resource
    pub fn free(self) -> (source: SYST)
        ensures
            source@ == self.issued(),
    {
        self.source
    }

    /// Hands the recorded program to the driver.
    pub fn take_program(&mut self) -> (program: Vec<SystOp>)
        ensures
            program@ == old(self).issued(),
            final(self).issued() == Seq::<SystOp>::empty(),
            final(self).clocks() == old(self).clocks(),
    {
        self.source.take()
    }

    /// The reload value with which `delay_us` runs the counter for `us`
    /// microseconds, or `None` where `delay_us` cannot be called.
    pub fn reload_for_us(&self, us: u32) -> (reload: Option<u32>)
        ensures
            reload == us_reload(self.clocks(), us),
    {
        let frequency = self.clocks.processor_clk();
        reload_of(us, frequency.0 / MICROSECONDS_PER_SECOND)
    }

    /// The reload value with which `delay_ms` runs the counter for `ms`
    /// milliseconds, or `None` where `delay_ms` cannot be called.
    pub fn reload_for_ms(&self, ms: u32) -> (reload: Option<u32>)
        ensures
            reload == ms_reload(self.clocks(), ms),
    {
        let frequency = self.clocks.processor_clk();
        if let MasterClockSrc::SlowClock = self.clocks.source() {
            reload_of(ms, frequency.0 / MILLISECONDS_PER_SECOND)
        } else if ms > u32::MAX / 1_000 {
            None
        } else {
            reload_of(ms * 1_000, frequency.0 / MICROSECONDS_PER_SECOND)
        }
    }

    /// Runs the counter for `ms` milliseconds.
    ///
    /// This is limited to 2^24 ticks, which is about 199 ms at 84 MHz
    /// from the core clock. If a longer delay is needed consider a
    /// different clock source like the external slow clock.
    pub fn delay_ms(&mut self, ms: u32)
        requires
            ms_reload(old(self).clocks(), ms) is Some,
        ensures
            final(self).issued() == old(self).issued() + delay_program(
                ms_reload(old(self).clocks(), ms)->0,
            ),
            final(self).clocks() == old(self).clocks(),
    {
        if let MasterClockSrc::SlowClock = self.clocks.source() {
            // Too slow to get us precision
            let frequency = self.clocks.processor_clk();
            let reload_value = (ms * (frequency.0 / MILLISECONDS_PER_SECOND)) - 1;
            run_delay(&mut self.source, reload_value);
        } else {
            self.delay_us(ms * 1_000);
        }
    }

    /// Runs the counter for `us` microseconds.
    pub fn delay_us(&mut self, us: u32)
        requires
            us_reload(old(self).clocks(), us) is Some,
        ensures
            final(self).issued() == old(self).issued() + delay_program(
                us_reload(old(self).clocks(), us)->0,
            ),
            final(self).clocks() == old(self).clocks(),
    {
        let frequency = self.clocks.processor_clk();
        let reload_value = (us * (frequency.0 / MICROSECONDS_PER_SECOND)) - 1;
        run_delay(&mut self.source, reload_value);
    }
}

} // verus!
