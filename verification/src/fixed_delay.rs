//! Delays on a system timer that counts eight ticks in a microsecond

use vstd::prelude::*;
use crate::systick::delay_program;
use crate::systick::reload_for;
use crate::systick::reload_of;
use crate::systick::run_delay;
use crate::systick::SystClkSource;
use crate::systick::SystOp;
use crate::systick::SYST;

verus! {

/// Ticks that the timer is taken to count in one microsecond.
pub const TICKS_PER_MICROSECOND: u32 = 8;

/// The reload value for a delay of `us` microseconds, where there is one.
pub open spec fn us_reload(us: u32) -> Option<u32> {
    reload_for(us as nat * TICKS_PER_MICROSECOND as nat)
}

/// The reload value for a delay of `ms` milliseconds, where there is one;
/// there is none for a number of microseconds beyond `u32::MAX`.
pub open spec fn ms_reload(ms: u32) -> Option<u32> {
    if ms * 1_000 > u32::MAX {
        None
    } else {
        us_reload((ms * 1_000) as u32)
    }
}

/// System timer (SysTick) as a delay provider
pub struct Delay<S> {
    source: S,
}

impl Delay<SYST> {
    /// What has been issued to the timer and not yet handed to the driver.
    pub closed spec fn issued(&self) -> Seq<SystOp> {
        self.source@
    }

    /// Configures the system timer (SysTick) as a delay provider
    pub fn new(source: SYST, clock_source: SystClkSource) -> (delay: Self)
        ensures
            delay.issued() == source@.push(SystOp::SetClockSource(clock_source)),
    {
        let mut source = source;
        source.issue(SystOp::SetClockSource(clock_source));
        Delay { source }
    }

    /// Releases the system timer (SysTick) resource
    pub fn free(self) -> (source: SYST)
        ensures
            source@ == self.issued(),
    {
        self.source
    }

    /// Hands the recorded program to the driver.
    pub fn take_program(&mut self) -> (program: Vec<SystOp>)
        ensures
            program@ == old(self).issued(),
            final(self).issued() == Seq::<SystOp>::empty(),
    {
        self.source.take()
    }

    /// The reload value with which `delay_us` runs the counter, or `None`
    /// where `delay_us` cannot be called.
    pub fn reload_for_us(us: u32) -> (reload: Option<u32>)
        ensures
            reload == us_reload(us),
    {
        reload_of(us, TICKS_PER_MICROSECOND)
    }

    /// The reload value with which `delay_ms` runs the counter, or `None`
    /// where `delay_ms` cannot be called.
    pub fn reload_for_ms(ms: u32) -> (reload: Option<u32>)
        ensures
            reload == ms_reload(ms),
    {
        if ms > u32::MAX / 1_000 {
            None
        } else {
            reload_of(ms * 1_000, TICKS_PER_MICROSECOND)
        }
    }

    /// Runs the counter for `ms` milliseconds.
    ///
    /// This is limited to 2^24 / (8 * 1000) or 2097 ms.
    /// If a longer delay is needed consider a different clock
    /// source.
    pub fn delay_ms(&mut self, ms: u32)
        requires
            ms_reload(ms) is Some,
        ensures
            final(self).issued() == old(self).issued() + delay_program(ms_reload(ms)->0),
    {
        self.delay_us(ms * 1_000);
    }

    /// Runs the counter for `us` microseconds.
    pub fn delay_us(&mut self, us: u32)
        requires
            us_reload(us) is Some,
        ensures
            final(self).issued() == old(self).issued() + delay_program(us_reload(us)->0),
    {
        let reload_value = (us * 8) - 1;
        run_delay(&mut self.source, reload_value);
    }
}

} // verus!
