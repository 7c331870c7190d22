//! The system timer as a periodic count down timer

use vstd::prelude::*;
use super::Timer;
use super::TimerExt;
use crate::systick::reload_for;
use crate::systick::reload_of;
use crate::systick::SystClkSource;
use crate::systick::SystOp;
use crate::systick::SYST;
use crate::time::Hertz;

verus! {

/// The processor clock that the timer reckons with, in hertz.
pub const CORE_CLOCK_HZ: u32 = 84_000_000;

/// The reload value with which the counter wraps `timeout` times a second,
/// rounded down to whole ticks; none for a frequency of zero, for one above
/// the processor clock, or for one too low for the 24-bit counter.
pub open spec fn timer_reload(timeout: Hertz) -> Option<u32> {
    if timeout.0 == 0 {
        None
    } else {
        reload_for((CORE_CLOCK_HZ / timeout.0) as nat)
    }
}

/// Starting a count down: set the reload value, clear the counter, start it.
pub open spec fn start_program(reload: u32) -> Seq<SystOp> {
    seq![SystOp::SetReload(reload), SystOp::ClearCurrent, SystOp::EnableCounter]
}

/// The count down has not yet wrapped.
#[derive(Clone, Copy, PartialEq, Eq, Debug)]
pub struct WouldBlock;

impl Timer<SYST> {
    /// What has been issued to the timer and not yet handed to the driver.
    pub closed spec fn issued(&self) -> Seq<SystOp> {
        self.tim@
    }

    /// The reload value with which the timer counts down at `timeout`, or
    /// `None` where `start` cannot be called.
    pub fn reload_for_timeout(timeout: Hertz) -> (reload: Option<u32>)
        ensures
            reload == timer_reload(timeout),
    {
        if timeout.0 == 0 {
            None
        } else {
            reload_of(CORE_CLOCK_HZ / timeout.0, 1)
        }
    }

    /// Configures the SYST clock as a periodic count down timer
    pub fn syst(syst: SYST, timeout: Hertz) -> (timer: Self)
        requires
            timer_reload(timeout) is Some,
        ensures
            timer.issued() == syst@.push(SystOp::SetClockSource(SystClkSource::Core))
                + start_program(timer_reload(timeout)->0),
    {
        let mut syst = syst;
        syst.issue(SystOp::SetClockSource(SystClkSource::Core));
        let mut timer = Timer { tim: syst };
        timer.start(timeout);
        timer
    }

    /// Starts listening
    pub fn listen(&mut self)
        ensures
            final(self).issued() == old(self).issued().push(SystOp::EnableInterrupt),
    {
        self.tim.issue(SystOp::EnableInterrupt)
    }

    /// Stops listening
    pub fn unlisten(&mut self)
        ensures
            final(self).issued() == old(self).issued().push(SystOp::DisableInterrupt),
    {
        self.tim.issue(SystOp::DisableInterrupt)
    }

    /// Starts a count down that wraps `timeout` times a second.
    pub fn start(&mut self, timeout: Hertz)
        requires
            timer_reload(timeout) is Some,
        ensures
            final(self).issued() == old(self).issued() + start_program(timer_reload(timeout)->0),
    {
        let reload_value = (CORE_CLOCK_HZ / timeout.0) - 1;
        self.tim.issue(SystOp::SetReload(reload_value));
        self.tim.issue(SystOp::ClearCurrent);
        self.tim.issue(SystOp::EnableCounter);
    }

    /// What a poll of the count down answers, given the wrap flag that the
    /// driver has read: done once the counter has wrapped, else not yet.
    pub fn wait(&mut self, has_wrapped: bool) -> (done: Result<(), WouldBlock>)
        ensures
            done is Ok <==> has_wrapped,
            final(self).issued() == old(self).issued(),
    {
        if has_wrapped {
            Ok(())
        } else {
            Err(WouldBlock)
        }
    }

    /// Hands the recorded program to the driver.
    pub fn take_program(&mut self) -> (program: Vec<SystOp>)
        ensures
            program@ == old(self).issued(),
            final(self).issued() == Seq::<SystOp>::empty(),
    {
        self.tim.take()
    }
}

impl TimerExt<SYST> for SYST {
    open spec fn accepts(timeout: Hertz) -> bool {
        timer_reload(timeout) is Some
    }

    open spec fn provides(self, timeout: Hertz, timer: Timer<SYST>) -> bool {
        timer.issued() == self@.push(SystOp::SetClockSource(SystClkSource::Core)) + start_program(
            timer_reload(timeout)->0,
        )
    }

    fn timer(self, timeout: Hertz) -> (timer: Timer<SYST>) {
        Timer::syst(self, timeout)
    }
}

} // verus!
