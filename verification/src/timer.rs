//! Timers

use vstd::prelude::*;
use crate::time::Hertz;

mod syst;

pub use syst::timer_reload;
pub use syst::start_program;
pub use syst::WouldBlock;
pub use syst::CORE_CLOCK_HZ;

verus! {

pub trait TimerExt<TIM>: Sized {
    /// Whether the timer can count down at `timeout`.
    spec fn accepts(timeout: Hertz) -> bool;

    /// Whether `timer` is the timer made from `self`, counting down at `timeout`.
    spec fn provides(self, timeout: Hertz, timer: Timer<TIM>) -> bool;

    fn timer(self, timeout: Hertz) -> (timer: Timer<TIM>)
        requires
            Self::accepts(timeout),
        ensures
            self.provides(timeout, timer),
    ;
}

/// Hardware timers
pub struct Timer<TIM> {
    tim: TIM,
}

} // verus!
