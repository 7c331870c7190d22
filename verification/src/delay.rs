//! Delays

use vstd::prelude::*;
use crate::pmc::Clocks;

mod syst;

pub use syst::ms_reload;
pub use syst::ms_ticks;
pub use syst::us_reload;
pub use syst::us_ticks;
pub use syst::MICROSECONDS_PER_SECOND;
pub use syst::MILLISECONDS_PER_SECOND;

verus! {

pub trait DelayExt<S>: Sized {
    /// Whether `delay` is the provider made from `self` under `clocks`.
    spec fn provides(self, clocks: Clocks, delay: Delay<S>) -> bool;

    fn delay(self, clocks: Clocks) -> (delay: Delay<S>)
        ensures
            self.provides(clocks, delay),
    ;
}

/// Generic timer struct.  Possible sources include System timer (SysTick) and the Timer Counter modules (TC0...TC2)
pub struct Delay<S> {
    source: S,
    clocks: Clocks,
}

} // verus!
