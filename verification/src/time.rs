//! Time units

use vstd::prelude::*;
use vstd::string::*;
use crate::text::decimal;
use crate::text::push_decimal;

verus! {

/// Bits per second
#[derive(Clone, Copy, PartialEq, Eq, Debug)]
pub struct Bps(pub u32);

/// Hertz
#[derive(Clone, Copy, PartialEq, Eq, Debug)]
pub struct Hertz(pub u32);

/// KiloHertz
#[derive(Clone, Copy, PartialEq, Eq, Debug)]
pub struct KiloHertz(pub u32);

/// MegaHertz
#[derive(Clone, Copy, PartialEq, Eq, Debug)]
pub struct MegaHertz(pub u32);

/// Microseconds
#[derive(Debug, PartialEq, PartialOrd, Clone, Copy)]
pub struct MicroSeconds(pub u32);

impl MicroSeconds {
    /// The duration as text: the count in base ten, a space and the unit.
    pub fn to_string(&self) -> (text: String)
        ensures
            text@ == decimal(self.0 as nat) + " µs"@,
    {
        let mut text = String::new();
        push_decimal(&mut text, self.0);
        text.append(" µs");
        assert(text@ =~= decimal(self.0 as nat) + " µs"@);
        text
    }
}

/// Extension trait that adds convenience methods to the `u32` type
pub trait U32Ext: Sized {
    /// The number that the methods wrap.
    spec fn count(self) -> nat;

    /// Wrap in `Bps`
    fn bps(self) -> (r: Bps)
        ensures
            r.0 == self.count(),
    ;

    /// Wrap in `Hertz`
    fn hz(self) -> (r: Hertz)
        ensures
            r.0 == self.count(),
    ;

    /// Wrap in `KiloHertz`
    fn khz(self) -> (r: KiloHertz)
        ensures
            r.0 == self.count(),
    ;

    /// Wrap in `MegaHertz`
    fn mhz(self) -> (r: MegaHertz)
        ensures
            r.0 == self.count(),
    ;

    /// Wrap in `MicroSeconds`
    fn us(self) -> (r: MicroSeconds)
        ensures
            r.0 == self.count(),
    ;

    /// Milliseconds, held as `MicroSeconds`
    fn ms(self) -> (r: MicroSeconds)
        requires
            self.count() * 1_000 <= u32::MAX,
        ensures
            r.0 == self.count() * 1_000,
    ;
}

impl U32Ext for u32 {
    open spec fn count(self) -> nat {
        self as nat
    }

    fn bps(self) -> (r: Bps) {
        Bps(self)
    }

    fn hz(self) -> (r: Hertz) {
        Hertz(self)
    }

    fn khz(self) -> (r: KiloHertz) {
        KiloHertz(self)
    }

    fn mhz(self) -> (r: MegaHertz) {
        MegaHertz(self)
    }

    fn us(self) -> (r: MicroSeconds) {
        MicroSeconds(self)
    }

    fn ms(self) -> (r: MicroSeconds) {
        MicroSeconds(self * 1_000)
    }
}

impl Hertz {
    /// The period of one cycle, in whole microseconds.
    pub fn into_micro_seconds(self) -> (period: MicroSeconds)
        requires
            self.0 != 0,
            self.0 <= 1_000_000,
        ensures
            period.0 == 1_000_000int / (self.0 as int),
    {
        MicroSeconds(1_000_000 / self.0)
    }
}

impl MicroSeconds {
    /// The frequency whose period this is, in whole hertz.
    pub fn into_hertz(self) -> (freq: Hertz)
        requires
            self.0 != 0,
            self.0 <= 1_000_000,
        ensures
            freq.0 == 1_000_000int / (self.0 as int),
    {
        Hertz(1_000_000 / self.0)
    }
}

impl KiloHertz {
    /// The same frequency in hertz.
    pub fn into_hertz(self) -> (freq: Hertz)
        requires
            self.0 * 1_000 <= u32::MAX,
        ensures
            freq.0 == self.0 * 1_000,
    {
        Hertz(self.0 * 1_000)
    }
}

impl MegaHertz {
    /// The same frequency in hertz.
    pub fn into_hertz(self) -> (freq: Hertz)
        requires
            self.0 * 1_000_000 <= u32::MAX,
        ensures
            freq.0 == self.0 * 1_000_000,
    {
        Hertz(self.0 * 1_000_000)
    }

    /// The same frequency in kilohertz.
    pub fn into_kilo_hertz(self) -> (freq: KiloHertz)
        requires
            self.0 * 1_000 <= u32::MAX,
        ensures
            freq.0 == self.0 * 1_000,
    {
        KiloHertz(self.0 * 1_000)
    }
}

} // verus!
