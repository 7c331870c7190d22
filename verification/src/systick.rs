//! The system timer (SysTick) of the processor core

use vstd::prelude::*;
use crate::handle::Handle;

verus! {

/// The clock that the system timer counts
#[derive(Clone, Copy, PartialEq, Eq, Debug)]
pub enum SystClkSource {
    /// The processor clock
    Core,
    /// The external reference clock
    External,
}

/// One operation on the system timer
#[derive(Clone, Copy, PartialEq, Eq, Debug)]
pub enum SystOp {
    SetClockSource(SystClkSource),
    /// Set the value that the counter starts from again when it has reached
    /// zero; the register is 24 bits wide
    SetReload(u32),
    /// Clear the current value of the counter
    ClearCurrent,
    EnableCounter,
    DisableCounter,
    EnableInterrupt,
    DisableInterrupt,
    /// Read the wrap flag until it is set
    WaitWrapped,
}

/// Handle of the system timer
pub type SYST = Handle<SystOp>;

/// The largest number of ticks that one run of the counter can take.
pub const MAX_TICKS: u32 = 0x100_0000;

/// The reload value with which the counter wraps after `ticks` ticks: one
/// less than `ticks`. There is none for no ticks, nor for more than the 24-bit
/// register can count.
pub open spec fn reload_for(ticks: nat) -> Option<u32> {
    if 1 <= ticks <= MAX_TICKS {
        Some((ticks - 1) as u32)
    } else {
        None
    }
}

/// The reload value for `count` units of `per_unit` ticks each.
pub fn reload_of(count: u32, per_unit: u32) -> (reload: Option<u32>)
    ensures
        reload == reload_for(count as nat * per_unit as nat),
{
    let count_wide: u64 = count as u64;
    let per_wide: u64 = per_unit as u64;
    assert(count_wide * per_wide <= 0xFFFF_FFFF * 0xFFFF_FFFF) by (nonlinear_arith)
        requires
            count_wide <= 0xFFFF_FFFF,
            per_wide <= 0xFFFF_FFFF,
    ;
    let ticks: u64 = count_wide * per_wide;
    assert(ticks == count as nat * per_unit as nat);
    if 1 <= ticks && ticks <= MAX_TICKS as u64 {
        Some((ticks - 1) as u32)
    } else {
        None
    }
}

/// One timed run of the counter from `reload` down to zero, without
/// interrupt: set the reload value, clear the counter, start it, wait for
/// the wrap and stop it.
pub open spec fn delay_program(reload: u32) -> Seq<SystOp> {
    seq![
        SystOp::SetReload(reload),
        SystOp::ClearCurrent,
        SystOp::EnableCounter,
        SystOp::DisableInterrupt,
        SystOp::WaitWrapped,
        SystOp::DisableCounter,
    ]
}

/// Issues `delay_program(reload)`.
pub fn run_delay(syst: &mut SYST, reload: u32)
    ensures
        final(syst)@ == old(syst)@ + delay_program(reload),
{
    syst.issue(SystOp::SetReload(reload));
    syst.issue(SystOp::ClearCurrent);
    syst.issue(SystOp::EnableCounter);
    syst.issue(SystOp::DisableInterrupt);
    syst.issue(SystOp::WaitWrapped);
    syst.issue(SystOp::DisableCounter);
}

} // verus!
