//! Watchdog timer

use vstd::prelude::*;
use crate::handle::Handle;
use crate::time::Hertz;

verus! {

#[derive(Clone, Copy, PartialEq, Eq, Debug)]
pub enum WatchdogResetMode {
    ResetAll,
    ResetProcessorOnly,
}

/// What a configuration holds.
pub struct ConfigView {
    pub counter_value: u16,
    pub interrupt_enabled: bool,
    pub reset_on_fault: bool,
    pub reset_mode: WatchdogResetMode,
    pub run_on_debug: bool,
    pub run_on_idle: bool,
}

#[derive(Clone, Copy, PartialEq, Eq, Debug)]
pub struct Config {
    /// 12 bits max
    counter_value: u16,
    /// WDFIEN: Watchdog Fault Interrupt Enable
    /// A Watchdog fault is an underflow or error
    /// false: A Watchdog fault has no effect on interrupt.
    /// true: A Watchdog fault asserts interrupt.
    interrupt_enabled: bool,
    /// WDRSTEN: Watchdog Reset Enable
    /// false: A Watchdog fault (underflow or error) has no effect on the resets.
    /// true: A Watchdog fault (underflow or error) triggers a Watchdog reset.
    reset_on_fault: bool,
    /// WDRPROC: Watchdog Reset Processor:
    /// false: If WDRSTEN is 1, a Watchdog fault (underflow or error) activates all resets.
    /// true: If WDRSTEN is 1, a Watchdog fault (underflow or error) activates the processor reset.
    reset_mode: WatchdogResetMode,
    /// WDDBGHLT: Watchdog Debug Halt
    /// false: The Watchdog stops when the processor is in debug state.
    /// true: The Watchdog runs when the processor is in debug state.
    run_on_debug: bool,
    /// WDIDLEHLT: Watchdog Idle Halt
    /// false: The Watchdog stops when the system is in idle state.
    /// true: The Watchdog runs when the system is in idle mode.
    run_on_idle: bool,
}

impl View for Config {
    type V = ConfigView;

    closed spec fn view(&self) -> ConfigView {
        ConfigView {
            counter_value: self.counter_value,
            interrupt_enabled: self.interrupt_enabled,
            reset_on_fault: self.reset_on_fault,
            reset_mode: self.reset_mode,
            run_on_debug: self.run_on_debug,
            run_on_idle: self.run_on_idle,
        }
    }
}

impl Default for Config {
    fn default() -> (config: Self)
        ensures
            config@ == (ConfigView {
                counter_value: 0xFFF,
                interrupt_enabled: false,
                reset_on_fault: true,
                reset_mode: WatchdogResetMode::ResetProcessorOnly,
                run_on_debug: false,
                run_on_idle: false,
            }),
    {
        Config {
            counter_value: 0xFFF,
            interrupt_enabled: false,
            reset_on_fault: true,
            reset_mode: WatchdogResetMode::ResetProcessorOnly,
            run_on_debug: false,
            run_on_idle: false,
        }
    }
}

/// One write of the mode register: every field named takes the value held,
/// every other field the value it has after reset.
#[derive(Clone, Copy, PartialEq, Eq, Debug)]
pub struct MrWrite {
    /// Counter value; the field is 12 bits wide
    pub wdv: u16,
    /// Watchdog disable
    pub wddis: bool,
    /// Fault interrupt enable
    pub wdfien: bool,
    /// Reset enable
    pub wdrsten: bool,
    /// Reset the processor only
    pub wdrproc: bool,
    /// Halt in debug state
    pub wddbghlt: bool,
    /// Halt in idle mode
    pub wdidlehlt: bool,
}

/// One operation on the watchdog's registers
#[derive(Clone, Copy, PartialEq, Eq, Debug)]
pub enum WdtOp {
    Mr(MrWrite),
    /// Write the key and the restart bit to the control register
    Restart,
}

/// Handle of the watchdog timer
pub type WDT = Handle<WdtOp>;

/// The write that puts a configuration into the mode register: the watchdog
/// stays enabled, and it halts in debug state and in idle mode unless the
/// configuration lets it run there.
pub open spec fn mode_write(config: ConfigView) -> MrWrite {
    MrWrite {
        wdv: config.counter_value,
        wddis: false,
        wdfien: config.interrupt_enabled,
        wdrsten: config.reset_on_fault,
        wdrproc: config.reset_mode is ResetProcessorOnly,
        wddbghlt: !config.run_on_debug,
        wdidlehlt: !config.run_on_idle,
    }
}

/// Frequency at which the watchdog counts: the slow clock divided by 128.
pub const WDT_CLOCK: u32 = 256;

/// What a watchdog holds.
pub struct WatchdogView {
    /// What has been issued to the timer and not yet handed to the driver
    pub issued: Seq<WdtOp>,
    pub config: ConfigView,
}

pub struct Watchdog {
    wdt: WDT,
    config: Config,
}

impl View for Watchdog {
    type V = WatchdogView;

    closed spec fn view(&self) -> WatchdogView {
        WatchdogView { issued: self.wdt@, config: self.config@ }
    }
}

impl Watchdog {
    /// Writes the configuration held to the mode register.
    pub fn commit_config(&mut self)
        ensures
            final(self)@.issued == old(self)@.issued.push(WdtOp::Mr(mode_write(old(self)@.config))),
            final(self)@.config == old(self)@.config,
    {
        let wdrproc = match self.config.reset_mode {
            WatchdogResetMode::ResetAll => false,
            WatchdogResetMode::ResetProcessorOnly => true,
        };
        let write = MrWrite {
            wdv: self.config.counter_value,
            wddis: false,
            wdfien: self.config.interrupt_enabled,
            wdrsten: self.config.reset_on_fault,
            wdrproc,
            wddbghlt: !self.config.run_on_debug,
            wdidlehlt: !self.config.run_on_idle,
        };
        self.wdt.issue(WdtOp::Mr(write));
    }

    /// Restarts the counter.
    pub fn feed(&mut self)
        ensures
            final(self)@.issued == old(self)@.issued.push(WdtOp::Restart),
            final(self)@.config == old(self)@.config,
    {
        self.wdt.issue(WdtOp::Restart);
    }

    /// Sets the counter to the number of watchdog ticks in one period of
    /// `period`, rounded down, and commits the configuration.
    ///
    /// On the SAM3x/SAM3a this can only be called once so
    /// start will actually commit the configuration.  The processor must be
    /// reset before the watchdog timer can be reconfigured.
    pub fn start(&mut self, period: Hertz)
        requires
            period.0 != 0,
        ensures
            final(self)@.config.counter_value == WDT_CLOCK / period.0,
            final(self)@.config == (ConfigView {
                counter_value: final(self)@.config.counter_value,
                ..old(self)@.config
            }),
            final(self)@.issued == old(self)@.issued.push(WdtOp::Mr(mode_write(final(self)@.config))),
    {
        // The Watchdog is built around a 12-bit down counter, which is loaded
        // with the value defined in the field WDV of the Mode Register (WDT_MR).
        // The Watchdog Timer uses the Slow Clock divided by 128 to establish
        // the maximum Watchdog period to be 16 seconds (with a typical Slow
        // Clock of 32,768 Hz).
        let timeout: u32 = WDT_CLOCK / period.0;
        assert(timeout <= 256) by (nonlinear_arith)
            requires
                timeout == 256u32 / period.0,
                period.0 >= 1,
        ;
        self.config.counter_value = timeout as u16;
        self.commit_config();
    }

    /// Hands the recorded program to the driver.
    pub fn take_program(&mut self) -> (program: Vec<WdtOp>)
        ensures
            program@ == old(self)@.issued,
            final(self)@.issued == Seq::<WdtOp>::empty(),
            final(self)@.config == old(self)@.config,
    {
        self.wdt.take()
    }
}

pub trait WatchdogExt: Sized {
    /// What has been issued through the handle.
    spec fn issued(self) -> Seq<WdtOp>;

    fn watchdog(self, config: Config) -> (watchdog: Watchdog)
        ensures
            watchdog@.issued == self.issued(),
            watchdog@.config == config@,
    ;
}

impl WatchdogExt for WDT {
    open spec fn issued(self) -> Seq<WdtOp> {
        self@
    }

    fn watchdog(self, config: Config) -> (watchdog: Watchdog) {
        Watchdog { wdt: self, config }
    }
}

} // verus!
