//! Enhanced Embedded Flash Controllers

use vstd::prelude::*;
use crate::handle::Handle;

verus! {

#[derive(Clone, Copy, PartialEq, Eq, Debug)]
pub enum FlashAccessMode {
    AccessMode128,
    AccessMode64,
}

/// What a configuration holds.
pub struct ConfigView {
    pub wait_state: u8,
    pub interrupt_enable: bool,
    pub access_mode: FlashAccessMode,
}

#[derive(Clone, Copy, PartialEq, Eq, Debug)]
pub struct Config {
    wait_state: u8,
    interrupt_enable: bool,
    access_mode: FlashAccessMode,
}

impl View for Config {
    type V = ConfigView;

    closed spec fn view(&self) -> ConfigView {
        ConfigView {
            wait_state: self.wait_state,
            interrupt_enable: self.interrupt_enable,
            access_mode: self.access_mode,
        }
    }
}

/// The configuration that `default` and `new` give: four wait states, no
/// interrupt, 128-bit access.
pub open spec fn default_config() -> ConfigView {
    ConfigView {
        wait_state: 4,
        interrupt_enable: false,
        access_mode: FlashAccessMode::AccessMode128,
    }
}

impl Default for Config {
    fn default() -> (config: Config)
        ensures
            config@ == default_config(),
    {
        Config {
            wait_state: 4,
            interrupt_enable: false,
            access_mode: FlashAccessMode::AccessMode128,
        }
    }
}

impl Config {
    pub fn new() -> (config: Self)
        ensures
            config@ == default_config(),
    {
        Config {
            wait_state: 4,
            interrupt_enable: false,
            access_mode: FlashAccessMode::AccessMode128,
        }
    }

    pub fn wait_state(self, ws: u8) -> (config: Self)
        ensures
            config@ == (ConfigView { wait_state: ws, ..self@ }),
    {
        Config { wait_state: ws, ..self }
    }

    pub fn interrupt_enable(self, enabled: bool) -> (config: Self)
        ensures
            config@ == (ConfigView { interrupt_enable: enabled, ..self@ }),
    {
        Config { interrupt_enable: enabled, ..self }
    }

    pub fn access_mode(self, mode: FlashAccessMode) -> (config: Self)
        ensures
            config@ == (ConfigView { access_mode: mode, ..self@ }),
    {
        Config { access_mode: mode, ..self }
    }
}

/// One write of a controller's flash mode register: the three fields take
/// the values held, every other field the value it has after reset.
#[derive(Clone, Copy, PartialEq, Eq, Debug)]
pub struct FmrWrite {
    /// Flash wait states; the field is four bits wide
    pub fws: u8,
    /// Interrupt when the controller is ready
    pub frdy: bool,
    /// Flash access mode: set for 64-bit access, clear for 128-bit access
    pub fam: bool,
}

/// One operation on a controller's registers
#[derive(Clone, Copy, PartialEq, Eq, Debug)]
pub enum EfcOp {
    Fmr(FmrWrite),
}

/// Handle of the first flash controller
pub struct EFC0 {
    pub handle: Handle<EfcOp>,
}

/// Handle of the second flash controller
pub struct EFC1 {
    pub handle: Handle<EfcOp>,
}

/// The write that puts a configuration into the flash mode register.
pub open spec fn mode_write(config: ConfigView) -> FmrWrite {
    FmrWrite {
        fws: config.wait_state,
        frdy: config.interrupt_enable,
        fam: config.access_mode is AccessMode64,
    }
}

fn mode_write_of(config: &Config) -> (write: FmrWrite)
    ensures
        write == mode_write(config@),
{
    let fam = match config.access_mode {
        FlashAccessMode::AccessMode64 => true,
        FlashAccessMode::AccessMode128 => false,
    };
    FmrWrite { fws: config.wait_state, frdy: config.interrupt_enable, fam }
}

/// The first flash controller, configured
pub struct Efc0 {
    efc: EFC0,
}

impl View for Efc0 {
    type V = Seq<EfcOp>;

    /// What has been issued to the controller and not yet handed to the driver.
    closed spec fn view(&self) -> Seq<EfcOp> {
        self.efc.handle@
    }
}

impl Efc0 {
    /// Hands the recorded program to the driver.
    pub fn take_program(&mut self) -> (program: Vec<EfcOp>)
        ensures
            program@ == old(self)@,
            final(self)@ == Seq::<EfcOp>::empty(),
    {
        self.efc.handle.take()
    }
}

pub trait Efc0Ext: Sized {
    /// What has been issued through the handle.
    spec fn issued(self) -> Seq<EfcOp>;

    /// There's no technical reason we need to freeze the config
    /// and at slower clock speeds we could probably get more aggressive
    /// with the timing.  But the flash controller needs to be initialized
    /// before the clocks
    fn freeze(self, config: Config) -> (efc: Efc0)
        ensures
            efc@ == self.issued().push(EfcOp::Fmr(mode_write(config@))),
    ;
}

impl Efc0Ext for EFC0 {
    open spec fn issued(self) -> Seq<EfcOp> {
        self.handle@
    }

    fn freeze(self, config: Config) -> (efc: Efc0) {
        let mut handle = self;
        handle.handle.issue(EfcOp::Fmr(mode_write_of(&config)));
        Efc0 { efc: handle }
    }
}

/// The second flash controller, configured
pub struct Efc1 {
    efc: EFC1,
}

impl View for Efc1 {
    type V = Seq<EfcOp>;

    /// What has been issued to the controller and not yet handed to the driver.
    closed spec fn view(&self) -> Seq<EfcOp> {
        self.efc.handle@
    }
}

impl Efc1 {
    /// Hands the recorded program to the driver.
    pub fn take_program(&mut self) -> (program: Vec<EfcOp>)
        ensures
            program@ == old(self)@,
            final(self)@ == Seq::<EfcOp>::empty(),
    {
        self.efc.handle.take()
    }
}

pub trait Efc1Ext: Sized {
    /// What has been issued through the handle.
    spec fn issued(self) -> Seq<EfcOp>;

    fn freeze(self, config: Config) -> (efc: Efc1)
        ensures
            efc@ == self.issued().push(EfcOp::Fmr(mode_write(config@))),
    ;
}

impl Efc1Ext for EFC1 {
    open spec fn issued(self) -> Seq<EfcOp> {
        self.handle@
    }

    fn freeze(self, config: Config) -> (efc: Efc1) {
        let mut handle = self;
        handle.handle.issue(EfcOp::Fmr(mode_write_of(&config)));
        Efc1 { efc: handle }
    }
}

} // verus!
