//! Power Management Controller: the clock tree and the peripheral clocks

use vstd::prelude::*;
use crate::handle::Handle;
use crate::time::Hertz;
use crate::time::MegaHertz;

verus! {

#[derive(Clone, Copy, PartialEq, Eq, Debug)]
pub enum RcOscillatorSpeed {
    Speed4Mhz,
    Speed8Mhz,
    Speed12Mhz,
}

/// Frequency of the crystal on the board, in megahertz.
pub const XTAL_SPEED_MHZ: u32 = 12;

/// Frequency of the slow clock, in hertz.
pub const SLOW_CLOCK_SPEED_HZ: u32 = 32_768;

/// Frequency of the crystal on the board.
pub fn xtal_speed() -> (speed: MegaHertz)
    ensures
        speed.0 == XTAL_SPEED_MHZ,
{
    MegaHertz(XTAL_SPEED_MHZ)
}

/// Frequency of the slow clock.
pub fn slow_clock_speed() -> (speed: Hertz)
    ensures
        speed.0 == SLOW_CLOCK_SPEED_HZ,
{
    Hertz(SLOW_CLOCK_SPEED_HZ)
}

#[derive(Clone, Copy, PartialEq, Eq, Debug)]
pub enum MainOscillator {
    /// A 3 to 20 MHz Crystal or Ceramic Resonator-based Oscillator, which can
    /// be bypassed. A.K.A XTAL. This library takes it to run at 12 MHz.
    XtalOscillator,
    /// A factory programmed Fast RC Oscillator. 3 output frequencies can be
    /// selected: 4, 8 or 12 MHz. By default / at boot 4 MHz is selected.
    FastRcOscillator(RcOscillatorSpeed),
}

/// Divider of the PLL input
#[derive(Clone, Copy, PartialEq, Eq, Debug)]
pub enum DivA {
    /// The divider output is 0
    Zero,
    /// The divider is bypassed
    Bypassed,
    /// The input is divided by the number held, 2 to 255
    Output(u8),
}

/// Multiplier of the PLL
#[derive(Clone, Copy, PartialEq, Eq, Debug)]
pub enum MullA {
    /// The PLL is off
    Deactivated,
    /// The PLL multiplies by the number held plus one; the field is 11 bits wide
    Activated(u16),
}

/// System clock source
#[derive(Clone, Copy, PartialEq, Eq, Debug)]
pub enum MasterClockSrc {
    /// A Low Power 32,768 Hz Slow Clock Oscillator with bypass mode.  This is
    /// the only permanent clock within the system.
    SlowClock,
    /// MAINCK is the output of the Main Clock Oscillator selection: either the
    /// Crystal or Ceramic Resonator-based Oscillator or 4/8/12 MHz Fast RC
    /// Oscillator.
    MainClock(MainOscillator),
    /// PLLACK is the output of the Divider and 96 to 192 MHz programmable
    /// PLL (PLLA).
    Pll(MainOscillator, DivA, MullA),
}

#[derive(Clone, Copy, PartialEq, Eq, Debug)]
pub enum ProcessorClockPrescaler {
    Clk,
    /// Clk / 2
    Clk2,
    /// Clk / 3
    Clk3,
    /// Clk / 4
    Clk4,
    /// Clk / 8
    Clk8,
    /// Clk / 16
    Clk16,
    /// Clk / 32
    Clk32,
    /// Clk / 64
    Clk64,
}

#[derive(Clone, Copy, PartialEq, Eq, Debug)]
pub enum PllDivMode {
    DividedBy1,
    DividedBy2,
}

/// What a configuration holds.
pub struct ConfigView {
    pub css: MasterClockSrc,
    pub pres: ProcessorClockPrescaler,
    pub plla_div2: PllDivMode,
    pub upll_div2: PllDivMode,
}

/// Clocks configuration
#[derive(Clone, Copy, PartialEq, Eq, Debug)]
pub struct Config {
    css: MasterClockSrc,
    pres: ProcessorClockPrescaler,
    plla_div2: PllDivMode,
    upll_div2: PllDivMode,
}

impl View for Config {
    type V = ConfigView;

    closed spec fn view(&self) -> ConfigView {
        ConfigView {
            css: self.css,
            pres: self.pres,
            plla_div2: self.plla_div2,
            upll_div2: self.upll_div2,
        }
    }
}

/// Frequency of the fast RC oscillator at each of its settings, in hertz.
pub open spec fn rc_hz(speed: RcOscillatorSpeed) -> nat {
    match speed {
        RcOscillatorSpeed::Speed4Mhz => 4_000_000,
        RcOscillatorSpeed::Speed8Mhz => 8_000_000,
        RcOscillatorSpeed::Speed12Mhz => 12_000_000,
    }
}

/// Frequency of the main clock, in hertz.
pub open spec fn oscillator_hz(oscillator: MainOscillator) -> nat {
    match oscillator {
        MainOscillator::XtalOscillator => 12_000_000,
        MainOscillator::FastRcOscillator(speed) => rc_hz(speed),
    }
}

/// Frequency that PLLA puts out, in hertz: nothing while the divider is zero
/// or the multiplier off, else the input times the multiplier plus one, divided
/// by the divider unless it is bypassed, the quotient rounded down.
pub open spec fn pll_hz(input: nat, div: DivA, mul: MullA) -> nat {
    match (div, mul) {
        (DivA::Zero, _) => 0,
        (_, MullA::Deactivated) => 0,
        (DivA::Bypassed, MullA::Activated(m)) => input * (m as nat + 1),
        (DivA::Output(d), MullA::Activated(m)) => (input * (m as nat + 1)) / (d as nat),
    }
}

/// Frequency of the master clock that a source gives, in hertz.
pub open spec fn master_hz(css: MasterClockSrc) -> nat {
    match css {
        MasterClockSrc::SlowClock => 32_768,
        MasterClockSrc::MainClock(oscillator) => oscillator_hz(oscillator),
        MasterClockSrc::Pll(oscillator, div, mul) => pll_hz(oscillator_hz(oscillator), div, mul),
    }
}

/// The number that a prescaler setting divides by.
pub open spec fn divisor(pres: ProcessorClockPrescaler) -> nat {
    match pres {
        ProcessorClockPrescaler::Clk => 1,
        ProcessorClockPrescaler::Clk2 => 2,
        ProcessorClockPrescaler::Clk3 => 3,
        ProcessorClockPrescaler::Clk4 => 4,
        ProcessorClockPrescaler::Clk8 => 8,
        ProcessorClockPrescaler::Clk16 => 16,
        ProcessorClockPrescaler::Clk32 => 32,
        ProcessorClockPrescaler::Clk64 => 64,
    }
}

/// Frequency of the processor clock, in hertz: the master clock divided by
/// the prescaler, rounded down.
pub open spec fn processor_hz(css: MasterClockSrc, pres: ProcessorClockPrescaler) -> nat {
    master_hz(css) / divisor(pres)
}

/// Whether the frequency of a source can be computed in 32 bits: a PLL with
/// both stages on has a divider other than 0 and an undivided output of at
/// most `u32::MAX` hertz.
pub open spec fn computable(css: MasterClockSrc) -> bool {
    match css {
        MasterClockSrc::Pll(oscillator, div, MullA::Activated(m)) => match div {
            DivA::Zero => true,
            DivA::Bypassed => oscillator_hz(oscillator) * (m as nat + 1) <= u32::MAX,
            DivA::Output(d) => d != 0 && oscillator_hz(oscillator) * (m as nat + 1) <= u32::MAX,
        },
        _ => true,
    }
}

/// Whether a source can be frozen: its frequency is computable and, if it is
/// the PLL, the PLL is fed by the crystal. No start-up sequence exists for a
/// PLL on the fast RC oscillator.
pub open spec fn supported(css: MasterClockSrc) -> bool {
    &&& computable(css)
    &&& css matches MasterClockSrc::Pll(oscillator, _, _) ==> oscillator is XtalOscillator
}

impl Default for Config {
    fn default() -> (config: Config)
        ensures
            config@ == (ConfigView {
                css: MasterClockSrc::SlowClock,
                pres: ProcessorClockPrescaler::Clk,
                plla_div2: PllDivMode::DividedBy1,
                upll_div2: PllDivMode::DividedBy1,
            }),
    {
        Config {
            css: MasterClockSrc::SlowClock,
            pres: ProcessorClockPrescaler::Clk,
            plla_div2: PllDivMode::DividedBy1,
            upll_div2: PllDivMode::DividedBy1,
        }
    }
}

impl Config {
    pub fn master_clock(self, css: MasterClockSrc) -> (config: Self)
        ensures
            config@ == (ConfigView { css, ..self@ }),
    {
        Config { css, ..self }
    }

    pub fn prescaler(self, pres: ProcessorClockPrescaler) -> (config: Self)
        ensures
            config@ == (ConfigView { pres, ..self@ }),
    {
        Config { pres, ..self }
    }

    pub fn plla_div(self, plla_div2: PllDivMode) -> (config: Self)
        ensures
            config@ == (ConfigView { plla_div2, ..self@ }),
    {
        Config { plla_div2, ..self }
    }

    pub fn upll_div(self, upll_div2: PllDivMode) -> (config: Self)
        ensures
            config@ == (ConfigView { upll_div2, ..self@ }),
    {
        Config { upll_div2, ..self }
    }

    pub fn pll(pll_src: MainOscillator, pll_div: DivA, pll_mull: MullA) -> (config: Config)
        ensures
            config@ == (ConfigView {
                css: MasterClockSrc::Pll(pll_src, pll_div, pll_mull),
                pres: ProcessorClockPrescaler::Clk,
                plla_div2: PllDivMode::DividedBy1,
                upll_div2: PllDivMode::DividedBy1,
            }),
    {
        Config {
            css: MasterClockSrc::Pll(pll_src, pll_div, pll_mull),
            pres: ProcessorClockPrescaler::Clk,
            plla_div2: PllDivMode::DividedBy1,
            upll_div2: PllDivMode::DividedBy1,
        }
    }

    pub fn main_clock(oscillator: MainOscillator) -> (config: Config)
        ensures
            config@ == (ConfigView {
                css: MasterClockSrc::MainClock(oscillator),
                pres: ProcessorClockPrescaler::Clk,
                plla_div2: PllDivMode::DividedBy1,
                upll_div2: PllDivMode::DividedBy1,
            }),
    {
        Config {
            css: MasterClockSrc::MainClock(oscillator),
            pres: ProcessorClockPrescaler::Clk,
            plla_div2: PllDivMode::DividedBy1,
            upll_div2: PllDivMode::DividedBy1,
        }
    }

    /// Roughly 32 KHz
    pub fn slow_clock() -> (config: Config)
        ensures
            config@ == (ConfigView {
                css: MasterClockSrc::SlowClock,
                pres: ProcessorClockPrescaler::Clk,
                plla_div2: PllDivMode::DividedBy1,
                upll_div2: PllDivMode::DividedBy1,
            }),
    {
        Config {
            css: MasterClockSrc::SlowClock,
            pres: ProcessorClockPrescaler::Clk,
            plla_div2: PllDivMode::DividedBy1,
            upll_div2: PllDivMode::DividedBy1,
        }
    }

    /// 84 MHz config, essentially top speed
    pub fn hclk_84mhz() -> (config: Config)
        ensures
            config@ == (ConfigView {
                css: MasterClockSrc::Pll(
                    MainOscillator::XtalOscillator,
                    DivA::Bypassed,
                    MullA::Activated(13),
                ),
                pres: ProcessorClockPrescaler::Clk2,
                plla_div2: PllDivMode::DividedBy1,
                upll_div2: PllDivMode::DividedBy1,
            }),
            supported(config@.css),
            master_hz(config@.css) == 168_000_000,
            processor_hz(config@.css, config@.pres) == 84_000_000,
    {
        assert(oscillator_hz(MainOscillator::XtalOscillator) * (13u16 as nat + 1) == 168_000_000);
        Config {
            css: MasterClockSrc::Pll(
                MainOscillator::XtalOscillator,
                DivA::Bypassed,
                MullA::Activated(13),
            ),
            pres: ProcessorClockPrescaler::Clk2,
            plla_div2: PllDivMode::DividedBy1,
            upll_div2: PllDivMode::DividedBy1,
        }
    }

    /// Tells whether `freeze` accepts this configuration.
    pub fn is_supported(&self) -> (yes: bool)
        ensures
            yes == supported(self@.css),
    {
        match self.css {
            MasterClockSrc::Pll(oscillator, div, mul) => {
                let from_crystal = match oscillator {
                    MainOscillator::XtalOscillator => true,
                    MainOscillator::FastRcOscillator(_) => false,
                };
                from_crystal && frequency_is_computable(self.css)
            },
            _ => true,
        }
    }
}

fn rc_speed_of(speed: RcOscillatorSpeed) -> (hz: u32)
    ensures
        hz == rc_hz(speed),
{
    match speed {
        RcOscillatorSpeed::Speed4Mhz => 4_000_000,
        RcOscillatorSpeed::Speed8Mhz => 8_000_000,
        RcOscillatorSpeed::Speed12Mhz => 12_000_000,
    }
}

fn oscillator_speed_of(oscillator: MainOscillator) -> (hz: u32)
    ensures
        hz == oscillator_hz(oscillator),
        hz <= 12_000_000,
{
    match oscillator {
        MainOscillator::XtalOscillator => XTAL_SPEED_MHZ * 1_000_000,
        MainOscillator::FastRcOscillator(speed) => rc_speed_of(speed),
    }
}

/// Tells whether the frequency of `css` can be computed in 32 bits.
pub fn frequency_is_computable(css: MasterClockSrc) -> (yes: bool)
    ensures
        yes == computable(css),
{
    match css {
        MasterClockSrc::Pll(oscillator, div, MullA::Activated(m)) => {
            let input: u64 = oscillator_speed_of(oscillator) as u64;
            let factor: u64 = m as u64 + 1;
            assert(input * factor <= 12_000_000 * 65_536) by (nonlinear_arith)
                requires
                    input <= 12_000_000,
                    factor <= 65_536,
            ;
            let fits = input * factor <= u32::MAX as u64;
            match div {
                DivA::Zero => true,
                DivA::Bypassed => fits,
                DivA::Output(d) => d != 0 && fits,
            }
        },
        _ => true,
    }
}

/// The frequency of the master clock that `css` gives.
pub fn master_clock_of(css: MasterClockSrc) -> (freq: Hertz)
    requires
        computable(css),
    ensures
        freq.0 == master_hz(css),
{
    match css {
        MasterClockSrc::SlowClock => Hertz(SLOW_CLOCK_SPEED_HZ),
        MasterClockSrc::Pll(oscillator, div_a, mull_a) => {
            let oscillator_speed: u32 = oscillator_speed_of(oscillator);
            match (div_a, mull_a) {
                (DivA::Zero, _) => Hertz(0),
                (_, MullA::Deactivated) => Hertz(0),
                (DivA::Bypassed, MullA::Activated(m)) => Hertz(oscillator_speed * (m as u32 + 1)),
                (DivA::Output(d), MullA::Activated(m)) => Hertz(
                    oscillator_speed * (m as u32 + 1) / d as u32,
                ),
            }
        },
        MasterClockSrc::MainClock(oscillator) => Hertz(oscillator_speed_of(oscillator)),
    }
}

/// The frequency of the processor clock under a master clock of `master`.
pub fn processor_clock_of(master: Hertz, pres: ProcessorClockPrescaler) -> (freq: Hertz)
    ensures
        freq.0 == master.0 as nat / divisor(pres),
{
    match pres {
        ProcessorClockPrescaler::Clk => master,
        ProcessorClockPrescaler::Clk2 => Hertz(master.0 / 2),
        ProcessorClockPrescaler::Clk3 => Hertz(master.0 / 3),
        ProcessorClockPrescaler::Clk4 => Hertz(master.0 / 4),
        ProcessorClockPrescaler::Clk8 => Hertz(master.0 / 8),
        ProcessorClockPrescaler::Clk16 => Hertz(master.0 / 16),
        ProcessorClockPrescaler::Clk32 => Hertz(master.0 / 32),
        ProcessorClockPrescaler::Clk64 => Hertz(master.0 / 64),
    }
}

/// Frozen clock frequencies
///
/// The existence of this value indicates that the clock configuration can no longer be changed
#[derive(Clone, Copy, PartialEq, Eq, Debug)]
pub struct Clocks {
    source: MasterClockSrc,
    /// HCLK
    processor_clock: Hertz,
    /// MCK
    master_clock: Hertz,
}

impl Clocks {
    pub closed spec fn spec_master_clk(&self) -> Hertz {
        self.master_clock
    }

    pub closed spec fn spec_processor_clk(&self) -> Hertz {
        self.processor_clock
    }

    pub closed spec fn spec_source(&self) -> MasterClockSrc {
        self.source
    }

    #[verifier::when_used_as_spec(spec_master_clk)]
    pub fn master_clk(&self) -> (freq: Hertz)
        ensures
            freq == self.master_clk(),
    {
        self.master_clock
    }

    #[verifier::when_used_as_spec(spec_processor_clk)]
    pub fn processor_clk(&self) -> (freq: Hertz)
        ensures
            freq == self.processor_clk(),
    {
        self.processor_clock
    }

    #[verifier::when_used_as_spec(spec_source)]
    pub fn source(&self) -> (css: MasterClockSrc)
        ensures
            css == self.source(),
    {
        self.source
    }

    /// Whether these are the clocks that `css` and `pres` give.
    pub open spec fn are(&self, css: MasterClockSrc, pres: ProcessorClockPrescaler) -> bool {
        &&& self.source() == css
        &&& self.master_clk().0 == master_hz(css)
        &&& self.processor_clk().0 == processor_hz(css, pres)
    }
}

/// The clock that drives the master clock
#[derive(Clone, Copy, PartialEq, Eq, Debug)]
pub enum ClockSelect {
    SlowClk,
    MainClk,
    PllaClk,
}

/// One write of the master clock register. A field that is `None` is not
/// written and so takes the value that the register has after reset.
#[derive(Clone, Copy, PartialEq, Eq, Debug)]
pub struct MckrWrite {
    pub css: Option<ClockSelect>,
    pub pres: Option<ProcessorClockPrescaler>,
}

/// One write of the main oscillator register, with its key. A field that is
/// `None` is not written and so takes the value that the register has after
/// reset.
#[derive(Clone, Copy, PartialEq, Eq, Debug)]
pub struct MorWrite {
    /// Start-up time of the crystal oscillator, in units of 8 slow clock cycles
    pub xtal_startup: Option<u8>,
    /// Fast RC oscillator on or off
    pub rc_enable: Option<bool>,
    /// Crystal oscillator on or off
    pub xtal_enable: Option<bool>,
    /// Main clock from the crystal (`true`) or from the fast RC oscillator
    pub select_xtal: Option<bool>,
}

/// One write of the PLLA register. Bit 29, which must be 1, is always written.
#[derive(Clone, Copy, PartialEq, Eq, Debug)]
pub struct PllarWrite {
    pub diva: u8,
    pub mula: u16,
    /// Slow clock cycles before the lock flag is raised
    pub count: u8,
}

/// A flag of the status register
#[derive(Clone, Copy, PartialEq, Eq, Debug)]
pub enum PmcStatus {
    /// The crystal oscillator is stable
    MoscXtS,
    /// The selection of the main oscillator is done
    MoscSelS,
    /// The master clock is ready
    MckRdy,
    /// PLLA is locked
    LockA,
}

/// One operation on the controller's registers
#[derive(Clone, Copy, PartialEq, Eq, Debug)]
pub enum PmcOp {
    /// Write the key to the write protect mode register and clear its enable bit
    Unprotect,
    /// Write to peripheral clock enable register 0 the bit of the peripheral
    /// whose identifier is held, all other bits zero
    Pcer0(u8),
    /// The same for peripheral clock enable register 1
    Pcer1(u8),
    /// The same for peripheral clock disable register 0
    Pcdr0(u8),
    /// The same for peripheral clock disable register 1
    Pcdr1(u8),
    Mckr(MckrWrite),
    Mor(MorWrite),
    Pllar(PllarWrite),
    /// Read the status register until the flag is set
    WaitFor(PmcStatus),
}

/// Handle of the controller
pub type PMC = Handle<PmcOp>;

/// Value of the divider field for each setting.
pub open spec fn diva_field(div: DivA) -> u8 {
    match div {
        DivA::Zero => 0,
        DivA::Bypassed => 1,
        DivA::Output(d) => d,
    }
}

/// Value of the multiplier field for each setting.
pub open spec fn mula_field(mul: MullA) -> u16 {
    match mul {
        MullA::Deactivated => 0,
        MullA::Activated(m) => m,
    }
}

/// The clock that stands for a source in the master clock register.
pub open spec fn select_of(css: MasterClockSrc) -> ClockSelect {
    match css {
        MasterClockSrc::MainClock(_) => ClockSelect::MainClk,
        MasterClockSrc::Pll(_, _, _) => ClockSelect::PllaClk,
        MasterClockSrc::SlowClock => ClockSelect::SlowClk,
    }
}

/// Writing the prescaler alone, then waiting for the master clock.
pub open spec fn prescaler_program(pres: ProcessorClockPrescaler) -> Seq<PmcOp> {
    seq![
        PmcOp::Mckr(MckrWrite { css: None, pres: Some(pres) }),
        PmcOp::WaitFor(PmcStatus::MckRdy),
    ]
}

/// Writing prescaler and source together, then waiting for the master clock.
pub open spec fn clock_program(css: MasterClockSrc, pres: ProcessorClockPrescaler) -> Seq<PmcOp> {
    seq![
        PmcOp::Mckr(MckrWrite { css: Some(select_of(css)), pres: Some(pres) }),
        PmcOp::WaitFor(PmcStatus::MckRdy),
    ]
}

/// Programming PLLA with a settling time of 63 slow clock cycles, then
/// waiting for its lock.
pub open spec fn pll_a_program(div: DivA, mul: MullA) -> Seq<PmcOp> {
    seq![
        PmcOp::Pllar(PllarWrite { diva: diva_field(div), mula: mula_field(mul), count: 0x3F }),
        PmcOp::WaitFor(PmcStatus::LockA),
    ]
}

/// Starting the crystal oscillator beside the fast RC oscillator, moving the
/// main clock to the crystal and the master clock to the main clock.
pub open spec fn crystal_program() -> Seq<PmcOp> {
    seq![
        PmcOp::Mor(
            MorWrite {
                xtal_startup: Some(8),
                rc_enable: Some(true),
                xtal_enable: Some(true),
                select_xtal: None,
            },
        ),
        PmcOp::WaitFor(PmcStatus::MoscXtS),
        PmcOp::Mor(
            MorWrite {
                xtal_startup: Some(8),
                rc_enable: Some(true),
                xtal_enable: Some(true),
                select_xtal: Some(true),
            },
        ),
        PmcOp::WaitFor(PmcStatus::MoscSelS),
        PmcOp::Mckr(MckrWrite { css: Some(ClockSelect::MainClk), pres: None }),
        PmcOp::WaitFor(PmcStatus::MckRdy),
    ]
}

/// The write that selects the main oscillator when the main clock itself is
/// the source.
pub open spec fn main_oscillator_write(oscillator: MainOscillator) -> MorWrite {
    match oscillator {
        MainOscillator::XtalOscillator => MorWrite {
            xtal_startup: Some(8),
            rc_enable: None,
            xtal_enable: Some(true),
            select_xtal: Some(true),
        },
        MainOscillator::FastRcOscillator(_) => MorWrite {
            xtal_startup: None,
            rc_enable: Some(true),
            xtal_enable: None,
            select_xtal: Some(false),
        },
    }
}

/// What freezing a configuration issues, by source.
///
/// With the main clock as source the last write selects PLLA at half speed,
/// whatever the prescaler that was asked for.
pub open spec fn freeze_program(css: MasterClockSrc, pres: ProcessorClockPrescaler) -> Seq<PmcOp> {
    match css {
        MasterClockSrc::Pll(_, div, mul) => crystal_program() + pll_a_program(div, mul)
            + prescaler_program(pres) + clock_program(css, pres),
        MasterClockSrc::MainClock(oscillator) => seq![
            PmcOp::Mor(main_oscillator_write(oscillator)),
        ] + prescaler_program(pres) + seq![
            PmcOp::Mckr(
                MckrWrite {
                    css: Some(ClockSelect::PllaClk),
                    pres: Some(ProcessorClockPrescaler::Clk2),
                },
            ),
            PmcOp::WaitFor(PmcStatus::MckRdy),
        ],
        MasterClockSrc::SlowClock => seq![
            PmcOp::Unprotect,
            PmcOp::Mckr(MckrWrite { css: Some(ClockSelect::SlowClk), pres: None }),
            PmcOp::WaitFor(PmcStatus::MckRdy),
            PmcOp::Mckr(
                MckrWrite {
                    css: Some(ClockSelect::SlowClk),
                    pres: Some(ProcessorClockPrescaler::Clk),
                },
            ),
            PmcOp::WaitFor(PmcStatus::MckRdy),
        ],
    }
}

/// Sets the prescaler. This is done apart from picking the PLL as the source.
pub fn set_prescaler(pmc: &mut PMC, cfg: &Config)
    ensures
        final(pmc)@ == old(pmc)@ + prescaler_program(cfg@.pres),
{
    pmc.issue(PmcOp::Mckr(MckrWrite { css: None, pres: Some(cfg.pres) }));
    pmc.issue(PmcOp::WaitFor(PmcStatus::MckRdy));
}

/// Sets prescaler and source in one write.
pub fn set_clock(pmc: &mut PMC, cfg: &Config)
    ensures
        final(pmc)@ == old(pmc)@ + clock_program(cfg@.css, cfg@.pres),
{
    let css = match cfg.css {
        MasterClockSrc::MainClock(_) => ClockSelect::MainClk,
        MasterClockSrc::Pll(_, _, _) => ClockSelect::PllaClk,
        MasterClockSrc::SlowClock => ClockSelect::SlowClk,
    };
    pmc.issue(PmcOp::Mckr(MckrWrite { css: Some(css), pres: Some(cfg.pres) }));
    pmc.issue(PmcOp::WaitFor(PmcStatus::MckRdy));
}

/// Programs PLLA and waits for its lock.
pub fn configure_pll_a(pmc: &mut PMC, div_a: DivA, mul_a: MullA)
    ensures
        final(pmc)@ == old(pmc)@ + pll_a_program(div_a, mul_a),
{
    let diva: u8 = match div_a {
        DivA::Zero => 0,
        DivA::Bypassed => 1,
        DivA::Output(d) => d,
    };
    let mula: u16 = match mul_a {
        MullA::Deactivated => 0,
        MullA::Activated(m) => m,
    };
    // Settling time taken from Arduino
    pmc.issue(PmcOp::Pllar(PllarWrite { diva, mula, count: 0x3F }));
    pmc.issue(PmcOp::WaitFor(PmcStatus::LockA));
}

/// PMC (Power Management Controller) peripheral
pub struct Pmc {
    pub clocks: Clocks,
    /// The controller's handle. The driver takes the recorded program from it.
    pub pmc: PMC,
}

pub trait PmcExt: Sized {
    /// What has been issued through the handle.
    spec fn issued(self) -> Seq<PmcOp>;

    /// Brings the clock tree to `config` and fixes it: issues
    /// `freeze_program` behind what the handle holds, and computes the
    /// frequencies that result.
    fn freeze(self, config: Config) -> (pmc: Pmc)
        requires
            supported(config@.css),
        ensures
            pmc.pmc@ == self.issued() + freeze_program(config@.css, config@.pres),
            pmc.clocks.are(config@.css, config@.pres),
    ;
}

impl PmcExt for PMC {
    open spec fn issued(self) -> Seq<PmcOp> {
        self@
    }

    fn freeze(self, cfg: Config) -> (pmc: Pmc) {
        let mut handle = self;
        match cfg.css {
            MasterClockSrc::Pll(_oscillator, div_a, mull_a) => {
                // Initialize main oscillator, with the startup time that
                // Arduino seems to think is appropriate
                handle.issue(
                    PmcOp::Mor(
                        MorWrite {
                            xtal_startup: Some(8),
                            rc_enable: Some(true),
                            xtal_enable: Some(true),
                            select_xtal: None,
                        },
                    ),
                );
                // Wait for main oscillator to come online
                handle.issue(PmcOp::WaitFor(PmcStatus::MoscXtS));
                // Switch to 3-20MHz Xtal oscillator
                handle.issue(
                    PmcOp::Mor(
                        MorWrite {
                            xtal_startup: Some(8),
                            rc_enable: Some(true),
                            xtal_enable: Some(true),
                            select_xtal: Some(true),
                        },
                    ),
                );
                handle.issue(PmcOp::WaitFor(PmcStatus::MoscSelS));
                // Master Clock Register
                handle.issue(PmcOp::Mckr(MckrWrite { css: Some(ClockSelect::MainClk), pres: None }));
                handle.issue(PmcOp::WaitFor(PmcStatus::MckRdy));
                assert(handle@ =~= self@ + crystal_program());
                configure_pll_a(&mut handle, div_a, mull_a);
                set_prescaler(&mut handle, &cfg);
                set_clock(&mut handle, &cfg);
            },
            MasterClockSrc::MainClock(oscillator) => {
                // Initialize main oscillator
                let write = match oscillator {
                    // Select the 3 to 20 MHz Crystal or Ceramic Resonator-based oscillator
                    MainOscillator::XtalOscillator => MorWrite {
                        xtal_startup: Some(8),
                        rc_enable: None,
                        xtal_enable: Some(true),
                        select_xtal: Some(true),
                    },
                    MainOscillator::FastRcOscillator(_) => MorWrite {
                        xtal_startup: None,
                        rc_enable: Some(true),
                        xtal_enable: None,
                        select_xtal: Some(false),
                    },
                };
                handle.issue(PmcOp::Mor(write));
                set_prescaler(&mut handle, &cfg);
                // Switch to PLLA, clock divided by 2
                handle.issue(
                    PmcOp::Mckr(
                        MckrWrite {
                            css: Some(ClockSelect::PllaClk),
                            pres: Some(ProcessorClockPrescaler::Clk2),
                        },
                    ),
                );
                handle.issue(PmcOp::WaitFor(PmcStatus::MckRdy));
            },
            MasterClockSrc::SlowClock => {
                handle.issue(PmcOp::Unprotect);
                handle.issue(PmcOp::Mckr(MckrWrite { css: Some(ClockSelect::SlowClk), pres: None }));
                handle.issue(PmcOp::WaitFor(PmcStatus::MckRdy));
                handle.issue(
                    PmcOp::Mckr(
                        MckrWrite {
                            css: Some(ClockSelect::SlowClk),
                            pres: Some(ProcessorClockPrescaler::Clk),
                        },
                    ),
                );
                handle.issue(PmcOp::WaitFor(PmcStatus::MckRdy));
            },
        }
        assert(handle@ =~= self@ + freeze_program(cfg@.css, cfg@.pres));
        let master_clock = master_clock_of(cfg.css);
        let processor_clock = processor_clock_of(master_clock, cfg.pres);
        Pmc { pmc: handle, clocks: Clocks { source: cfg.css, processor_clock, master_clock } }
    }
}


/// A peripheral whose clock the controller gates
#[derive(Clone, Copy, PartialEq, Eq, Debug)]
pub enum PeripheralClock {
    PioA,
    PioB,
    PioC,
    PioD,
    Usart0,
    Usart1,
    Usart2,
    Usart3,
    HsMci,
    Twi0,
    Twi1,
    Spi0,
    Ssc,
    Tc0,
    Tc1,
    Tc2,
    Tc3,
    Tc4,
    Tc5,
    Tc6,
    Tc7,
    Tc8,
    Pwm,
    Adc,
    Dacc,
    Dmac,
    UOtgHs,
    Trng,
    Emac,
    Can0,
    Can1,
}

/// The identifier of each peripheral, which is the number of its bit in the
/// peripheral clock registers.
pub open spec fn peripheral_id(clock: PeripheralClock) -> u8 {
    match clock {
        PeripheralClock::PioA => 11,
        PeripheralClock::PioB => 12,
        PeripheralClock::PioC => 13,
        PeripheralClock::PioD => 14,
        PeripheralClock::Usart0 => 17,
        PeripheralClock::Usart1 => 18,
        PeripheralClock::Usart2 => 19,
        PeripheralClock::Usart3 => 20,
        PeripheralClock::HsMci => 21,
        PeripheralClock::Twi0 => 22,
        PeripheralClock::Twi1 => 23,
        PeripheralClock::Spi0 => 24,
        PeripheralClock::Ssc => 26,
        PeripheralClock::Tc0 => 27,
        PeripheralClock::Tc1 => 28,
        PeripheralClock::Tc2 => 29,
        PeripheralClock::Tc3 => 30,
        PeripheralClock::Tc4 => 31,
        PeripheralClock::Tc5 => 32,
        PeripheralClock::Tc6 => 33,
        PeripheralClock::Tc7 => 34,
        PeripheralClock::Tc8 => 35,
        PeripheralClock::Pwm => 36,
        PeripheralClock::Adc => 37,
        PeripheralClock::Dacc => 38,
        PeripheralClock::Dmac => 39,
        PeripheralClock::UOtgHs => 40,
        PeripheralClock::Trng => 41,
        PeripheralClock::Emac => 42,
        PeripheralClock::Can0 => 43,
        PeripheralClock::Can1 => 44,
    }
}

/// Unlocking the controller, then setting the peripheral's bit in the enable
/// register that holds it: register 0 for identifiers below 32, else register 1.
pub open spec fn enable_program(clock: PeripheralClock) -> Seq<PmcOp> {
    seq![
        PmcOp::Unprotect,
        if peripheral_id(clock) < 32 {
            PmcOp::Pcer0(peripheral_id(clock))
        } else {
            PmcOp::Pcer1(peripheral_id(clock))
        },
    ]
}

/// Unlocking the controller, then setting the peripheral's bit in the disable
/// register that holds it: register 0 for identifiers below 32, else register 1.
pub open spec fn disable_program(clock: PeripheralClock) -> Seq<PmcOp> {
    seq![
        PmcOp::Unprotect,
        if peripheral_id(clock) < 32 {
            PmcOp::Pcdr0(peripheral_id(clock))
        } else {
            PmcOp::Pcdr1(peripheral_id(clock))
        },
    ]
}

impl PeripheralClock {
    /// The peripheral's identifier.
    pub fn id(&self) -> (id: u8)
        ensures
            id == peripheral_id(*self),
            11 <= id <= 44,
    {
        match self {
        PeripheralClock::PioA => 11,
        PeripheralClock::PioB => 12,
        PeripheralClock::PioC => 13,
        PeripheralClock::PioD => 14,
        PeripheralClock::Usart0 => 17,
        PeripheralClock::Usart1 => 18,
        PeripheralClock::Usart2 => 19,
        PeripheralClock::Usart3 => 20,
        PeripheralClock::HsMci => 21,
        PeripheralClock::Twi0 => 22,
        PeripheralClock::Twi1 => 23,
        PeripheralClock::Spi0 => 24,
        PeripheralClock::Ssc => 26,
        PeripheralClock::Tc0 => 27,
        PeripheralClock::Tc1 => 28,
        PeripheralClock::Tc2 => 29,
        PeripheralClock::Tc3 => 30,
        PeripheralClock::Tc4 => 31,
        PeripheralClock::Tc5 => 32,
        PeripheralClock::Tc6 => 33,
        PeripheralClock::Tc7 => 34,
        PeripheralClock::Tc8 => 35,
        PeripheralClock::Pwm => 36,
        PeripheralClock::Adc => 37,
        PeripheralClock::Dacc => 38,
        PeripheralClock::Dmac => 39,
        PeripheralClock::UOtgHs => 40,
        PeripheralClock::Trng => 41,
        PeripheralClock::Emac => 42,
        PeripheralClock::Can0 => 43,
        PeripheralClock::Can1 => 44,
        }
    }
}

impl Pmc {
    /// Enable a peripheral clock.
    pub fn enable_clock(&mut self, clock: PeripheralClock)
        ensures
            final(self).pmc@ == old(self).pmc@ + enable_program(clock),
            final(self).clocks == old(self).clocks,
    {
        // Enable write access to the PMC
        self.pmc.issue(PmcOp::Unprotect);
        let id = clock.id();
        if id < 32 {
            self.pmc.issue(PmcOp::Pcer0(id));
        } else {
            self.pmc.issue(PmcOp::Pcer1(id));
        }
    }

    /// Disable a peripheral clock.
    pub fn disable_clock(&mut self, clock: PeripheralClock)
        ensures
            final(self).pmc@ == old(self).pmc@ + disable_program(clock),
            final(self).clocks == old(self).clocks,
    {
        // Enable write access to the PMC
        self.pmc.issue(PmcOp::Unprotect);
        let id = clock.id();
        if id < 32 {
            self.pmc.issue(PmcOp::Pcdr0(id));
        } else {
            self.pmc.issue(PmcOp::Pcdr1(id));
        }
    }
}


/// No two peripherals share an identifier.
pub proof fn lemma_peripheral_ids_differ(a: PeripheralClock, b: PeripheralClock)
    ensures
        peripheral_id(a) == peripheral_id(b) ==> a == b,
{
}

/// The processor clock is never faster than the master clock.
pub proof fn lemma_processor_clock_bounded(css: MasterClockSrc, pres: ProcessorClockPrescaler)
    ensures
        processor_hz(css, pres) <= master_hz(css),
{
}

/// Every source whose frequency is computable has frequencies that fit in
/// 32 bits.
pub proof fn lemma_computable_fits(css: MasterClockSrc, pres: ProcessorClockPrescaler)
    requires
        computable(css),
    ensures
        processor_hz(css, pres) <= master_hz(css) <= u32::MAX,
{
    match css {
        MasterClockSrc::Pll(oscillator, DivA::Output(d), MullA::Activated(m)) => {
            let undivided = oscillator_hz(oscillator) * (m as nat + 1);
            assert(undivided / (d as nat) <= undivided) by (nonlinear_arith)
                requires
                    d > 0,
            ;
        },
        _ => {},
    }
}

} // verus!
