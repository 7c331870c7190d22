use sam3x8e_hal::pmc::{
    configure_pll_a, frequency_is_computable, master_clock_of, processor_clock_of, set_clock,
    set_prescaler, slow_clock_speed, xtal_speed, ClockSelect, Config, DivA, MainOscillator,
    MasterClockSrc, MckrWrite, MorWrite, MullA, PeripheralClock, PllDivMode, PllarWrite, PmcExt,
    PmcOp, PmcStatus, ProcessorClockPrescaler, RcOscillatorSpeed, PMC, SLOW_CLOCK_SPEED_HZ,
    XTAL_SPEED_MHZ,
};
use sam3x8e_hal::handle::Handle;
use sam3x8e_hal::time::{Hertz, MegaHertz};

const WAIT_MCK: PmcOp = PmcOp::WaitFor(PmcStatus::MckRdy);

fn mckr(css: Option<ClockSelect>, pres: Option<ProcessorClockPrescaler>) -> PmcOp {
    PmcOp::Mckr(MckrWrite { css, pres })
}

#[test]
fn port_hands_out_what_was_issued_in_order() {
    let mut handle: Handle<u8> = Handle::new();
    assert_eq!(handle.pending(), 0);
    handle.issue(3);
    handle.issue(1);
    handle.issue(2);
    assert_eq!(handle.pending(), 3);
    assert_eq!(handle.take(), vec![3, 1, 2]);
    assert_eq!(handle.pending(), 0);
    assert_eq!(handle.take(), Vec::<u8>::new());
    handle.issue(9);
    assert_eq!(handle.take(), vec![9]);
}

#[test]
fn clock_speeds_are_those_of_the_board() {
    assert_eq!(XTAL_SPEED_MHZ, 12);
    assert_eq!(SLOW_CLOCK_SPEED_HZ, 32_768);
    assert_eq!(xtal_speed(), MegaHertz(12));
    assert_eq!(slow_clock_speed(), Hertz(32_768));
}

#[test]
fn hclk_84mhz_gives_84_mhz() {
    let handle: PMC = Handle::new();
    let mut pmc = handle.freeze(Config::hclk_84mhz());
    assert_eq!(pmc.clocks.processor_clk().0, 84_000_000);
    assert_eq!(pmc.clocks.master_clk().0, 168_000_000);
    assert_eq!(
        pmc.clocks.source(),
        MasterClockSrc::Pll(MainOscillator::XtalOscillator, DivA::Bypassed, MullA::Activated(13))
    );
    let both_on = MorWrite {
        xtal_startup: Some(8),
        rc_enable: Some(true),
        xtal_enable: Some(true),
        select_xtal: None,
    };
    assert_eq!(
        pmc.pmc.take(),
        vec![
            PmcOp::Mor(both_on),
            PmcOp::WaitFor(PmcStatus::MoscXtS),
            PmcOp::Mor(MorWrite { select_xtal: Some(true), ..both_on }),
            PmcOp::WaitFor(PmcStatus::MoscSelS),
            mckr(Some(ClockSelect::MainClk), None),
            WAIT_MCK,
            PmcOp::Pllar(PllarWrite { diva: 1, mula: 13, count: 0x3F }),
            PmcOp::WaitFor(PmcStatus::LockA),
            mckr(None, Some(ProcessorClockPrescaler::Clk2)),
            WAIT_MCK,
            mckr(Some(ClockSelect::PllaClk), Some(ProcessorClockPrescaler::Clk2)),
            WAIT_MCK,
        ]
    );
}

#[test]
fn freeze_goes_behind_what_the_handle_holds() {
    let mut handle: PMC = Handle::new();
    handle.issue(PmcOp::Pcer0(11));
    let mut pmc = handle.freeze(Config::slow_clock());
    let program = pmc.pmc.take();
    assert_eq!(program.len(), 6);
    assert_eq!(program[0], PmcOp::Pcer0(11));
    assert_eq!(program[1], PmcOp::Unprotect);
}

#[test]
fn slow_clock_is_the_default() {
    assert_eq!(Config::default(), Config::slow_clock());
    let handle: PMC = Handle::new();
    let mut pmc = handle.freeze(Config::default());
    assert_eq!(pmc.clocks.source(), MasterClockSrc::SlowClock);
    assert_eq!(pmc.clocks.master_clk(), Hertz(32_768));
    assert_eq!(pmc.clocks.processor_clk(), Hertz(32_768));
    assert_eq!(
        pmc.pmc.take(),
        vec![
            PmcOp::Unprotect,
            mckr(Some(ClockSelect::SlowClk), None),
            WAIT_MCK,
            mckr(Some(ClockSelect::SlowClk), Some(ProcessorClockPrescaler::Clk)),
            WAIT_MCK,
        ]
    );
}

#[test]
fn slow_clock_is_divided_by_the_prescaler() {
    let handle: PMC = Handle::new();
    let pmc = handle.freeze(Config::slow_clock().prescaler(ProcessorClockPrescaler::Clk64));
    assert_eq!(pmc.clocks.master_clk(), Hertz(32_768));
    assert_eq!(pmc.clocks.processor_clk(), Hertz(512));
}

#[test]
fn main_clock_from_the_crystal() {
    let handle: PMC = Handle::new();
    let config = Config::main_clock(MainOscillator::XtalOscillator)
        .prescaler(ProcessorClockPrescaler::Clk3);
    let mut pmc = handle.freeze(config);
    assert_eq!(pmc.clocks.master_clk(), Hertz(12_000_000));
    assert_eq!(pmc.clocks.processor_clk(), Hertz(4_000_000));
    assert_eq!(
        pmc.pmc.take(),
        vec![
            PmcOp::Mor(MorWrite {
                xtal_startup: Some(8),
                rc_enable: None,
                xtal_enable: Some(true),
                select_xtal: Some(true),
            }),
            mckr(None, Some(ProcessorClockPrescaler::Clk3)),
            WAIT_MCK,
            mckr(Some(ClockSelect::PllaClk), Some(ProcessorClockPrescaler::Clk2)),
            WAIT_MCK,
        ]
    );
}

#[test]
fn main_clock_from_the_fast_rc_oscillator() {
    let handle: PMC = Handle::new();
    let config = Config::main_clock(MainOscillator::FastRcOscillator(
        RcOscillatorSpeed::Speed8Mhz,
    ))
    .prescaler(ProcessorClockPrescaler::Clk3);
    let mut pmc = handle.freeze(config);
    assert_eq!(pmc.clocks.master_clk(), Hertz(8_000_000));
    assert_eq!(pmc.clocks.processor_clk(), Hertz(2_666_666));
    let program = pmc.pmc.take();
    assert_eq!(
        program[0],
        PmcOp::Mor(MorWrite {
            xtal_startup: None,
            rc_enable: Some(true),
            xtal_enable: None,
            select_xtal: Some(false),
        })
    );
    assert_eq!(program.len(), 5);
}

#[test]
fn fast_rc_speeds() {
    for (speed, hz) in [
        (RcOscillatorSpeed::Speed4Mhz, 4_000_000),
        (RcOscillatorSpeed::Speed8Mhz, 8_000_000),
        (RcOscillatorSpeed::Speed12Mhz, 12_000_000),
    ] {
        let css = MasterClockSrc::MainClock(MainOscillator::FastRcOscillator(speed));
        assert_eq!(master_clock_of(css), Hertz(hz));
    }
}

#[test]
fn pll_frequency_follows_divider_and_multiplier() {
    let xtal = MainOscillator::XtalOscillator;
    let pll = |d, m| master_clock_of(MasterClockSrc::Pll(xtal, d, m));
    assert_eq!(pll(DivA::Zero, MullA::Activated(13)), Hertz(0));
    assert_eq!(pll(DivA::Zero, MullA::Activated(65_535)), Hertz(0));
    assert_eq!(pll(DivA::Bypassed, MullA::Deactivated), Hertz(0));
    assert_eq!(pll(DivA::Output(0), MullA::Deactivated), Hertz(0));
    assert_eq!(pll(DivA::Bypassed, MullA::Activated(0)), Hertz(12_000_000));
    assert_eq!(pll(DivA::Bypassed, MullA::Activated(13)), Hertz(168_000_000));
    assert_eq!(pll(DivA::Bypassed, MullA::Activated(356)), Hertz(4_284_000_000));
    assert_eq!(pll(DivA::Output(2), MullA::Activated(13)), Hertz(84_000_000));
    assert_eq!(pll(DivA::Output(7), MullA::Activated(13)), Hertz(24_000_000));
    assert_eq!(pll(DivA::Output(255), MullA::Activated(0)), Hertz(47_058));
    let rc = MainOscillator::FastRcOscillator(RcOscillatorSpeed::Speed4Mhz);
    assert_eq!(
        master_clock_of(MasterClockSrc::Pll(rc, DivA::Output(3), MullA::Activated(9))),
        Hertz(13_333_333)
    );
}

#[test]
fn processor_clock_is_the_master_clock_divided() {
    let master = Hertz(168_000_001);
    let cases = [
        (ProcessorClockPrescaler::Clk, 168_000_001),
        (ProcessorClockPrescaler::Clk2, 84_000_000),
        (ProcessorClockPrescaler::Clk3, 56_000_000),
        (ProcessorClockPrescaler::Clk4, 42_000_000),
        (ProcessorClockPrescaler::Clk8, 21_000_000),
        (ProcessorClockPrescaler::Clk16, 10_500_000),
        (ProcessorClockPrescaler::Clk32, 5_250_000),
        (ProcessorClockPrescaler::Clk64, 2_625_000),
    ];
    for (pres, hz) in cases {
        assert_eq!(processor_clock_of(master, pres), Hertz(hz));
    }
}

#[test]
fn support_is_told_before_freezing() {
    let xtal = MainOscillator::XtalOscillator;
    let rc = MainOscillator::FastRcOscillator(RcOscillatorSpeed::Speed4Mhz);
    assert!(Config::hclk_84mhz().is_supported());
    assert!(Config::slow_clock().is_supported());
    assert!(Config::main_clock(rc).is_supported());
    assert!(Config::pll(xtal, DivA::Bypassed, MullA::Activated(356)).is_supported());
    assert!(!Config::pll(xtal, DivA::Bypassed, MullA::Activated(357)).is_supported());
    assert!(Config::pll(xtal, DivA::Zero, MullA::Activated(357)).is_supported());
    assert!(Config::pll(xtal, DivA::Output(0), MullA::Deactivated).is_supported());
    assert!(!Config::pll(xtal, DivA::Output(0), MullA::Activated(1)).is_supported());
    assert!(!Config::pll(xtal, DivA::Output(2), MullA::Activated(2_047)).is_supported());
    assert!(Config::pll(xtal, DivA::Output(2), MullA::Activated(100)).is_supported());
    assert!(!Config::pll(rc, DivA::Bypassed, MullA::Activated(13)).is_supported());
    assert!(!Config::pll(rc, DivA::Zero, MullA::Deactivated).is_supported());
    let css = MasterClockSrc::Pll(rc, DivA::Bypassed, MullA::Activated(1_072));
    assert!(frequency_is_computable(css));
    let css = MasterClockSrc::Pll(rc, DivA::Bypassed, MullA::Activated(1_073));
    assert!(!frequency_is_computable(css));
}

#[test]
fn builders_set_one_field_each() {
    let css = MasterClockSrc::MainClock(MainOscillator::XtalOscillator);
    let base = Config::slow_clock();
    assert_eq!(base.master_clock(css), Config::main_clock(MainOscillator::XtalOscillator));
    assert_ne!(base.plla_div(PllDivMode::DividedBy2), base);
    assert_ne!(base.upll_div(PllDivMode::DividedBy2), base);
    assert_ne!(base.plla_div(PllDivMode::DividedBy2), base.upll_div(PllDivMode::DividedBy2));
    assert_eq!(base.plla_div(PllDivMode::DividedBy2).plla_div(PllDivMode::DividedBy1), base);
    assert_eq!(
        Config::pll(MainOscillator::XtalOscillator, DivA::Bypassed, MullA::Activated(13))
            .prescaler(ProcessorClockPrescaler::Clk2),
        Config::hclk_84mhz()
    );
    let handle: PMC = Handle::new();
    let pmc = handle.freeze(base.master_clock(css).prescaler(ProcessorClockPrescaler::Clk4));
    assert_eq!(pmc.clocks.source(), css);
    assert_eq!(pmc.clocks.processor_clk(), Hertz(3_000_000));
}

#[test]
fn clock_steps_issue_their_writes() {
    let config = Config::hclk_84mhz();
    let mut handle: PMC = Handle::new();
    set_prescaler(&mut handle, &config);
    assert_eq!(handle.take(), vec![mckr(None, Some(ProcessorClockPrescaler::Clk2)), WAIT_MCK]);
    set_clock(&mut handle, &config);
    assert_eq!(
        handle.take(),
        vec![mckr(Some(ClockSelect::PllaClk), Some(ProcessorClockPrescaler::Clk2)), WAIT_MCK]
    );
    set_clock(&mut handle, &Config::slow_clock());
    assert_eq!(
        handle.take(),
        vec![mckr(Some(ClockSelect::SlowClk), Some(ProcessorClockPrescaler::Clk)), WAIT_MCK]
    );
    set_clock(&mut handle, &Config::main_clock(MainOscillator::XtalOscillator));
    assert_eq!(
        handle.take(),
        vec![mckr(Some(ClockSelect::MainClk), Some(ProcessorClockPrescaler::Clk)), WAIT_MCK]
    );
    configure_pll_a(&mut handle, DivA::Output(200), MullA::Activated(2_047));
    configure_pll_a(&mut handle, DivA::Zero, MullA::Deactivated);
    assert_eq!(
        handle.take(),
        vec![
            PmcOp::Pllar(PllarWrite { diva: 200, mula: 2_047, count: 63 }),
            PmcOp::WaitFor(PmcStatus::LockA),
            PmcOp::Pllar(PllarWrite { diva: 0, mula: 0, count: 63 }),
            PmcOp::WaitFor(PmcStatus::LockA),
        ]
    );
}

const CLOCKS: [(PeripheralClock, u8); 31] = [
    (PeripheralClock::PioA, 11),
    (PeripheralClock::PioB, 12),
    (PeripheralClock::PioC, 13),
    (PeripheralClock::PioD, 14),
    (PeripheralClock::Usart0, 17),
    (PeripheralClock::Usart1, 18),
    (PeripheralClock::Usart2, 19),
    (PeripheralClock::Usart3, 20),
    (PeripheralClock::HsMci, 21),
    (PeripheralClock::Twi0, 22),
    (PeripheralClock::Twi1, 23),
    (PeripheralClock::Spi0, 24),
    (PeripheralClock::Ssc, 26),
    (PeripheralClock::Tc0, 27),
    (PeripheralClock::Tc1, 28),
    (PeripheralClock::Tc2, 29),
    (PeripheralClock::Tc3, 30),
    (PeripheralClock::Tc4, 31),
    (PeripheralClock::Tc5, 32),
    (PeripheralClock::Tc6, 33),
    (PeripheralClock::Tc7, 34),
    (PeripheralClock::Tc8, 35),
    (PeripheralClock::Pwm, 36),
    (PeripheralClock::Adc, 37),
    (PeripheralClock::Dacc, 38),
    (PeripheralClock::Dmac, 39),
    (PeripheralClock::UOtgHs, 40),
    (PeripheralClock::Trng, 41),
    (PeripheralClock::Emac, 42),
    (PeripheralClock::Can0, 43),
    (PeripheralClock::Can1, 44),
];

#[test]
fn every_peripheral_has_its_identifier() {
    for (clock, id) in CLOCKS {
        assert_eq!(clock.id(), id);
    }
}

#[test]
fn peripheral_clocks_go_to_the_register_that_holds_them() {
    let handle: PMC = Handle::new();
    let mut pmc = handle.freeze(Config::slow_clock());
    pmc.pmc.take();
    let clocks = pmc.clocks;
    for (clock, id) in CLOCKS {
        pmc.enable_clock(clock);
        let enable = if id < 32 { PmcOp::Pcer0(id) } else { PmcOp::Pcer1(id) };
        assert_eq!(pmc.pmc.take(), vec![PmcOp::Unprotect, enable]);
        pmc.disable_clock(clock);
        let disable = if id < 32 { PmcOp::Pcdr0(id) } else { PmcOp::Pcdr1(id) };
        assert_eq!(pmc.pmc.take(), vec![PmcOp::Unprotect, disable]);
    }
    assert_eq!(pmc.clocks, clocks);
    pmc.enable_clock(PeripheralClock::Tc4);
    pmc.enable_clock(PeripheralClock::Tc5);
    assert_eq!(
        pmc.pmc.take(),
        vec![PmcOp::Unprotect, PmcOp::Pcer0(31), PmcOp::Unprotect, PmcOp::Pcer1(32)]
    );
}
