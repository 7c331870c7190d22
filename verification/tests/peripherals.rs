use sam3x8e_hal::dacc::acr::{R, W};
use sam3x8e_hal::dacc::ACR;
use sam3x8e_hal::delay::{Delay, DelayExt};
use sam3x8e_hal::efc::{
    Config as EfcConfig, Efc0Ext, Efc1Ext, EfcOp, FlashAccessMode, FmrWrite, EFC0, EFC1,
};
use sam3x8e_hal::fixed_delay::Delay as FixedDelay;
use sam3x8e_hal::generic::ResetValue;
use sam3x8e_hal::pmc::{
    Config as PmcConfig, MainOscillator, PmcExt, PmcOp, ProcessorClockPrescaler, PMC,
};
use sam3x8e_hal::handle::Handle;
use sam3x8e_hal::rng::{Rng, TrngOp, TRNG, TRNG_PASSWORD};
use sam3x8e_hal::systick::{reload_of, run_delay, SystClkSource, SystOp, MAX_TICKS, SYST};
use sam3x8e_hal::time::Hertz;
use sam3x8e_hal::timer::{Timer, TimerExt, WouldBlock, CORE_CLOCK_HZ};
use sam3x8e_hal::watchdog::{
    Config as WdtConfig, MrWrite, WatchdogExt, WdtOp, WDT, WDT_CLOCK,
};

fn delay_ops(reload: u32) -> Vec<SystOp> {
    vec![
        SystOp::SetReload(reload),
        SystOp::ClearCurrent,
        SystOp::EnableCounter,
        SystOp::DisableInterrupt,
        SystOp::WaitWrapped,
        SystOp::DisableCounter,
    ]
}

fn delay_under(config: PmcConfig) -> Delay<SYST> {
    let handle: PMC = Handle::new();
    let pmc = handle.freeze(config);
    let syst: SYST = Handle::new();
    let mut delay = syst.delay(pmc.clocks);
    assert_eq!(delay.take_program(), vec![SystOp::SetClockSource(SystClkSource::Core)]);
    delay
}

#[test]
fn flash_config_starts_with_four_wait_states() {
    assert_eq!(EfcConfig::new(), EfcConfig::default());
    let efc = EFC0 { handle: Handle::new() };
    let mut efc = efc.freeze(EfcConfig::new());
    assert_eq!(
        efc.take_program(),
        vec![EfcOp::Fmr(FmrWrite { fws: 4, frdy: false, fam: false })]
    );
    assert_eq!(efc.take_program(), vec![]);
}

#[test]
fn flash_config_is_written_as_built() {
    let config = EfcConfig::new()
        .wait_state(6)
        .interrupt_enable(true)
        .access_mode(FlashAccessMode::AccessMode64);
    let efc = EFC0 { handle: Handle::new() };
    let mut efc = efc.freeze(config);
    assert_eq!(efc.take_program(), vec![EfcOp::Fmr(FmrWrite { fws: 6, frdy: true, fam: true })]);
    let config = config.access_mode(FlashAccessMode::AccessMode128).wait_state(255);
    let mut second = EFC1 { handle: Handle::new() };
    second.handle.issue(EfcOp::Fmr(FmrWrite { fws: 0, frdy: false, fam: false }));
    let mut second = second.freeze(config);
    assert_eq!(
        second.take_program(),
        vec![
            EfcOp::Fmr(FmrWrite { fws: 0, frdy: false, fam: false }),
            EfcOp::Fmr(FmrWrite { fws: 255, frdy: true, fam: false }),
        ]
    );
}

#[test]
fn watchdog_commits_its_default() {
    let wdt: WDT = Handle::new();
    let mut watchdog = wdt.watchdog(WdtConfig::default());
    assert_eq!(watchdog.take_program(), vec![]);
    watchdog.commit_config();
    let default = MrWrite {
        wdv: 0xFFF,
        wddis: false,
        wdfien: false,
        wdrsten: true,
        wdrproc: true,
        wddbghlt: true,
        wdidlehlt: true,
    };
    assert_eq!(watchdog.take_program(), vec![WdtOp::Mr(default)]);
    watchdog.feed();
    watchdog.feed();
    assert_eq!(watchdog.take_program(), vec![WdtOp::Restart, WdtOp::Restart]);
}

#[test]
fn watchdog_counts_a_period_in_its_ticks() {
    assert_eq!(WDT_CLOCK, 32_768 / 128);
    let default = MrWrite {
        wdv: 0,
        wddis: false,
        wdfien: false,
        wdrsten: true,
        wdrproc: true,
        wddbghlt: true,
        wdidlehlt: true,
    };
    for (hz, wdv) in [(1, 256), (2, 128), (3, 85), (256, 1), (257, 0), (u32::MAX, 0)] {
        let wdt: WDT = Handle::new();
        let mut watchdog = wdt.watchdog(WdtConfig::default());
        watchdog.start(Hertz(hz));
        assert_eq!(watchdog.take_program(), vec![WdtOp::Mr(MrWrite { wdv, ..default })]);
        watchdog.commit_config();
        assert_eq!(watchdog.take_program(), vec![WdtOp::Mr(MrWrite { wdv, ..default })]);
    }
}

#[test]
fn reload_is_one_less_than_the_ticks() {
    assert_eq!(MAX_TICKS, 1 << 24);
    assert_eq!(reload_of(0, 84), None);
    assert_eq!(reload_of(84, 0), None);
    assert_eq!(reload_of(1, 1), Some(0));
    assert_eq!(reload_of(10, 84), Some(839));
    assert_eq!(reload_of(1 << 12, 1 << 12), Some((1 << 24) - 1));
    assert_eq!(reload_of((1 << 24) + 1, 1), None);
    assert_eq!(reload_of(1 << 16, 1 << 16), None);
    assert_eq!(reload_of(u32::MAX, u32::MAX), None);
    let mut syst: SYST = Handle::new();
    run_delay(&mut syst, 839);
    assert_eq!(syst.take(), delay_ops(839));
}

#[test]
fn delay_counts_microseconds_in_whole_megahertz() {
    let mut delay = delay_under(PmcConfig::hclk_84mhz());
    assert_eq!(delay.reload_for_us(10), Some(839));
    delay.delay_us(10);
    assert_eq!(delay.take_program(), delay_ops(839));
    assert_eq!(delay.reload_for_us(0), None);
    assert_eq!(delay.reload_for_us(199_728), Some(16_777_151));
    delay.delay_us(199_728);
    assert_eq!(delay.take_program(), delay_ops(16_777_151));
    assert_eq!(delay.reload_for_us(199_729), None);
    assert_eq!(delay.reload_for_us(u32::MAX), None);
    let config = PmcConfig::main_clock(MainOscillator::XtalOscillator)
        .prescaler(ProcessorClockPrescaler::Clk8);
    let delay = delay_under(config);
    assert_eq!(delay.reload_for_us(1), Some(0));
    assert_eq!(delay.reload_for_us(1 << 24), Some((1 << 24) - 1));
    assert_eq!(delay.reload_for_us((1 << 24) + 1), None);
}

#[test]
fn delay_counts_milliseconds_as_microseconds_off_the_slow_clock() {
    let mut delay = delay_under(PmcConfig::hclk_84mhz());
    assert_eq!(delay.reload_for_ms(1), Some(83_999));
    delay.delay_ms(1);
    assert_eq!(delay.take_program(), delay_ops(83_999));
    assert_eq!(delay.reload_for_ms(199), Some(16_715_999));
    assert_eq!(delay.reload_for_ms(200), None);
    assert_eq!(delay.reload_for_ms(0), None);
    assert_eq!(delay.reload_for_ms(4_294_967), None);
    assert_eq!(delay.reload_for_ms(4_294_968), None);
    assert_eq!(delay.reload_for_ms(u32::MAX), None);
}

#[test]
fn delay_counts_milliseconds_in_whole_kilohertz_on_the_slow_clock() {
    let mut delay = delay_under(PmcConfig::slow_clock());
    assert_eq!(delay.reload_for_ms(1), Some(31));
    assert_eq!(delay.reload_for_ms(1_000), Some(31_999));
    delay.delay_ms(1_000);
    assert_eq!(delay.take_program(), delay_ops(31_999));
    assert_eq!(delay.reload_for_ms(524_288), Some(16_777_215));
    assert_eq!(delay.reload_for_ms(524_289), None);
    assert_eq!(delay.reload_for_ms(0), None);
    assert_eq!(delay.reload_for_us(1), None);
    assert_eq!(delay.reload_for_us(1_000_000), None);
    let slow = delay_under(PmcConfig::slow_clock().prescaler(ProcessorClockPrescaler::Clk64));
    assert_eq!(slow.reload_for_ms(1), None);
}

#[test]
fn delay_gives_its_timer_back() {
    let mut delay = delay_under(PmcConfig::hclk_84mhz());
    delay.delay_us(1);
    let mut syst = delay.free();
    assert_eq!(syst.take(), delay_ops(83));
    let handle: PMC = Handle::new();
    let pmc = handle.freeze(PmcConfig::hclk_84mhz());
    let mut syst: SYST = Handle::new();
    syst.issue(SystOp::EnableInterrupt);
    let delay = Delay::<SYST>::new(syst, pmc.clocks);
    assert_eq!(
        delay.free().take(),
        vec![SystOp::EnableInterrupt, SystOp::SetClockSource(SystClkSource::Core)]
    );
}

#[test]
fn fixed_delay_counts_eight_ticks_a_microsecond() {
    let syst: SYST = Handle::new();
    let mut delay = FixedDelay::<SYST>::new(syst, SystClkSource::External);
    assert_eq!(delay.take_program(), vec![SystOp::SetClockSource(SystClkSource::External)]);
    assert_eq!(FixedDelay::<SYST>::reload_for_us(1), Some(7));
    assert_eq!(FixedDelay::<SYST>::reload_for_us(0), None);
    assert_eq!(FixedDelay::<SYST>::reload_for_us(2_097_152), Some(16_777_215));
    assert_eq!(FixedDelay::<SYST>::reload_for_us(2_097_153), None);
    assert_eq!(FixedDelay::<SYST>::reload_for_us(u32::MAX), None);
    assert_eq!(FixedDelay::<SYST>::reload_for_ms(1), Some(7_999));
    assert_eq!(FixedDelay::<SYST>::reload_for_ms(2_097), Some(16_775_999));
    assert_eq!(FixedDelay::<SYST>::reload_for_ms(2_098), None);
    assert_eq!(FixedDelay::<SYST>::reload_for_ms(0), None);
    assert_eq!(FixedDelay::<SYST>::reload_for_ms(4_294_968), None);
    delay.delay_us(5);
    delay.delay_ms(2);
    let mut wanted = delay_ops(39);
    wanted.extend(delay_ops(15_999));
    assert_eq!(delay.take_program(), wanted);
    delay.delay_us(1);
    assert_eq!(delay.free().take(), delay_ops(7));
}

#[test]
fn timer_reloads_for_its_frequency() {
    assert_eq!(CORE_CLOCK_HZ, 84_000_000);
    assert_eq!(Timer::<SYST>::reload_for_timeout(Hertz(0)), None);
    assert_eq!(Timer::<SYST>::reload_for_timeout(Hertz(5)), None);
    assert_eq!(Timer::<SYST>::reload_for_timeout(Hertz(6)), Some(13_999_999));
    assert_eq!(Timer::<SYST>::reload_for_timeout(Hertz(1_000)), Some(83_999));
    assert_eq!(Timer::<SYST>::reload_for_timeout(Hertz(7_000_000)), Some(11));
    assert_eq!(Timer::<SYST>::reload_for_timeout(Hertz(50_000_000)), Some(0));
    assert_eq!(Timer::<SYST>::reload_for_timeout(Hertz(84_000_000)), Some(0));
    assert_eq!(Timer::<SYST>::reload_for_timeout(Hertz(84_000_001)), None);
}

#[test]
fn timer_starts_counting_down() {
    let syst: SYST = Handle::new();
    let mut timer = syst.timer(Hertz(1_000));
    let start = vec![SystOp::SetReload(83_999), SystOp::ClearCurrent, SystOp::EnableCounter];
    let mut wanted = vec![SystOp::SetClockSource(SystClkSource::Core)];
    wanted.extend(start.clone());
    assert_eq!(timer.take_program(), wanted);
    timer.start(Hertz(1_000));
    assert_eq!(timer.take_program(), start);
    timer.listen();
    timer.unlisten();
    assert_eq!(timer.take_program(), vec![SystOp::EnableInterrupt, SystOp::DisableInterrupt]);
    assert_eq!(timer.wait(false), Err(WouldBlock));
    assert_eq!(timer.wait(true), Ok(()));
    assert_eq!(timer.take_program(), vec![]);
    let syst: SYST = Handle::new();
    let mut timer = Timer::syst(syst, Hertz(6));
    assert_eq!(timer.take_program()[1], SystOp::SetReload(13_999_999));
}

#[test]
fn generator_is_clocked_and_enabled() {
    assert_eq!(TRNG_PASSWORD, 0x52_4E_47);
    let mut pmc: PMC = Handle::new();
    let trng: TRNG = Handle::new();
    let mut rng = Rng::new(trng, &mut pmc);
    assert_eq!(pmc.take(), vec![PmcOp::Pcer1(41)]);
    assert_eq!(rng.take_program(), vec![TrngOp::Cr { enable: true, key: TRNG_PASSWORD }]);
    rng.wait();
    rng.disable();
    rng.enable();
    assert_eq!(
        rng.take_program(),
        vec![
            TrngOp::WaitDataReady,
            TrngOp::Cr { enable: false, key: TRNG_PASSWORD },
            TrngOp::Cr { enable: true, key: TRNG_PASSWORD },
        ]
    );
}

#[test]
fn random_words_fill_a_buffer_low_byte_first() {
    let mut buffer = vec![0u8; 10];
    let mut pos = 0;
    pos = Rng::read(&mut buffer, pos, 0x4433_2211);
    assert_eq!(pos, 4);
    assert_eq!(buffer, vec![0x11, 0x22, 0x33, 0x44, 0, 0, 0, 0, 0, 0]);
    pos = Rng::read(&mut buffer, pos, 0x8877_6655);
    assert_eq!(pos, 8);
    assert_eq!(buffer, vec![0x11, 0x22, 0x33, 0x44, 0x55, 0x66, 0x77, 0x88, 0, 0]);
    pos = Rng::read(&mut buffer, pos, 0xCCBB_AA99);
    assert_eq!(pos, 10);
    assert_eq!(buffer, vec![0x11, 0x22, 0x33, 0x44, 0x55, 0x66, 0x77, 0x88, 0x99, 0xAA]);
    let mut one = vec![7u8];
    assert_eq!(Rng::read(&mut one, 0, 0xFFFF_FF00), 1);
    assert_eq!(one, vec![0]);
    let mut three = vec![9u8, 9, 9];
    assert_eq!(Rng::read(&mut three[..], 1, 0x0403_0201), 3);
    assert_eq!(three, vec![9, 1, 2]);
    let mut bytes = [0u8; 4];
    Rng::read(&mut bytes, 0, 0xDEAD_BEEF);
    assert_eq!(bytes, 0xDEAD_BEEFu32.to_le_bytes());
}

#[test]
fn register_fields_are_read_from_their_bits() {
    let r = R::new(0b11_0000_1001);
    assert_eq!(r.bits(), 0b11_0000_1001);
    assert_eq!(r.ibctlch0().bits(), 1);
    assert_eq!(r.ibctlch1().bits(), 2);
    assert_eq!(r.ibctldaccore().bits(), 3);
    let r = R::new(0xFFFF_FCF0);
    assert_eq!(r.ibctlch0().bits(), 0);
    assert_eq!(r.ibctlch1().bits(), 0);
    assert_eq!(r.ibctldaccore().bits(), 0);
    assert_eq!(<ACR as ResetValue>::reset_value(), 0);
}

#[test]
fn register_fields_are_written_into_their_bits() {
    let mut w = W::new(<ACR as ResetValue>::reset_value());
    w.ibctlch0().bits(1);
    assert_eq!(w.value(), 0b01);
    w.ibctlch1().bits(2).ibctldaccore().bits(3);
    assert_eq!(w.value(), 0b11_0000_1001);
    w.ibctlch0().bits(0xFE);
    assert_eq!(w.value(), 0b11_0000_1010);
    let mut w = W::new(0xFFFF_FFFF);
    w.ibctlch0().bits(0).ibctlch1().bits(0).ibctldaccore().bits(0);
    assert_eq!(w.value(), 0xFFFF_FCF0);
    w.ibctldaccore().bits(5);
    assert_eq!(w.value(), 0xFFFF_FDF0);
    w.set(7);
    assert_eq!(w.value(), 7);
    let r = R::new(w.value());
    assert_eq!((r.ibctlch0().bits(), r.ibctlch1().bits()), (3, 1));
}
