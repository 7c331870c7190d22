use sam3x8e_hal::text::{push_decimal, same};
use sam3x8e_hal::time::{Bps, Hertz, KiloHertz, MegaHertz, MicroSeconds, U32Ext};

#[test]
fn u32_wraps_into_units() {
    assert_eq!(9600.bps(), Bps(9600));
    assert_eq!(32_768.hz(), Hertz(32_768));
    assert_eq!(12.khz(), KiloHertz(12));
    assert_eq!(84.mhz(), MegaHertz(84));
    assert_eq!(7.us(), MicroSeconds(7));
    assert_eq!(7.ms(), MicroSeconds(7_000));
    assert_eq!(0.ms(), MicroSeconds(0));
    assert_eq!(4_294_967.ms(), MicroSeconds(4_294_967_000));
}

#[test]
fn frequencies_convert_to_hertz() {
    assert_eq!(KiloHertz(12).into_hertz(), Hertz(12_000));
    assert_eq!(KiloHertz(4_294_967).into_hertz(), Hertz(4_294_967_000));
    assert_eq!(MegaHertz(84).into_hertz(), Hertz(84_000_000));
    assert_eq!(MegaHertz(4_294).into_hertz(), Hertz(4_294_000_000));
    assert_eq!(MegaHertz(84).into_kilo_hertz(), KiloHertz(84_000));
    assert_eq!(MegaHertz(0).into_hertz(), Hertz(0));
}

#[test]
fn period_and_frequency_convert_rounding_down() {
    assert_eq!(Hertz(1).into_micro_seconds(), MicroSeconds(1_000_000));
    assert_eq!(Hertz(1_000_000).into_micro_seconds(), MicroSeconds(1));
    assert_eq!(Hertz(3).into_micro_seconds(), MicroSeconds(333_333));
    assert_eq!(Hertz(600_000).into_micro_seconds(), MicroSeconds(1));
    assert_eq!(MicroSeconds(1).into_hertz(), Hertz(1_000_000));
    assert_eq!(MicroSeconds(1_000_000).into_hertz(), Hertz(1));
    assert_eq!(MicroSeconds(7).into_hertz(), Hertz(142_857));
}

#[test]
fn micro_seconds_are_ordered_by_their_count() {
    assert!(MicroSeconds(3) < MicroSeconds(4));
    assert!(MicroSeconds(4) >= MicroSeconds(4));
}

#[test]
fn micro_seconds_are_written_with_their_unit() {
    assert_eq!(MicroSeconds(0).to_string(), "0 µs");
    assert_eq!(MicroSeconds(7).to_string(), "7 µs");
    assert_eq!(MicroSeconds(1_000).to_string(), "1000 µs");
    assert_eq!(MicroSeconds(4_294_967_295).to_string(), "4294967295 µs");
}

#[test]
fn decimal_goes_behind_what_is_there() {
    let mut text = String::from("pid");
    push_decimal(&mut text, 44);
    assert_eq!(text, "pid44");
    push_decimal(&mut text, 0);
    assert_eq!(text, "pid440");
    push_decimal(&mut text, 1_090);
    assert_eq!(text, "pid4401090");
}

#[test]
fn same_compares_characters() {
    assert!(same("pins", "pins"));
    assert!(!same("pins", "pin"));
    assert!(!same("pins", "Pins"));
    assert!(same("", ""));
}
