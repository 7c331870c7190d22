use sam3x8e_hal::codegen::gpio;
use sam3x8e_hal::gpio::{SAM3A, SAM3X, SAM3X8H};
use sam3x8e_hal::codegen::lex::{lex, ErrorKind, ParseError, Token, TokenKind};
use sam3x8e_hal::codegen::pin::{
    accessor_of, partial_erase_of, pin_ident_of, pin_tokens, upper_name_of, Pin,
};
use sam3x8e_hal::codegen::pio::{
    lower_name_of, lower_pin_ident_of, pio_clock_of, pio_tokens, Pio,
};
use sam3x8e_hal::codegen::pio_set::{set_tokens, Cased, PioSet};

fn error(kind: ErrorKind, at: usize) -> ParseError {
    ParseError { kind, at }
}

#[test]
fn names_are_put_together_from_case_and_number() {
    assert_eq!(pin_ident_of("A", 7), "PA7");
    assert_eq!(pin_ident_of("PORT_B", 255), "PPORT_B255");
    assert_eq!(accessor_of(0), "p0");
    assert_eq!(accessor_of(31), "p31");
    assert_eq!(upper_name_of("A"), "PIOA");
    assert_eq!(partial_erase_of("A"), "PAx");
    assert_eq!(lower_name_of("a"), "pioa");
    assert_eq!(lower_pin_ident_of("a", 29), "pa29");
    assert_eq!(pio_clock_of(11), "pid11");
    assert_eq!(pio_clock_of(100), "pid100");
}

#[test]
fn pin_text_names_the_pin() {
    let pin = Pin { pio: "A", index: 7 };
    let mut text = String::new();
    pin.to_tokens(&mut text);
    assert!(text.starts_with("/// Parallel I/O Pin.  Datasheet §31\npub struct PA7<MODE> {"));
    assert!(text.contains("absr.absr().write(|w| w.p7().clear_bit());"));
    assert!(text.contains("pub fn downgrade(self) -> PAx<Output<MODE>> {"));
    assert!(text.contains("unsafe { (*PIOA::ptr()).sodr.write_with_zero(|w| w.p7().set_bit()) };"));
    assert!(text.contains("Ok(unsafe { !(*PIOA::ptr()).pdsr.read().p7().bits() })"));
    assert_eq!(text.matches("PA7").count(), 17);
    assert_eq!(text.matches(".p7()").count(), 10);
}

#[test]
fn pin_text_goes_behind_what_is_there() {
    let mut text = String::from("// before\n");
    pin_tokens("C", 3, &mut text);
    assert!(text.starts_with("// before\n/// Parallel I/O Pin."));
    let mut alone = String::new();
    pin_tokens("C", 3, &mut alone);
    assert_eq!(text, format!("// before\n{}", alone));
}

#[test]
fn pin_takes_the_case_of_its_controller_from_inflector() {
    let pin = Pin { pio: "portA", index: 1 };
    let mut text = String::new();
    pin.to_tokens(&mut text);
    let mut wanted = String::new();
    pin_tokens("PORT_A", 1, &mut wanted);
    assert_eq!(text, wanted);
    assert!(text.contains("pub struct PPORT_A1<MODE>"));
}

#[test]
fn controller_text_lists_its_pins() {
    let mut text = String::new();
    pio_tokens("A", "a", 11, &vec![0, 1, 29], &mut text);
    assert!(text.starts_with("pub mod pioa {"));
    assert!(text.contains("use crate::pac::{pioa, PIOA, PMC};"));
    assert!(text.contains(
        "pub pa0: PA0<Input<Floating>>,\n        pub pa1: PA1<Input<Floating>>,\n        pub pa29: PA29<Input<Floating>>\n    }"
    ));
    assert!(text.contains(
        "pa0: PA0 { _mode: PhantomData },\n                pa1: PA1 { _mode: PhantomData },\n                pa29: PA29 { _mode: PhantomData }\n"
    ));
    assert!(text.contains("pmc.pmc.pmc_pcer0.write_with_zero(|w| w.pid11().set_bit());"));
    assert!(text.contains("self.wpmr.write(|w| unsafe { w.wpen().clear_bit().wpkey().bits(0x50494F) });"));
    assert!(text.contains("pub fn downgrade(self) -> PXx<MODE> {"));
    assert!(text.contains("gpio: Gpio::PIOA,"));
    assert_eq!(text.matches("/// Parallel I/O Pin.").count(), 3);
    let first = text.find("pub struct PA0<MODE>").unwrap();
    let second = text.find("pub struct PA1<MODE>").unwrap();
    let third = text.find("pub struct PA29<MODE>").unwrap();
    assert!(first < second && second < third);
    assert!(text.ends_with("}\n\n}\n\n"));
}

#[test]
fn controller_without_pins_has_none_in_its_text() {
    let mut text = String::new();
    pio_tokens("B", "b", 12, &vec![], &mut text);
    assert_eq!(text.matches("/// Parallel I/O Pin.").count(), 0);
    assert!(text.contains("pub oer: OER,\n        \n    }"));
    syn::parse_file(&text).expect("the text is a Rust file");
}

#[test]
fn controller_takes_both_cases_from_inflector() {
    let pio = Pio { name: String::from("portA"), id: 11, pins: vec![4] };
    let mut text = String::new();
    pio.to_tokens(&mut text);
    let mut wanted = String::new();
    pio_tokens("PORT_A", "port_a", 11, &vec![4], &mut wanted);
    assert_eq!(text, wanted);
    assert!(text.contains("pub mod pioport_a {"));
    assert!(text.contains("impl GpioExt for PIOPORT_A {"));
    assert!(text.contains("pub pport_a4: PPORT_A4<Input<Floating>>"));
}

#[test]
fn set_text_parses_as_rust() {
    let set = PioSet {
        pio: vec![
            Pio { name: String::from("A"), id: 11, pins: vec![0, 1, 29] },
            Pio { name: String::from("B"), id: 12, pins: vec![] },
        ],
    };
    let mut text = String::new();
    set.to_tokens(&mut text);
    let file = syn::parse_file(&text).expect("the text is a Rust file");
    assert_eq!(file.items.len(), 7);
    assert!(text.starts_with("use crate::pac::{PIOA, PIOB};\n\npub enum Gpio {PIOA, PIOB}\n"));
    assert!(text.contains(
        "Gpio::PIOA => (*PIOA::ptr()).sodr.write_with_zero(|w| w.bits(1 << self.i)),\n                Gpio::PIOB => (*PIOB::ptr()).sodr.write_with_zero(|w| w.bits(1 << self.i))\n"
    ));
    assert!(text.contains(
        "Gpio::PIOA => (*PIOA::ptr()).codr.write_with_zero(|w| w.bits(1 << self.i)),\n                Gpio::PIOB => (*PIOB::ptr()).codr.write_with_zero(|w| w.bits(1 << self.i))\n"
    ));
    let a = text.find("pub mod pioa {").unwrap();
    let b = text.find("pub mod piob {").unwrap();
    assert!(a < b);
    assert!(text.contains("pmc.pmc.pmc_pcer0.write_with_zero(|w| w.pid11().set_bit());"));
    assert!(text.contains("pmc.pmc.pmc_pcer0.write_with_zero(|w| w.pid12().set_bit());"));
    assert!(text.contains("pub pa29: PA29<Input<Floating>>"));
}

#[test]
fn set_text_is_made_from_the_cases_given() {
    let cased = vec![Cased { upper: String::from("X"), lower: String::from("y") }];
    let pios = vec![Pio { name: String::from("ignored"), id: 9, pins: vec![2] }];
    let mut text = String::new();
    set_tokens(&cased, &pios, &mut text);
    assert!(text.starts_with("use crate::pac::{PIOX};\n\npub enum Gpio {PIOX}\n"));
    assert!(text.contains("pub mod pioy {"));
    assert!(text.contains("pub py2: PX2<Input<Floating>>"));
    assert!(text.contains("w.pid9().set_bit()"));
    assert!(!text.contains("ignored"));
}

#[test]
fn empty_set_text_parses_as_rust() {
    let set = PioSet { pio: vec![] };
    let mut text = String::new();
    set.to_tokens(&mut text);
    assert!(text.starts_with("use crate::pac::{};\n\npub enum Gpio {}\n"));
    let file = syn::parse_file(&text).expect("the text is a Rust file");
    assert_eq!(file.items.len(), 5);
}

#[test]
fn lexer_gives_tokens_with_their_places() {
    let tokens = lex("A: { id:11 }").unwrap();
    assert_eq!(
        tokens,
        vec![
            Token { kind: TokenKind::Name, start: 0, end: 1 },
            Token { kind: TokenKind::Colon, start: 1, end: 2 },
            Token { kind: TokenKind::OpenBrace, start: 3, end: 4 },
            Token { kind: TokenKind::Id, start: 5, end: 7 },
            Token { kind: TokenKind::Colon, start: 7, end: 8 },
            Token { kind: TokenKind::Int(Some(11)), start: 8, end: 10 },
            Token { kind: TokenKind::CloseBrace, start: 11, end: 12 },
        ]
    );
}

#[test]
fn lexer_tells_words_and_numbers_apart() {
    let kinds: Vec<TokenKind> =
        lex("pins id fn _ _a pins2 Self selfish 0 255 256 007 99999999999999999999 [],\t\r\n")
            .unwrap()
            .iter()
            .map(|token| token.kind)
            .collect();
    assert_eq!(
        kinds,
        vec![
            TokenKind::Pins,
            TokenKind::Id,
            TokenKind::Reserved,
            TokenKind::Reserved,
            TokenKind::Name,
            TokenKind::Name,
            TokenKind::Reserved,
            TokenKind::Name,
            TokenKind::Int(Some(0)),
            TokenKind::Int(Some(255)),
            TokenKind::Int(None),
            TokenKind::Int(Some(7)),
            TokenKind::Int(None),
            TokenKind::OpenBracket,
            TokenKind::CloseBracket,
            TokenKind::Comma,
        ]
    );
}

#[test]
fn lexer_rejects_what_starts_no_token() {
    assert_eq!(lex("A: { id: -1 }"), Err(error(ErrorKind::UnexpectedCharacter, 9)));
    assert_eq!(lex("A: { id: 11u8 }"), Err(error(ErrorKind::MalformedInteger, 9)));
    assert_eq!(lex("A: { id: 0x1F }"), Err(error(ErrorKind::MalformedInteger, 9)));
    assert_eq!(lex("A: { id: 1_0 }"), Err(error(ErrorKind::MalformedInteger, 9)));
    assert_eq!(lex("É: { id: 1 }"), Err(error(ErrorKind::NotAscii, 0)));
    assert_eq!(lex(""), Ok(vec![]));
    assert_eq!(lex("  \n "), Ok(vec![]));
}

#[test]
fn parses_one_controller() {
    assert_eq!(
        Pio::parse("A: { id: 11, pins: [0, 1, 2] }"),
        Ok(Pio { name: String::from("A"), id: 11, pins: vec![0, 1, 2] })
    );
    assert_eq!(
        Pio::parse("Bank_7:{pins:[255,0,],id:0,}"),
        Ok(Pio { name: String::from("Bank_7"), id: 0, pins: vec![255, 0] })
    );
    assert_eq!(
        Pio::parse("pins: { pins: [], id: 3 }"),
        Ok(Pio { name: String::from("pins"), id: 3, pins: vec![] })
    );
    assert_eq!(
        Pio::parse("id: { id: 3, pins: [7] }"),
        Ok(Pio { name: String::from("id"), id: 3, pins: vec![7] })
    );
}

#[test]
fn a_field_given_again_replaces_the_one_before() {
    assert_eq!(
        Pio::parse("A: { id: 1, pins: [1], id: 2, pins: [2, 3] }"),
        Ok(Pio { name: String::from("A"), id: 2, pins: vec![2, 3] })
    );
}

#[test]
fn controller_errors_name_the_place() {
    assert_eq!(Pio::parse(""), Err(error(ErrorKind::ExpectedName, 0)));
    assert_eq!(Pio::parse("fn: { id: 1, pins: [] }"), Err(error(ErrorKind::ExpectedName, 0)));
    assert_eq!(Pio::parse("_: { id: 1, pins: [] }"), Err(error(ErrorKind::ExpectedName, 0)));
    assert_eq!(Pio::parse("7: { id: 1, pins: [] }"), Err(error(ErrorKind::ExpectedName, 0)));
    assert_eq!(Pio::parse("A { id: 1, pins: [] }"), Err(error(ErrorKind::ExpectedColon, 2)));
    assert_eq!(Pio::parse("A"), Err(error(ErrorKind::ExpectedColon, 1)));
    assert_eq!(Pio::parse("A: [ id: 1 ]"), Err(error(ErrorKind::ExpectedOpenBrace, 3)));
    assert_eq!(Pio::parse("A: "), Err(error(ErrorKind::ExpectedOpenBrace, 3)));
    assert_eq!(Pio::parse("A: { name: 1 }"), Err(error(ErrorKind::ExpectedField, 5)));
    assert_eq!(Pio::parse("A: { , }"), Err(error(ErrorKind::ExpectedField, 5)));
    assert_eq!(Pio::parse("A: { id: 1"), Err(error(ErrorKind::ExpectedComma, 10)));
    assert_eq!(Pio::parse("A: { id: 1,"), Err(error(ErrorKind::ExpectedField, 11)));
    assert_eq!(Pio::parse("A: { id 1 }"), Err(error(ErrorKind::ExpectedColon, 8)));
    assert_eq!(Pio::parse("A: { id: x }"), Err(error(ErrorKind::ExpectedInteger, 9)));
    assert_eq!(Pio::parse("A: { id: 256 }"), Err(error(ErrorKind::IdOutOfRange, 9)));
    assert_eq!(Pio::parse("A: { id: 1 pins: [] }"), Err(error(ErrorKind::ExpectedComma, 11)));
    assert_eq!(Pio::parse("A: { pins [] }"), Err(error(ErrorKind::ExpectedColon, 10)));
    assert_eq!(Pio::parse("A: { pins: 1 }"), Err(error(ErrorKind::ExpectedOpenBracket, 11)));
    assert_eq!(Pio::parse("A: { pins: [1 2] }"), Err(error(ErrorKind::ExpectedComma, 14)));
    assert_eq!(Pio::parse("A: { pins: [1,,2] }"), Err(error(ErrorKind::ExpectedInteger, 14)));
    assert_eq!(Pio::parse("A: { pins: [,] }"), Err(error(ErrorKind::ExpectedInteger, 12)));
    assert_eq!(Pio::parse("A: { pins: [x] }"), Err(error(ErrorKind::ExpectedInteger, 12)));
    assert_eq!(Pio::parse("A: { pins: [1, 300] }"), Err(error(ErrorKind::PinOutOfRange, 15)));
    assert_eq!(Pio::parse("A: { pins: [1"), Err(error(ErrorKind::ExpectedComma, 13)));
    assert_eq!(Pio::parse("A: { pins: ["), Err(error(ErrorKind::ExpectedInteger, 12)));
    assert_eq!(Pio::parse("A: { pins: [1] }"), Err(error(ErrorKind::MissingId, 15)));
    assert_eq!(Pio::parse("A: { id: 1 }"), Err(error(ErrorKind::MissingPins, 11)));
    assert_eq!(Pio::parse("A: { }"), Err(error(ErrorKind::MissingId, 5)));
    assert_eq!(
        Pio::parse("A: { id: 1, pins: [] } B"),
        Err(error(ErrorKind::ExpectedEnd, 23))
    );
    assert_eq!(
        Pio::parse("A: { id: 1, pins: [] },"),
        Err(error(ErrorKind::ExpectedEnd, 22))
    );
    assert_eq!(Pio::parse("A: { id: 1, pins: [] } #"), Err(error(ErrorKind::UnexpectedCharacter, 23)));
}

#[test]
fn parses_the_controllers_of_the_sam3x() {
    let set = PioSet::parse(SAM3X).unwrap();
    assert_eq!(set.pio.len(), 4);
    assert_eq!(set.pio[0], Pio { name: String::from("A"), id: 11, pins: (0..30).collect() });
    assert_eq!(set.pio[1], Pio { name: String::from("B"), id: 12, pins: (0..32).collect() });
    assert_eq!(set.pio[2], Pio { name: String::from("C"), id: 13, pins: (0..31).collect() });
    assert_eq!(set.pio[3], Pio { name: String::from("D"), id: 14, pins: (0..11).collect() });
}

#[test]
fn parses_the_controllers_of_the_other_chips() {
    let set = PioSet::parse(SAM3A).unwrap();
    assert_eq!(set.pio.len(), 3);
    assert_eq!(set.pio[0], Pio { name: String::from("A"), id: 11, pins: (0..30).collect() });
    assert_eq!(set.pio[1], Pio { name: String::from("B"), id: 12, pins: (0..32).collect() });
    assert_eq!(set.pio[2], Pio { name: String::from("C"), id: 13, pins: vec![0] });
    let set = PioSet::parse(SAM3X8H).unwrap();
    let wanted = [("A", 11, 32), ("B", 12, 32), ("C", 13, 31), ("D", 14, 31), ("E", 15, 32), ("F", 16, 7)];
    assert_eq!(set.pio.len(), wanted.len());
    for (pio, (name, id, pins)) in set.pio.iter().zip(wanted) {
        assert_eq!(*pio, Pio { name: String::from(name), id, pins: (0..pins).collect() });
    }
}

#[test]
fn a_declaration_written_without_space_is_read_back() {
    let set = PioSet::parse("A:{id:11,pins:[0,1,2]},pins:{id:0,pins:[]},b_2:{id:255,pins:[255]}")
        .unwrap();
    assert_eq!(
        set.pio,
        vec![
            Pio { name: String::from("A"), id: 11, pins: vec![0, 1, 2] },
            Pio { name: String::from("pins"), id: 0, pins: vec![] },
            Pio { name: String::from("b_2"), id: 255, pins: vec![255] },
        ]
    );
}

#[test]
fn parses_sets_with_and_without_a_last_comma() {
    assert_eq!(PioSet::parse(""), Ok(PioSet { pio: vec![] }));
    let one = PioSet { pio: vec![Pio { name: String::from("A"), id: 1, pins: vec![] }] };
    assert_eq!(PioSet::parse("A: { id: 1, pins: [] }"), Ok(one));
    let one = PioSet { pio: vec![Pio { name: String::from("A"), id: 1, pins: vec![] }] };
    assert_eq!(PioSet::parse("A: { id: 1, pins: [] },"), Ok(one));
}

#[test]
fn set_errors_name_the_place() {
    assert_eq!(
        PioSet::parse("A: { id: 1, pins: [] } B: { id: 2, pins: [] }"),
        Err(error(ErrorKind::ExpectedComma, 23))
    );
    assert_eq!(PioSet::parse(","), Err(error(ErrorKind::ExpectedName, 0)));
    assert_eq!(
        PioSet::parse("A: { id: 1, pins: [] },,"),
        Err(error(ErrorKind::ExpectedName, 23))
    );
    assert_eq!(
        PioSet::parse("A: { id: 1, pins: [] }, B: { id: 2 }"),
        Err(error(ErrorKind::MissingPins, 35))
    );
    assert_eq!(PioSet::parse("A: { id: 1, pins: [] }, é"), Err(error(ErrorKind::NotAscii, 0)));
}

#[test]
fn expands_the_controllers_of_the_sam3x() {
    let text = gpio(SAM3X).unwrap();
    let file = syn::parse_file(&text).expect("the text is a Rust file");
    assert_eq!(file.items.len(), 9);
    assert!(text.starts_with("use crate::pac::{PIOA, PIOB, PIOC, PIOD};\n"));
    assert_eq!(text.matches("/// Parallel I/O Pin.").count(), 30 + 32 + 31 + 11);
    assert!(text.contains("pub struct PD10<MODE>"));
    assert!(!text.contains("pub struct PD11<MODE>"));
    let set = PioSet::parse(SAM3X).unwrap();
    let mut same = String::new();
    set.to_tokens(&mut same);
    assert_eq!(text, same);
}

#[test]
fn expansion_fails_as_parsing_does() {
    assert_eq!(gpio("A: { id: 1 }"), Err(error(ErrorKind::MissingPins, 11)));
    assert_eq!(gpio("A: { id: 1, pins: [0] } }"), Err(error(ErrorKind::ExpectedComma, 24)));
}

#[test]
fn expansion_puts_names_in_both_cases() {
    let text = gpio("portA: { id: 11, pins: [3] }").unwrap();
    assert!(text.starts_with("use crate::pac::{PIOPORT_A};\n"));
    assert!(text.contains("pub mod pioport_a {"));
    assert!(text.contains("pub struct PPORT_A3<MODE>"));
    assert!(text.contains("pub pport_a3: PPORT_A3<Input<Floating>>"));
}
