//! One controller: its declaration and the source text of its module

use vstd::prelude::*;
use vstd::string::*;
use super::case::screaming_snake_case;
use super::case::snake_case;
use super::case::to_screaming_snake_case;
use super::case::to_snake_case;
use super::lex::agrees;
use super::lex::error_at;
use super::lex::error_of;
use super::lex::kind_at;
use super::lex::kind_of;
use super::lex::lex;
use super::lex::lexed;
use super::lex::within;
use super::lex::ErrorKind;
use super::lex::ParseError;
use super::lex::Token;
use super::lex::TokenKind;
use super::pin::partial_erase;
use super::pin::partial_erase_of;
use super::pin::pin_ident;
use super::pin::pin_ident_of;
use super::pin::pin_onto;
use super::pin::pin_tokens;
use super::pin::upper_name;
use super::pin::upper_name_of;
use crate::text::decimal;
use crate::text::push_decimal;

verus! {

/// What the declaration of a controller holds.
pub struct PioView {
    pub name: Seq<char>,
    pub id: u8,
    pub pins: Seq<u8>,
}

/// The declaration of one controller: its name, the identifier of its
/// clock, and the numbers of its pins in the order in which they were given.
#[derive(PartialEq, Eq, Debug)]
pub struct Pio {
    pub name: String,
    pub id: u8,
    pub pins: Vec<u8>,
}

impl View for Pio {
    type V = PioView;

    open spec fn view(&self) -> PioView {
        PioView { name: self.name@, id: self.id, pins: self.pins@ }
    }
}

/// Name of the controller's module, `lower` being the controller's name in
/// snake case.
pub open spec fn lower_name(lower: Seq<char>) -> Seq<char> {
    "pio"@ + lower
}

/// Name of the field of `Parts` that holds pin `pin`.
pub open spec fn lower_pin_ident(lower: Seq<char>, pin: u8) -> Seq<char> {
    "p"@ + lower + decimal(pin as nat)
}

/// Name of the field of the clock enable register for the peripheral `id`.
pub open spec fn pio_clock(id: u8) -> Seq<char> {
    "pid"@ + decimal(id as nat)
}

/// `acc` followed by the fields of `Parts` that hold the first `k` of
/// `pins`, with commas between them.
pub open spec fn fields_onto(
    acc: Seq<char>,
    upper: Seq<char>,
    lower: Seq<char>,
    pins: Seq<u8>,
    k: nat,
) -> Seq<char>
    decreases k,
{
    if k == 0 {
        acc
    } else {
        let before = fields_onto(acc, upper, lower, pins, (k - 1) as nat);
        let before = if k == 1 {
            before
        } else {
            before + ",\n        "@
        };
        before + "pub "@ + lower_pin_ident(lower, pins[k - 1]) + ": "@ + pin_ident(
            upper,
            pins[k - 1],
        ) + "<Input<Floating>>"@
    }
}

/// `acc` followed by what sets the fields of `Parts` for the first `k` of
/// `pins`, with commas between them.
pub open spec fn inits_onto(
    acc: Seq<char>,
    upper: Seq<char>,
    lower: Seq<char>,
    pins: Seq<u8>,
    k: nat,
) -> Seq<char>
    decreases k,
{
    if k == 0 {
        acc
    } else {
        let before = inits_onto(acc, upper, lower, pins, (k - 1) as nat);
        let before = if k == 1 {
            before
        } else {
            before + ",\n                "@
        };
        before + lower_pin_ident(lower, pins[k - 1]) + ": "@ + pin_ident(upper, pins[k - 1])
            + " { _mode: PhantomData }"@
    }
}

/// `acc` followed by the source text of the first `k` of `pins`.
pub open spec fn pins_onto(acc: Seq<char>, upper: Seq<char>, pins: Seq<u8>, k: nat) -> Seq<char>
    decreases k,
{
    if k == 0 {
        acc
    } else {
        pin_onto(pins_onto(acc, upper, pins, (k - 1) as nat), upper, pins[k - 1])
    }
}

/// `acc` followed by the source text of the module of one controller, whose
/// name is `upper` in screaming snake case and `lower` in snake case: the
/// parts that the controller splits into, with one field for each pin; the
/// split itself, which unlocks the controller, enables all its pins and
/// switches on its clock, the peripheral `id`; the registers that the pins
/// share; the type of a pin whose number is erased; and the pins.
#[verifier::opaque]
pub open spec fn pio_onto(
    acc: Seq<char>,
    upper: Seq<char>,
    lower: Seq<char>,
    id: u8,
    pins: Seq<u8>,
) -> Seq<char> {
    let lower_name = lower_name(lower);
    let upper_name = upper_name(upper);
    let erased = partial_erase(upper);
    let pio_clock = pio_clock(id);
    let t = acc
        + "pub mod "@
        + lower_name
        + " {
    use super::{
        Floating, Gpio, GpioExt, Input, OpenDrain, Output, PXx, PullDown, PullUp, PushPull, PeripheralA,
        PeripheralB,
    };

    #[cfg(feature = \"unproven\")]
    use crate::hal::digital::v2::InputPin;
    use crate::hal::digital::v2::OutputPin;

    use crate::pac::{"@
        + lower_name
        + ", "@
        + upper_name
        + ", PMC};
    use crate::pmc::Pmc;
    use core::marker::PhantomData;

    pub struct Parts {
        pub absr: ABSR,
        pub mddr: MDDR,
        pub mder: MDER,
        pub oer: OER,
        "@;
    let t = fields_onto(t, upper, lower, pins, pins.len());
    let t = t
        + "
    }

    impl GpioExt for "@
        + upper_name
        + " {
        type Parts = Parts;
        fn split(self, pmc: &mut Pmc) -> Parts {
            self.wpmr.write(|w| unsafe { w.wpen().clear_bit().wpkey().bits(0x50494F) });

            self.per.write_with_zero(|w| unsafe { w.bits(0xFFFFFFFF) });

            pmc.pmc.pmc_wpmr.write(|w|
                w
                .wpen().clear_bit()
                .wpkey().passwd()
            );

            pmc.pmc.pmc_pcer0.write_with_zero(|w| w."@
        + pio_clock
        + "().set_bit());

            Parts {
                absr: ABSR { _ownership: () },
                mddr: MDDR { _ownership: () },
                mder: MDER { _ownership: () },
                oer: OER { _ownership: () },
                "@;
    let t = inits_onto(t, upper, lower, pins, pins.len());
    let t = t
        + "
            }
        }
    }

    /// Opaque ABSR register. Datasheet §31.5.3
    ///
    /// The PIO Controller provides multiplexing of up to two
    /// peripheral functions on a single pin. The selection is
    /// performed by writing PIO_ABSR (AB Select Register). For each
    /// pin, the corresponding bit at level 0 means peripheral A is
    /// selected whereas the corresponding bit at level 1 indicates
    /// that peripheral B is selected.
    ///
    /// Note that multiplexing of peripheral lines A and B only
    /// affects the output line. The peripheral input lines are
    /// always connected to the pin input.
    ///
    /// After reset, PIO_ABSR is 0, thus indicating that all the PIO
    /// lines are configured on peripheral A. However, peripheral A
    /// generally does not drive the pin as the PIO Controller resets
    /// in I/O line mode.
    ///
    /// Writing in PIO_ABSR manages the multiplexing regardless of
    /// the configuration of the pin. However, assignment of a pin
    /// to a peripheral function requires a write in the peripheral
    /// selection register (PIO_ABSR) in addition to a write in
    /// PIO_PDR.
    pub struct ABSR {
        _ownership: (),
    }

    impl ABSR {
        pub(crate) fn absr(&mut self) -> &"@
        + lower_name
        + "::ABSR {
            unsafe { &(*"@
        + upper_name
        + "::ptr()).absr }
        }
    }

    /// Opaque MDDR register.  Datasheet §31.5.6
    ///
    /// Each I/O can be independently programmed in Open Drain by
    /// using the Multi Drive feature. This feature permits several
    /// drivers to be connected on the I/O line which is driven low
    /// only by each device. An external pull-up resistor (or
    /// enabling of the internal one) is generally required to
    /// guarantee a high level on the line.
    ///
    /// The Multi Drive feature is controlled by PIO_MDER (Multi-driver
    /// Enable Register) and PIO_MDDR (Multi-driver Disable Register).
    /// The Multi Drive can be selected whether the I/O line is
    /// controlled by the PIO controller or assigned to a peripheral
    /// function. PIO_MDSR (Multi-driver Status Register) indicates
    /// the pins that are configured to support external drivers.
    pub struct MDDR {
        _ownership: (),
    }

    impl MDDR {
        pub(crate) fn mddr(&mut self) -> &"@
        + lower_name
        + "::MDDR {
            unsafe { &(*"@
        + upper_name
        + "::ptr()).mddr }
        }
    }

    /// Opaque MDER register.  Datasheet §31.5.6
    ///
    /// Each I/O can be independently programmed in Open Drain by
    /// using the Multi Drive feature. This feature permits several
    /// drivers to be connected on the I/O line which is driven low
    /// only by each device. An external pull-up resistor (or
    /// enabling of the internal one) is generally required to
    /// guarantee a high level on the line.
    ///
    /// The Multi Drive feature is controlled by PIO_MDER (Multi-driver
    /// Enable Register) and PIO_MDDR (Multi-driver Disable Register).
    /// The Multi Drive can be selected whether the I/O line is
    /// controlled by the PIO controller or assigned to a peripheral
    /// function. PIO_MDSR (Multi-driver Status Register) indicates
    /// the pins that are configured to support external drivers.
    pub struct MDER {
        _ownership: (),
    }

    impl MDER {
        pub(crate) fn mder(&mut self) -> &"@
        + lower_name
        + "::MDER {
            unsafe { &(*"@
        + upper_name
        + "::ptr()).mder }
        }
    }

    /// Opaque OER register.  Datasheet §31.5.4
    ///
    /// When the I/O line is controlled by the PIO controller, the
    /// pin can be configured to be driven. This is done by writing
    /// PIO_OER (Output Enable Register) and PIO_ODR (Output Disable
    /// Register). The results of these write operations are detected
    /// in PIO_OSR (Output Status Register). When a bit in this
    /// register is at 0, the corresponding I/O line is used as an
    /// input only. When the bit is at 1, the corresponding I/O line
    /// is driven by the PIO controller.
    pub struct OER {
        _ownership: (),
    }

    impl OER {
        pub(crate) fn oer(&mut self) -> &"@
        + lower_name
        + "::OER {
            unsafe { &(*"@
        + upper_name
        + "::ptr()).oer }
        }
    }

    /// Partially erased pin
    pub struct "@
        + erased
        + "<MODE> {
        i: u8,
        _mode: PhantomData<MODE>,
    }

    impl<MODE> "@
        + erased
        + "<MODE> {
        /// Erases the port letter from the type
        ///
        /// This is useful when you want to collect the pins into an array where you
        /// need all the elements to have the same type
        pub fn downgrade(self) -> PXx<MODE> {
            PXx {
                i: self.i,
                gpio: Gpio::"@
        + upper_name
        + ",
                _mode: self._mode,
            }
        }
    }

    impl<MODE> OutputPin for "@
        + erased
        + "<Output<MODE>> {
        type Error = ();
        fn set_high(&mut self) -> Result<(), Self::Error> {
            unsafe { (*"@
        + upper_name
        + "::ptr()).sodr.write_with_zero(|w| w.bits(1 << self.i)) };
            Ok(())
        }
        fn set_low(&mut self) -> Result<(), Self::Error> {
            unsafe { (*"@
        + upper_name
        + "::ptr()).codr.write_with_zero(|w| w.bits(1 << self.i)) };
            Ok(())
        }
    }

    #[cfg(feature = \"unproven\")]
    impl<MODE> InputPin for "@
        + erased
        + "<Input<MODE>> {
        type Error = ();
        fn is_high(&self) -> Result<bool, Self::Error> {
            unimplemented!()
        }
        fn is_low(&self) -> Result<bool, Self::Error> {
            unimplemented!()
        }
    }

"@;
    let t = pins_onto(t, upper, pins, pins.len());
    let t = t
        + "}

"@;
    t
}

/// The name of a controller's module.
pub fn lower_name_of(lower: &str) -> (name: String)
    ensures
        name@ == lower_name(lower@),
{
    let mut name = String::from_str("pio");
    name.append(lower);
    name
}

/// The name of the field of `Parts` that holds a pin.
pub fn lower_pin_ident_of(lower: &str, pin: u8) -> (name: String)
    ensures
        name@ == lower_pin_ident(lower@, pin),
{
    let mut name = String::from_str("p");
    name.append(lower);
    push_decimal(&mut name, pin as u32);
    name
}

/// The name of the field of the clock enable register for a peripheral.
pub fn pio_clock_of(id: u8) -> (name: String)
    ensures
        name@ == pio_clock(id),
{
    let mut name = String::from_str("pid");
    push_decimal(&mut name, id as u32);
    name
}

fn field_tokens(upper: &str, lower: &str, pins: &Vec<u8>, tokens: &mut String)
    ensures
        final(tokens)@ == fields_onto(old(tokens)@, upper@, lower@, pins@, pins@.len()),
{
    let mut k: usize = 0;
    while k < pins.len()
        invariant
            k <= pins.len(),
            tokens@ == fields_onto(old(tokens)@, upper@, lower@, pins@, k as nat),
        decreases pins.len() - k,
    {
        if k != 0 {
            tokens.append(",\n        ");
        }
        let field = lower_pin_ident_of(lower, pins[k]);
        let pin = pin_ident_of(upper, pins[k]);
        tokens.append("pub ");
        tokens.append(field.as_str());
        tokens.append(": ");
        tokens.append(pin.as_str());
        tokens.append("<Input<Floating>>");
        k += 1;
    }
}

fn init_tokens(upper: &str, lower: &str, pins: &Vec<u8>, tokens: &mut String)
    ensures
        final(tokens)@ == inits_onto(old(tokens)@, upper@, lower@, pins@, pins@.len()),
{
    let mut k: usize = 0;
    while k < pins.len()
        invariant
            k <= pins.len(),
            tokens@ == inits_onto(old(tokens)@, upper@, lower@, pins@, k as nat),
        decreases pins.len() - k,
    {
        if k != 0 {
            tokens.append(",\n                ");
        }
        let field = lower_pin_ident_of(lower, pins[k]);
        let pin = pin_ident_of(upper, pins[k]);
        tokens.append(field.as_str());
        tokens.append(": ");
        tokens.append(pin.as_str());
        tokens.append(" { _mode: PhantomData }");
        k += 1;
    }
}

fn pins_tokens(upper: &str, pins: &Vec<u8>, tokens: &mut String)
    ensures
        final(tokens)@ == pins_onto(old(tokens)@, upper@, pins@, pins@.len()),
{
    let mut k: usize = 0;
    while k < pins.len()
        invariant
            k <= pins.len(),
            tokens@ == pins_onto(old(tokens)@, upper@, pins@, k as nat),
        decreases pins.len() - k,
    {
        pin_tokens(upper, pins[k], tokens);
        k += 1;
    }
}

/// Appends to `tokens` the source text of the module of the controller
/// whose name is `upper` in screaming snake case and `lower` in snake case.
pub fn pio_tokens(upper: &str, lower: &str, id: u8, pins: &Vec<u8>, tokens: &mut String)
    ensures
        final(tokens)@ == pio_onto(old(tokens)@, upper@, lower@, id, pins@),
{
    proof {
        reveal(pio_onto);
    }
    let lower_name = lower_name_of(lower);
    let upper_name = upper_name_of(upper);
    let erased = partial_erase_of(upper);
    let pio_clock = pio_clock_of(id);
    tokens.append("pub mod ");
    tokens.append(lower_name.as_str());
    tokens.append(" {
    use super::{
        Floating, Gpio, GpioExt, Input, OpenDrain, Output, PXx, PullDown, PullUp, PushPull, PeripheralA,
        PeripheralB,
    };

    #[cfg(feature = \"unproven\")]
    use crate::hal::digital::v2::InputPin;
    use crate::hal::digital::v2::OutputPin;

    use crate::pac::{");
    tokens.append(lower_name.as_str());
    tokens.append(", ");
    tokens.append(upper_name.as_str());
    tokens.append(", PMC};
    use crate::pmc::Pmc;
    use core::marker::PhantomData;

    pub struct Parts {
        pub absr: ABSR,
        pub mddr: MDDR,
        pub mder: MDER,
        pub oer: OER,
        ");
    field_tokens(upper, lower, pins, tokens);
    tokens.append("
    }

    impl GpioExt for ");
    tokens.append(upper_name.as_str());
    tokens.append(" {
        type Parts = Parts;
        fn split(self, pmc: &mut Pmc) -> Parts {
            self.wpmr.write(|w| unsafe { w.wpen().clear_bit().wpkey().bits(0x50494F) });

            self.per.write_with_zero(|w| unsafe { w.bits(0xFFFFFFFF) });

            pmc.pmc.pmc_wpmr.write(|w|
                w
                .wpen().clear_bit()
                .wpkey().passwd()
            );

            pmc.pmc.pmc_pcer0.write_with_zero(|w| w.");
    tokens.append(pio_clock.as_str());
    tokens.append("().set_bit());

            Parts {
                absr: ABSR { _ownership: () },
                mddr: MDDR { _ownership: () },
                mder: MDER { _ownership: () },
                oer: OER { _ownership: () },
                ");
    init_tokens(upper, lower, pins, tokens);
    tokens.append("
            }
        }
    }

    /// Opaque ABSR register. Datasheet §31.5.3
    ///
    /// The PIO Controller provides multiplexing of up to two
    /// peripheral functions on a single pin. The selection is
    /// performed by writing PIO_ABSR (AB Select Register). For each
    /// pin, the corresponding bit at level 0 means peripheral A is
    /// selected whereas the corresponding bit at level 1 indicates
    /// that peripheral B is selected.
    ///
    /// Note that multiplexing of peripheral lines A and B only
    /// affects the output line. The peripheral input lines are
    /// always connected to the pin input.
    ///
    /// After reset, PIO_ABSR is 0, thus indicating that all the PIO
    /// lines are configured on peripheral A. However, peripheral A
    /// generally does not drive the pin as the PIO Controller resets
    /// in I/O line mode.
    ///
    /// Writing in PIO_ABSR manages the multiplexing regardless of
    /// the configuration of the pin. However, assignment of a pin
    /// to a peripheral function requires a write in the peripheral
    /// selection register (PIO_ABSR) in addition to a write in
    /// PIO_PDR.
    pub struct ABSR {
        _ownership: (),
    }

    impl ABSR {
        pub(crate) fn absr(&mut self) -> &");
    tokens.append(lower_name.as_str());
    tokens.append("::ABSR {
            unsafe { &(*");
    tokens.append(upper_name.as_str());
    tokens.append("::ptr()).absr }
        }
    }

    /// Opaque MDDR register.  Datasheet §31.5.6
    ///
    /// Each I/O can be independently programmed in Open Drain by
    /// using the Multi Drive feature. This feature permits several
    /// drivers to be connected on the I/O line which is driven low
    /// only by each device. An external pull-up resistor (or
    /// enabling of the internal one) is generally required to
    /// guarantee a high level on the line.
    ///
    /// The Multi Drive feature is controlled by PIO_MDER (Multi-driver
    /// Enable Register) and PIO_MDDR (Multi-driver Disable Register).
    /// The Multi Drive can be selected whether the I/O line is
    /// controlled by the PIO controller or assigned to a peripheral
    /// function. PIO_MDSR (Multi-driver Status Register) indicates
    /// the pins that are configured to support external drivers.
    pub struct MDDR {
        _ownership: (),
    }

    impl MDDR {
        pub(crate) fn mddr(&mut self) -> &");
    tokens.append(lower_name.as_str());
    tokens.append("::MDDR {
            unsafe { &(*");
    tokens.append(upper_name.as_str());
    tokens.append("::ptr()).mddr }
        }
    }

    /// Opaque MDER register.  Datasheet §31.5.6
    ///
    /// Each I/O can be independently programmed in Open Drain by
    /// using the Multi Drive feature. This feature permits several
    /// drivers to be connected on the I/O line which is driven low
    /// only by each device. An external pull-up resistor (or
    /// enabling of the internal one) is generally required to
    /// guarantee a high level on the line.
    ///
    /// The Multi Drive feature is controlled by PIO_MDER (Multi-driver
    /// Enable Register) and PIO_MDDR (Multi-driver Disable Register).
    /// The Multi Drive can be selected whether the I/O line is
    /// controlled by the PIO controller or assigned to a peripheral
    /// function. PIO_MDSR (Multi-driver Status Register) indicates
    /// the pins that are configured to support external drivers.
    pub struct MDER {
        _ownership: (),
    }

    impl MDER {
        pub(crate) fn mder(&mut self) -> &");
    tokens.append(lower_name.as_str());
    tokens.append("::MDER {
            unsafe { &(*");
    tokens.append(upper_name.as_str());
    tokens.append("::ptr()).mder }
        }
    }

    /// Opaque OER register.  Datasheet §31.5.4
    ///
    /// When the I/O line is controlled by the PIO controller, the
    /// pin can be configured to be driven. This is done by writing
    /// PIO_OER (Output Enable Register) and PIO_ODR (Output Disable
    /// Register). The results of these write operations are detected
    /// in PIO_OSR (Output Status Register). When a bit in this
    /// register is at 0, the corresponding I/O line is used as an
    /// input only. When the bit is at 1, the corresponding I/O line
    /// is driven by the PIO controller.
    pub struct OER {
        _ownership: (),
    }

    impl OER {
        pub(crate) fn oer(&mut self) -> &");
    tokens.append(lower_name.as_str());
    tokens.append("::OER {
            unsafe { &(*");
    tokens.append(upper_name.as_str());
    tokens.append("::ptr()).oer }
        }
    }

    /// Partially erased pin
    pub struct ");
    tokens.append(erased.as_str());
    tokens.append("<MODE> {
        i: u8,
        _mode: PhantomData<MODE>,
    }

    impl<MODE> ");
    tokens.append(erased.as_str());
    tokens.append("<MODE> {
        /// Erases the port letter from the type
        ///
        /// This is useful when you want to collect the pins into an array where you
        /// need all the elements to have the same type
        pub fn downgrade(self) -> PXx<MODE> {
            PXx {
                i: self.i,
                gpio: Gpio::");
    tokens.append(upper_name.as_str());
    tokens.append(",
                _mode: self._mode,
            }
        }
    }

    impl<MODE> OutputPin for ");
    tokens.append(erased.as_str());
    tokens.append("<Output<MODE>> {
        type Error = ();
        fn set_high(&mut self) -> Result<(), Self::Error> {
            unsafe { (*");
    tokens.append(upper_name.as_str());
    tokens.append("::ptr()).sodr.write_with_zero(|w| w.bits(1 << self.i)) };
            Ok(())
        }
        fn set_low(&mut self) -> Result<(), Self::Error> {
            unsafe { (*");
    tokens.append(upper_name.as_str());
    tokens.append("::ptr()).codr.write_with_zero(|w| w.bits(1 << self.i)) };
            Ok(())
        }
    }

    #[cfg(feature = \"unproven\")]
    impl<MODE> InputPin for ");
    tokens.append(erased.as_str());
    tokens.append("<Input<MODE>> {
        type Error = ();
        fn is_high(&self) -> Result<bool, Self::Error> {
            unimplemented!()
        }
        fn is_low(&self) -> Result<bool, Self::Error> {
            unimplemented!()
        }
    }

");
    pins_tokens(upper, pins, tokens);
    tokens.append("}

");
}

impl Pio {
    /// Appends the source text of the controller's module to `tokens`.
    pub fn to_tokens(&self, tokens: &mut String)
        ensures
            final(tokens)@ == pio_onto(
                old(tokens)@,
                screaming_snake_case(self@.name),
                snake_case(self@.name),
                self@.id,
                self@.pins,
            ),
    {
        let upper_ident = to_screaming_snake_case(self.name.as_str());
        let lower_ident = to_snake_case(self.name.as_str());
        pio_tokens(upper_ident.as_str(), lower_ident.as_str(), self.id, &self.pins, tokens);
    }
}


/// The numbers of a list of pins from token `i` on, behind the numbers
/// `acc`, and the token behind the bracket that closes the list. The numbers
/// are separated by commas; a comma may follow the last.
pub open spec fn pins_from(tokens: Seq<Token>, end: usize, i: int, acc: Seq<u8>) -> Result<
    (Seq<u8>, int),
    ParseError,
>
    decreases tokens.len() - i,
{
    match kind_at(tokens, i) {
        Some(TokenKind::CloseBracket) => Ok((acc, i + 1)),
        Some(TokenKind::Int(Some(pin))) => match kind_at(tokens, i + 1) {
            Some(TokenKind::Comma) => pins_from(tokens, end, i + 2, acc.push(pin)),
            Some(TokenKind::CloseBracket) => Ok((acc.push(pin), i + 2)),
            _ => Err(error_at(ErrorKind::ExpectedComma, tokens, i + 1, end)),
        },
        Some(TokenKind::Int(None)) => Err(error_at(ErrorKind::PinOutOfRange, tokens, i, end)),
        _ => Err(error_at(ErrorKind::ExpectedInteger, tokens, i, end)),
    }
}

/// What a controller is when its braces close at token `i`: it must have
/// been given an identifier and pins.
pub open spec fn closed_at(
    tokens: Seq<Token>,
    end: usize,
    i: int,
    id: Option<u8>,
    pins: Option<Seq<u8>>,
) -> Result<(u8, Seq<u8>, int), ParseError> {
    match (id, pins) {
        (None, _) => Err(error_at(ErrorKind::MissingId, tokens, i, end)),
        (Some(_), None) => Err(error_at(ErrorKind::MissingPins, tokens, i, end)),
        (Some(id), Some(pins)) => Ok((id, pins, i + 1)),
    }
}

/// The fields of a controller from token `i` on, `id` and `pins` being
/// what the fields before gave: the identifier, the pins, and the token
/// behind the closing brace. A field is `pins`, a colon and a list in
/// brackets, or `id`, a colon and a number. A field given again replaces
/// the one before.
pub open spec fn fields_from(
    tokens: Seq<Token>,
    end: usize,
    i: int,
    id: Option<u8>,
    pins: Option<Seq<u8>>,
) -> Result<(u8, Seq<u8>, int), ParseError>
    decreases tokens.len() - i, 1int,
{
    match kind_at(tokens, i) {
        Some(TokenKind::CloseBrace) => closed_at(tokens, end, i, id, pins),
        Some(TokenKind::Pins) => if kind_at(tokens, i + 1) != Some(TokenKind::Colon) {
            Err(error_at(ErrorKind::ExpectedColon, tokens, i + 1, end))
        } else if kind_at(tokens, i + 2) != Some(TokenKind::OpenBracket) {
            Err(error_at(ErrorKind::ExpectedOpenBracket, tokens, i + 2, end))
        } else {
            match pins_from(tokens, end, i + 3, Seq::empty()) {
                Err(error) => Err(error),
                Ok((list, next)) => {
                    proof {
                        lemma_pins_advance(tokens, end, i + 3, Seq::empty());
                    }
                    behind_field(tokens, end, next, id, Some(list))
                },
            }
        },
        Some(TokenKind::Id) => if kind_at(tokens, i + 1) != Some(TokenKind::Colon) {
            Err(error_at(ErrorKind::ExpectedColon, tokens, i + 1, end))
        } else {
            match kind_at(tokens, i + 2) {
                Some(TokenKind::Int(Some(value))) => behind_field(
                    tokens,
                    end,
                    i + 3,
                    Some(value),
                    pins,
                ),
                Some(TokenKind::Int(None)) => Err(
                    error_at(ErrorKind::IdOutOfRange, tokens, i + 2, end),
                ),
                _ => Err(error_at(ErrorKind::ExpectedInteger, tokens, i + 2, end)),
            }
        },
        _ => Err(error_at(ErrorKind::ExpectedField, tokens, i, end)),
    }
}

/// What follows a field that ends before token `i`: the closing brace, or
/// a comma and the fields behind it.
pub open spec fn behind_field(
    tokens: Seq<Token>,
    end: usize,
    i: int,
    id: Option<u8>,
    pins: Option<Seq<u8>>,
) -> Result<(u8, Seq<u8>, int), ParseError>
    decreases tokens.len() - i, 2int,
{
    match kind_at(tokens, i) {
        Some(TokenKind::CloseBrace) => closed_at(tokens, end, i, id, pins),
        Some(TokenKind::Comma) => fields_from(tokens, end, i + 1, id, pins),
        _ => Err(error_at(ErrorKind::ExpectedComma, tokens, i, end)),
    }
}

/// Whether a token can be the name of a controller: any word but a
/// reserved one.
pub open spec fn names(kind: Option<TokenKind>) -> bool {
    kind == Some(TokenKind::Name) || kind == Some(TokenKind::Pins) || kind == Some(TokenKind::Id)
}

/// The controller declared from token `i` on, and the token behind it: a
/// name, a colon, and the fields in braces.
pub open spec fn pio_from(text: Seq<char>, tokens: Seq<Token>, end: usize, i: int) -> Result<
    (PioView, int),
    ParseError,
> {
    if !names(kind_at(tokens, i)) {
        Err(error_at(ErrorKind::ExpectedName, tokens, i, end))
    } else if kind_at(tokens, i + 1) != Some(TokenKind::Colon) {
        Err(error_at(ErrorKind::ExpectedColon, tokens, i + 1, end))
    } else if kind_at(tokens, i + 2) != Some(TokenKind::OpenBrace) {
        Err(error_at(ErrorKind::ExpectedOpenBrace, tokens, i + 2, end))
    } else {
        match fields_from(tokens, end, i + 3, None, None) {
            Err(error) => Err(error),
            Ok((id, pins, next)) => Ok(
                (
                    PioView {
                        name: text.subrange(tokens[i].start as int, tokens[i].end as int),
                        id,
                        pins,
                    },
                    next,
                ),
            ),
        }
    }
}

/// The controller that a text declares: the text holds the declaration and
/// nothing behind it.
pub open spec fn parsed_pio(text: Seq<char>) -> Result<PioView, ParseError> {
    match lexed(text) {
        Err(error) => Err(error),
        Ok(tokens) => match pio_from(text, tokens, text.len() as usize, 0) {
            Err(error) => Err(error),
            Ok((pio, next)) => if next >= tokens.len() {
                Ok(pio)
            } else {
                Err(error_at(ErrorKind::ExpectedEnd, tokens, next, text.len() as usize))
            },
        },
    }
}

/// A list of pins ends behind where it starts, within the tokens.
pub proof fn lemma_pins_advance(tokens: Seq<Token>, end: usize, i: int, acc: Seq<u8>)
    ensures
        pins_from(tokens, end, i, acc) matches Ok((_, next)) ==> i < next <= tokens.len(),
    decreases tokens.len() - i,
{
    match kind_at(tokens, i) {
        Some(TokenKind::Int(Some(pin))) => {
            if kind_at(tokens, i + 1) == Some(TokenKind::Comma) {
                lemma_pins_advance(tokens, end, i + 2, acc.push(pin));
            }
        },
        _ => {},
    }
}

/// The fields of a controller end behind where they start, within the
/// tokens.
pub proof fn lemma_fields_advance(
    tokens: Seq<Token>,
    end: usize,
    i: int,
    id: Option<u8>,
    pins: Option<Seq<u8>>,
)
    ensures
        fields_from(tokens, end, i, id, pins) matches Ok((_, _, next)) ==> i < next
            <= tokens.len(),
        behind_field(tokens, end, i, id, pins) matches Ok((_, _, next)) ==> i < next
            <= tokens.len(),
    decreases tokens.len() - i,
{
    match kind_at(tokens, i) {
        Some(TokenKind::Comma) => {
            lemma_fields_advance(tokens, end, i + 1, id, pins);
        },
        Some(TokenKind::Pins) => {
            if kind_at(tokens, i + 1) == Some(TokenKind::Colon) && kind_at(tokens, i + 2) == Some(
                TokenKind::OpenBracket,
            ) {
                lemma_pins_advance(tokens, end, i + 3, Seq::empty());
                match pins_from(tokens, end, i + 3, Seq::empty()) {
                    Ok((list, next)) => {
                        if kind_at(tokens, next) == Some(TokenKind::Comma) {
                            lemma_fields_advance(tokens, end, next + 1, id, Some(list));
                        }
                    },
                    Err(_) => {},
                }
            }
        },
        Some(TokenKind::Id) => {
            if kind_at(tokens, i + 1) == Some(TokenKind::Colon) {
                match kind_at(tokens, i + 2) {
                    Some(TokenKind::Int(Some(value))) => {
                        if kind_at(tokens, i + 3) == Some(TokenKind::Comma) {
                            lemma_fields_advance(tokens, end, i + 4, Some(value), pins);
                        }
                    },
                    _ => {},
                }
            }
        },
        _ => {},
    }
}

/// A declaration ends behind where it starts, within the tokens.
pub proof fn lemma_pio_advances(text: Seq<char>, tokens: Seq<Token>, end: usize, i: int)
    requires
        0 <= i,
    ensures
        pio_from(text, tokens, end, i) matches Ok((_, next)) ==> i < next <= tokens.len(),
{
    lemma_fields_advance(tokens, end, i + 3, None, None);
}


fn parse_pins(tokens: &Vec<Token>, end: usize, start: usize) -> (found: Result<
    (Vec<u8>, usize),
    ParseError,
>)
    requires
        start <= tokens.len(),
    ensures
        match found {
            Ok((pins, next)) => pins_from(tokens@, end, start as int, Seq::empty()) == Ok::<
                (Seq<u8>, int),
                ParseError,
            >((pins@, next as int)) && next <= tokens.len(),
            Err(error) => pins_from(tokens@, end, start as int, Seq::empty()) == Err::<
                (Seq<u8>, int),
                ParseError,
            >(error),
        },
{
    let mut pins: Vec<u8> = Vec::new();
    let mut i = start;
    loop
        invariant
            i <= tokens.len(),
            pins_from(tokens@, end, start as int, Seq::empty()) == pins_from(
                tokens@,
                end,
                i as int,
                pins@,
            ),
        decreases tokens.len() - i,
    {
        match kind_of(tokens, i) {
            Some(TokenKind::CloseBracket) => {
                return Ok((pins, i + 1));
            },
            Some(TokenKind::Int(Some(pin))) => match kind_of(tokens, i + 1) {
                Some(TokenKind::Comma) => {
                    pins.push(pin);
                    i = i + 2;
                },
                Some(TokenKind::CloseBracket) => {
                    pins.push(pin);
                    return Ok((pins, i + 2));
                },
                _ => {
                    return Err(error_of(ErrorKind::ExpectedComma, tokens, i + 1, end));
                },
            },
            Some(TokenKind::Int(None)) => {
                return Err(error_of(ErrorKind::PinOutOfRange, tokens, i, end));
            },
            _ => {
                return Err(error_of(ErrorKind::ExpectedInteger, tokens, i, end));
            },
        }
    }
}

/// The pins that have been read, if any.
spec fn list_view(pins: Option<Vec<u8>>) -> Option<Seq<u8>> {
    match pins {
        Some(list) => Some(list@),
        None => None,
    }
}

/// Whether the fields that the parser found are those of the grammar.
spec fn fields_agree(
    found: Result<(u8, Vec<u8>, usize), ParseError>,
    wanted: Result<(u8, Seq<u8>, int), ParseError>,
) -> bool {
    match found {
        Ok((id, pins, next)) => wanted == Ok::<(u8, Seq<u8>, int), ParseError>(
            (id, pins@, next as int),
        ),
        Err(error) => wanted == Err::<(u8, Seq<u8>, int), ParseError>(error),
    }
}

fn close(tokens: &Vec<Token>, end: usize, i: usize, id: Option<u8>, pins: Option<Vec<u8>>) -> (found:
    Result<(u8, Vec<u8>, usize), ParseError>)
    requires
        i < tokens.len(),
    ensures
        fields_agree(found, closed_at(tokens@, end, i as int, id, list_view(pins))),
{
    match id {
        None => Err(error_of(ErrorKind::MissingId, tokens, i, end)),
        Some(id) => match pins {
            None => Err(error_of(ErrorKind::MissingPins, tokens, i, end)),
            Some(pins) => Ok((id, pins, i + 1)),
        },
    }
}

fn parse_fields(tokens: &Vec<Token>, end: usize, start: usize) -> (found: Result<
    (u8, Vec<u8>, usize),
    ParseError,
>)
    requires
        start <= tokens.len(),
    ensures
        fields_agree(found, fields_from(tokens@, end, start as int, None, None)),
        found matches Ok((_, _, next)) ==> next <= tokens.len(),
{
    let mut id: Option<u8> = None;
    let mut pins: Option<Vec<u8>> = None;
    let mut i = start;
    loop
        invariant
            i <= tokens.len(),
            fields_from(tokens@, end, start as int, None, None) == fields_from(
                tokens@,
                end,
                i as int,
                id,
                list_view(pins),
            ),
        decreases tokens.len() - i,
    {
        let behind: usize;
        match kind_of(tokens, i) {
            Some(TokenKind::CloseBrace) => {
                return close(tokens, end, i, id, pins);
            },
            Some(TokenKind::Pins) => {
                match kind_of(tokens, i + 1) {
                    Some(TokenKind::Colon) => {},
                    _ => {
                        return Err(error_of(ErrorKind::ExpectedColon, tokens, i + 1, end));
                    },
                }
                match kind_of(tokens, i + 2) {
                    Some(TokenKind::OpenBracket) => {},
                    _ => {
                        return Err(error_of(ErrorKind::ExpectedOpenBracket, tokens, i + 2, end));
                    },
                }
                match parse_pins(tokens, end, i + 3) {
                    Err(error) => {
                        return Err(error);
                    },
                    Ok((list, next)) => {
                        proof {
                            lemma_pins_advance(tokens@, end, i + 3, Seq::empty());
                        }
                        pins = Some(list);
                        behind = next;
                    },
                }
            },
            Some(TokenKind::Id) => {
                match kind_of(tokens, i + 1) {
                    Some(TokenKind::Colon) => {},
                    _ => {
                        return Err(error_of(ErrorKind::ExpectedColon, tokens, i + 1, end));
                    },
                }
                match kind_of(tokens, i + 2) {
                    Some(TokenKind::Int(Some(value))) => {
                        id = Some(value);
                        behind = i + 3;
                    },
                    Some(TokenKind::Int(None)) => {
                        return Err(error_of(ErrorKind::IdOutOfRange, tokens, i + 2, end));
                    },
                    _ => {
                        return Err(error_of(ErrorKind::ExpectedInteger, tokens, i + 2, end));
                    },
                }
            },
            _ => {
                return Err(error_of(ErrorKind::ExpectedField, tokens, i, end));
            },
        }
        assert(fields_from(tokens@, end, start as int, None, None) == behind_field(
            tokens@,
            end,
            behind as int,
            id,
            list_view(pins),
        ));
        match kind_of(tokens, behind) {
            Some(TokenKind::CloseBrace) => {
                return close(tokens, end, behind, id, pins);
            },
            Some(TokenKind::Comma) => {
                i = behind + 1;
            },
            _ => {
                return Err(error_of(ErrorKind::ExpectedComma, tokens, behind, end));
            },
        }
    }
}

/// Reads the declaration of one controller from token `i` on.
pub(crate) fn parse_pio_at(input: &str, tokens: &Vec<Token>, end: usize, i: usize) -> (found:
    Result<(Pio, usize), ParseError>)
    requires
        is_ascii(input),
        within(tokens@, input@.len()),
        i <= tokens.len(),
    ensures
        match found {
            Ok((pio, next)) => pio_from(input@, tokens@, end, i as int) == Ok::<
                (PioView, int),
                ParseError,
            >((pio@, next as int)) && next <= tokens.len(),
            Err(error) => pio_from(input@, tokens@, end, i as int) == Err::<
                (PioView, int),
                ParseError,
            >(error),
        },
{
    match kind_of(tokens, i) {
        Some(TokenKind::Name) | Some(TokenKind::Pins) | Some(TokenKind::Id) => {},
        _ => {
            return Err(error_of(ErrorKind::ExpectedName, tokens, i, end));
        },
    }
    match kind_of(tokens, i + 1) {
        Some(TokenKind::Colon) => {},
        _ => {
            return Err(error_of(ErrorKind::ExpectedColon, tokens, i + 1, end));
        },
    }
    match kind_of(tokens, i + 2) {
        Some(TokenKind::OpenBrace) => {},
        _ => {
            return Err(error_of(ErrorKind::ExpectedOpenBrace, tokens, i + 2, end));
        },
    }
    match parse_fields(tokens, end, i + 3) {
        Err(error) => Err(error),
        Ok((id, pins, next)) => {
            let name = String::from_str(input.substring_ascii(tokens[i].start, tokens[i].end));
            Ok((Pio { name, id, pins }, next))
        },
    }
}

impl Pio {
    /// Reads the declaration of one controller: a name, a colon, and in
    /// braces the fields `id` and `pins`, separated by commas.
    pub fn parse(input: &str) -> (found: Result<Pio, ParseError>)
        ensures
            agrees(found, parsed_pio(input@)),
    {
        let tokens = match lex(input) {
            Err(error) => {
                return Err(error);
            },
            Ok(tokens) => tokens,
        };
        let end = input.unicode_len();
        match parse_pio_at(input, &tokens, end, 0) {
            Err(error) => Err(error),
            Ok((pio, next)) => {
                if next >= tokens.len() {
                    Ok(pio)
                } else {
                    Err(error_of(ErrorKind::ExpectedEnd, &tokens, next, end))
                }
            },
        }
    }
}

} // verus!
