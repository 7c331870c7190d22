//! One pin of a controller

use vstd::prelude::*;
use vstd::string::*;
use super::case::screaming_snake_case;
use super::case::to_screaming_snake_case;
use crate::text::decimal;
use crate::text::push_decimal;

verus! {

/// One pin: the name of its controller as declared, and its number.
pub struct Pin<'a> {
    pub pio: &'a str,
    pub index: u8,
}

/// Name of the type of pin `index` of the controller whose name in
/// screaming snake case is `upper`.
pub open spec fn pin_ident(upper: Seq<char>, index: u8) -> Seq<char> {
    "P"@ + upper + decimal(index as nat)
}

/// Name of the register field of pin `index`.
pub open spec fn accessor(index: u8) -> Seq<char> {
    "p"@ + decimal(index as nat)
}

/// Name of the controller in the peripheral access crate.
pub open spec fn upper_name(upper: Seq<char>) -> Seq<char> {
    "PIO"@ + upper
}

/// Name of the type of a pin of the controller whose number is erased.
pub open spec fn partial_erase(upper: Seq<char>) -> Seq<char> {
    "P"@ + upper + "x"@
}

/// `acc` followed by the source text of one pin: its type, the changes
/// of its mode, the erasure of its number, and what sets and reads it.
#[verifier::opaque]
pub open spec fn pin_onto(acc: Seq<char>, upper: Seq<char>, index: u8) -> Seq<char> {
    let pin = pin_ident(upper, index);
    let accessor = accessor(index);
    let erased = partial_erase(upper);
    let controller = upper_name(upper);
    acc
    + "/// Parallel I/O Pin.  Datasheet §31
pub struct "@
    + pin
    + "<MODE> {
    _mode: PhantomData<MODE>
}

impl<MODE> "@
    + pin
    + "<MODE> {
    /// Configures the pin to use peripheral A
    /// AB Select -- select A.  Datasheet §31.5.3
    pub fn into_peripheral_a(self, absr: &mut ABSR) -> "@
    + pin
    + "<PeripheralA> {
        absr.absr().write(|w| w."@
    + accessor
    + "().clear_bit());
        "@
    + pin
    + " { _mode: PhantomData }
    }

    /// Configures the pin to use peripheral B
    /// AB Select -- select B.  Datasheet §31.5.3
    pub fn into_peripheral_b(self, absr: &mut ABSR) -> "@
    + pin
    + "<PeripheralB> {
        absr.absr().write(|w| w."@
    + accessor
    + "().set_bit());
        "@
    + pin
    + " { _mode: PhantomData }
    }

    /// Configures the pin to operate as a floating input pin
    pub fn into_floating_input(
        self,
    ) -> "@
    + pin
    + "<Input<Floating>> {
        unimplemented!()
    }

    /// Configures the pin to operate as a pulled down input pin
    pub fn into_pull_down_input(
        self,
    ) -> "@
    + pin
    + "<Input<PullDown>> {
        unimplemented!()
    }

    /// Configures the pin to operate as a pulled up input pin
    pub fn into_pull_up_input(
        self,
    ) -> "@
    + pin
    + "<Input<PullUp>> {
        unimplemented!()
    }

    /// Configures the pin to operate as an open drain output pin
    /// Datasheet §31.5.6
    pub fn into_open_drain_output(
        self,
        mder: &mut MDER,
        oer: &mut OER,
    ) -> "@
    + pin
    + "<Output<OpenDrain>> {
        oer.oer().write_with_zero(|w| w."@
    + accessor
    + "().set_bit());

        mder.mder().write_with_zero(|w| w."@
    + accessor
    + "().set_bit());

        "@
    + pin
    + " { _mode: PhantomData }
    }

    /// Configures the pin to operate as an push pull output pin
    pub fn into_push_pull_output(
        self,
        mddr: &mut MDDR,
        oer: &mut OER,
    ) -> "@
    + pin
    + "<Output<PushPull>> {
        oer.oer().write_with_zero(|w| w."@
    + accessor
    + "().set_bit());

        mddr.mddr().write_with_zero(|w| w."@
    + accessor
    + "().set_bit());

        "@
    + pin
    + " { _mode: PhantomData }
    }
}

impl<MODE> "@
    + pin
    + "<Output<MODE>> {
    /// Erases the pin number from the type
    ///
    /// This is useful when you want to collect the pins into an array where you
    /// need all the elements to have the same type
    pub fn downgrade(self) -> "@
    + erased
    + "<Output<MODE>> {
        "@
    + erased
    + " {
            i: 0,
            _mode: self._mode,
        }
    }
}

impl<MODE> "@
    + pin
    + "<Input<MODE>> {
    /// Erases the pin number from the type
    ///
    /// This is useful when you want to collect the pins into an array where you
    /// need all the elements to have the same type
    pub fn downgrade(self) -> "@
    + erased
    + "<Input<MODE>> {
        "@
    + erased
    + " {
            i: 0,
            _mode: self._mode,
        }
    }
}

impl<MODE> OutputPin for "@
    + pin
    + "<Output<MODE>> {
    type Error = ();
    fn set_high(&mut self) -> Result<(), Self::Error> {
        unsafe { (*"@
    + controller
    + "::ptr()).sodr.write_with_zero(|w| w."@
    + accessor
    + "().set_bit()) };
        Ok(())
    }
    fn set_low(&mut self) -> Result<(), Self::Error> {
        unsafe { (*"@
    + controller
    + "::ptr()).codr.write_with_zero(|w| w."@
    + accessor
    + "().set_bit()) };
        Ok(())
    }
}

#[cfg(feature = \"unproven\")]
impl<MODE> InputPin for "@
    + pin
    + "<Input<MODE>> {
    type Error = ();
    fn is_high(&self) -> Result<bool, Self::Error> {
        Ok(unsafe { (*"@
    + controller
    + "::ptr()).pdsr.read()."@
    + accessor
    + "().bits() })
    }
    fn is_low(&self) -> Result<bool, Self::Error> {
        Ok(unsafe { !(*"@
    + controller
    + "::ptr()).pdsr.read()."@
    + accessor
    + "().bits() })
    }
}

"@
}

/// The name of the type of a pin.
pub fn pin_ident_of(upper: &str, index: u8) -> (name: String)
    ensures
        name@ == pin_ident(upper@, index),
{
    let mut name = String::from_str("P");
    name.append(upper);
    push_decimal(&mut name, index as u32);
    name
}

/// The name of the register field of a pin.
pub fn accessor_of(index: u8) -> (name: String)
    ensures
        name@ == accessor(index),
{
    let mut name = String::from_str("p");
    push_decimal(&mut name, index as u32);
    name
}

/// The name of a controller in the peripheral access crate.
pub fn upper_name_of(upper: &str) -> (name: String)
    ensures
        name@ == upper_name(upper@),
{
    let mut name = String::from_str("PIO");
    name.append(upper);
    name
}

/// The name of the type of a pin whose number is erased.
pub fn partial_erase_of(upper: &str) -> (name: String)
    ensures
        name@ == partial_erase(upper@),
{
    let mut name = String::from_str("P");
    name.append(upper);
    name.append("x");
    name
}

/// Appends to `tokens` the source text of pin `index` of the controller
/// whose name in screaming snake case is `upper_ident`.
pub fn pin_tokens(upper_ident: &str, index: u8, tokens: &mut String)
    ensures
        final(tokens)@ == pin_onto(old(tokens)@, upper_ident@, index),
{
    proof {
        reveal(pin_onto);
    }
    let pin = pin_ident_of(upper_ident, index);
    let accessor = accessor_of(index);
    let erased = partial_erase_of(upper_ident);
    let controller = upper_name_of(upper_ident);
    tokens.append("/// Parallel I/O Pin.  Datasheet §31
pub struct ");
    tokens.append(pin.as_str());
    tokens.append("<MODE> {
    _mode: PhantomData<MODE>
}

impl<MODE> ");
    tokens.append(pin.as_str());
    tokens.append("<MODE> {
    /// Configures the pin to use peripheral A
    /// AB Select -- select A.  Datasheet §31.5.3
    pub fn into_peripheral_a(self, absr: &mut ABSR) -> ");
    tokens.append(pin.as_str());
    tokens.append("<PeripheralA> {
        absr.absr().write(|w| w.");
    tokens.append(accessor.as_str());
    tokens.append("().clear_bit());
        ");
    tokens.append(pin.as_str());
    tokens.append(" { _mode: PhantomData }
    }

    /// Configures the pin to use peripheral B
    /// AB Select -- select B.  Datasheet §31.5.3
    pub fn into_peripheral_b(self, absr: &mut ABSR) -> ");
    tokens.append(pin.as_str());
    tokens.append("<PeripheralB> {
        absr.absr().write(|w| w.");
    tokens.append(accessor.as_str());
    tokens.append("().set_bit());
        ");
    tokens.append(pin.as_str());
    tokens.append(" { _mode: PhantomData }
    }

    /// Configures the pin to operate as a floating input pin
    pub fn into_floating_input(
        self,
    ) -> ");
    tokens.append(pin.as_str());
    tokens.append("<Input<Floating>> {
        unimplemented!()
    }

    /// Configures the pin to operate as a pulled down input pin
    pub fn into_pull_down_input(
        self,
    ) -> ");
    tokens.append(pin.as_str());
    tokens.append("<Input<PullDown>> {
        unimplemented!()
    }

    /// Configures the pin to operate as a pulled up input pin
    pub fn into_pull_up_input(
        self,
    ) -> ");
    tokens.append(pin.as_str());
    tokens.append("<Input<PullUp>> {
        unimplemented!()
    }

    /// Configures the pin to operate as an open drain output pin
    /// Datasheet §31.5.6
    pub fn into_open_drain_output(
        self,
        mder: &mut MDER,
        oer: &mut OER,
    ) -> ");
    tokens.append(pin.as_str());
    tokens.append("<Output<OpenDrain>> {
        oer.oer().write_with_zero(|w| w.");
    tokens.append(accessor.as_str());
    tokens.append("().set_bit());

        mder.mder().write_with_zero(|w| w.");
    tokens.append(accessor.as_str());
    tokens.append("().set_bit());

        ");
    tokens.append(pin.as_str());
    tokens.append(" { _mode: PhantomData }
    }

    /// Configures the pin to operate as an push pull output pin
    pub fn into_push_pull_output(
        self,
        mddr: &mut MDDR,
        oer: &mut OER,
    ) -> ");
    tokens.append(pin.as_str());
    tokens.append("<Output<PushPull>> {
        oer.oer().write_with_zero(|w| w.");
    tokens.append(accessor.as_str());
    tokens.append("().set_bit());

        mddr.mddr().write_with_zero(|w| w.");
    tokens.append(accessor.as_str());
    tokens.append("().set_bit());

        ");
    tokens.append(pin.as_str());
    tokens.append(" { _mode: PhantomData }
    }
}

impl<MODE> ");
    tokens.append(pin.as_str());
    tokens.append("<Output<MODE>> {
    /// Erases the pin number from the type
    ///
    /// This is useful when you want to collect the pins into an array where you
    /// need all the elements to have the same type
    pub fn downgrade(self) -> ");
    tokens.append(erased.as_str());
    tokens.append("<Output<MODE>> {
        ");
    tokens.append(erased.as_str());
    tokens.append(" {
            i: 0,
            _mode: self._mode,
        }
    }
}

impl<MODE> ");
    tokens.append(pin.as_str());
    tokens.append("<Input<MODE>> {
    /// Erases the pin number from the type
    ///
    /// This is useful when you want to collect the pins into an array where you
    /// need all the elements to have the same type
    pub fn downgrade(self) -> ");
    tokens.append(erased.as_str());
    tokens.append("<Input<MODE>> {
        ");
    tokens.append(erased.as_str());
    tokens.append(" {
            i: 0,
            _mode: self._mode,
        }
    }
}

impl<MODE> OutputPin for ");
    tokens.append(pin.as_str());
    tokens.append("<Output<MODE>> {
    type Error = ();
    fn set_high(&mut self) -> Result<(), Self::Error> {
        unsafe { (*");
    tokens.append(controller.as_str());
    tokens.append("::ptr()).sodr.write_with_zero(|w| w.");
    tokens.append(accessor.as_str());
    tokens.append("().set_bit()) };
        Ok(())
    }
    fn set_low(&mut self) -> Result<(), Self::Error> {
        unsafe { (*");
    tokens.append(controller.as_str());
    tokens.append("::ptr()).codr.write_with_zero(|w| w.");
    tokens.append(accessor.as_str());
    tokens.append("().set_bit()) };
        Ok(())
    }
}

#[cfg(feature = \"unproven\")]
impl<MODE> InputPin for ");
    tokens.append(pin.as_str());
    tokens.append("<Input<MODE>> {
    type Error = ();
    fn is_high(&self) -> Result<bool, Self::Error> {
        Ok(unsafe { (*");
    tokens.append(controller.as_str());
    tokens.append("::ptr()).pdsr.read().");
    tokens.append(accessor.as_str());
    tokens.append("().bits() })
    }
    fn is_low(&self) -> Result<bool, Self::Error> {
        Ok(unsafe { !(*");
    tokens.append(controller.as_str());
    tokens.append("::ptr()).pdsr.read().");
    tokens.append(accessor.as_str());
    tokens.append("().bits() })
    }
}

");
}

impl<'a> Pin<'a> {
    /// Appends the source text of the pin to `tokens`.
    pub fn to_tokens(&self, tokens: &mut String)
        ensures
            final(tokens)@ == pin_onto(
                old(tokens)@,
                screaming_snake_case(self.pio@),
                self.index,
            ),
    {
        let upper_ident = to_screaming_snake_case(self.pio);
        pin_tokens(upper_ident.as_str(), self.index, tokens);
    }
}

} // verus!
