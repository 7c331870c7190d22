//! The controllers of a chip: their declaration and the source text made
//! from it

use vstd::prelude::*;
use vstd::string::*;
use super::case::screaming_snake_case;
use super::case::snake_case;
use super::case::to_screaming_snake_case;
use super::case::to_snake_case;
use super::lex::agrees;
use super::lex::error_at;
use super::lex::error_of;
use super::lex::kind_at;
use super::lex::kind_of;
use super::lex::lex;
use super::lex::lexed;
use super::lex::ErrorKind;
use super::lex::ParseError;
use super::lex::Token;
use super::lex::TokenKind;
use super::pio::lemma_pio_advances;
use super::pio::parse_pio_at;
use super::pio::pio_from;
use super::pin::upper_name;
use super::pin::upper_name_of;
use super::pio::pio_onto;
use super::pio::pio_tokens;
use super::pio::Pio;
use super::pio::PioView;

verus! {

/// The declarations of the controllers of a chip, in the order in which
/// they were given.
#[derive(PartialEq, Eq, Debug)]
pub struct PioSet {
    pub pio: Vec<Pio>,
}

impl View for PioSet {
    type V = Seq<PioView>;

    open spec fn view(&self) -> Seq<PioView> {
        self.pio@.map_values(|pio: Pio| pio@)
    }
}

/// What the two cases of a name hold.
pub struct CasedView {
    pub upper: Seq<char>,
    pub lower: Seq<char>,
}

/// The name of a controller in screaming snake case and in snake case.
#[derive(PartialEq, Eq, Debug)]
pub struct Cased {
    pub upper: String,
    pub lower: String,
}

impl View for Cased {
    type V = CasedView;

    open spec fn view(&self) -> CasedView {
        CasedView { upper: self.upper@, lower: self.lower@ }
    }
}

/// The cases of the names of `pios`, as `inflector` gives them.
pub open spec fn cased_names(pios: Seq<PioView>) -> Seq<CasedView> {
    pios.map_values(
        |pio: PioView|
            CasedView { upper: screaming_snake_case(pio.name), lower: snake_case(pio.name) },
    )
}

/// `acc` followed by the names that the first `k` controllers have in the
/// peripheral access crate, with commas between them.
pub open spec fn names_onto(acc: Seq<char>, cased: Seq<CasedView>, k: nat) -> Seq<char>
    decreases k,
{
    if k == 0 {
        acc
    } else {
        let before = names_onto(acc, cased, (k - 1) as nat);
        let before = if k == 1 {
            before
        } else {
            before + ", "@
        };
        before + upper_name(cased[k - 1].upper)
    }
}

/// `acc` followed by one match arm for each of the first `k` controllers,
/// with commas between them: the arm writes to the controller's register
/// `register` the bit of the pin.
pub open spec fn arms_onto(
    acc: Seq<char>,
    cased: Seq<CasedView>,
    register: Seq<char>,
    k: nat,
) -> Seq<char>
    decreases k,
{
    if k == 0 {
        acc
    } else {
        let before = arms_onto(acc, cased, register, (k - 1) as nat);
        let before = if k == 1 {
            before
        } else {
            before + ",\n                "@
        };
        before + "Gpio::"@ + upper_name(cased[k - 1].upper) + " => (*"@ + upper_name(
            cased[k - 1].upper,
        ) + "::ptr())."@ + register + ".write_with_zero(|w| w.bits(1 << self.i))"@
    }
}

/// `acc` followed by the modules of the first `k` controllers.
pub open spec fn pios_onto(
    acc: Seq<char>,
    cased: Seq<CasedView>,
    pios: Seq<PioView>,
    k: nat,
) -> Seq<char>
    decreases k,
{
    if k == 0 {
        acc
    } else {
        pio_onto(
            pios_onto(acc, cased, pios, (k - 1) as nat),
            cased[k - 1].upper,
            cased[k - 1].lower,
            pios[k - 1].id,
            pios[k - 1].pins,
        )
    }
}

/// `acc` followed by the source text for a set of controllers, `cased`
/// holding the cases of their names: the import of the controllers, the
/// enumeration of them, the type of a pin whose controller and number are
/// both erased, and the module of each controller.
#[verifier::opaque]
pub open spec fn set_onto(acc: Seq<char>, cased: Seq<CasedView>, pios: Seq<PioView>) -> Seq<char> {
    let t = acc
        + "use crate::pac::{"@;
    let t = names_onto(t, cased, cased.len());
    let t = t
        + "};

pub enum Gpio {"@;
    let t = names_onto(t, cased, cased.len());
    let t = t
        + "}

pub struct PXx<MODE> {
    i: u8,
    gpio: Gpio,
    _mode: PhantomData<MODE>,
}

impl<MODE> OutputPin for PXx<Output<MODE>> {
    type Error = ();
    fn set_high(&mut self) -> Result<(), Self::Error> {
        unsafe {
            match self.gpio {
                "@;
    let t = arms_onto(t, cased, "sodr"@, cased.len());
    let t = t
        + "
            }
        }

        Ok(())
    }
    fn set_low(&mut self) -> Result<(), Self::Error> {
        unsafe {
            match self.gpio {
                "@;
    let t = arms_onto(t, cased, "codr"@, cased.len());
    let t = t
        + "
            }
        }

        Ok(())
    }
}

impl<MODE> InputPin for PXx<Input<MODE>> {
    type Error = ();
    fn is_high(&self) -> Result<bool, Self::Error> {
        unimplemented!()
    }
    fn is_low(&self) -> Result<bool, Self::Error> {
        unimplemented!()
    }
}

"@;
    let t = pios_onto(t, cased, pios, pios.len());
    let t = t
        + "
"@;
    t
}

fn name_tokens(cased: &Vec<Cased>, tokens: &mut String)
    ensures
        final(tokens)@ == names_onto(
            old(tokens)@,
            cased@.map_values(|c: Cased| c@),
            cased@.len(),
        ),
{
    let ghost views = cased@.map_values(|c: Cased| c@);
    let mut k: usize = 0;
    while k < cased.len()
        invariant
            k <= cased.len(),
            views == cased@.map_values(|c: Cased| c@),
            tokens@ == names_onto(old(tokens)@, views, k as nat),
        decreases cased.len() - k,
    {
        if k != 0 {
            tokens.append(", ");
        }
        let name = upper_name_of(cased[k].upper.as_str());
        tokens.append(name.as_str());
        k += 1;
    }
}

fn arm_tokens(cased: &Vec<Cased>, register: &str, tokens: &mut String)
    ensures
        final(tokens)@ == arms_onto(
            old(tokens)@,
            cased@.map_values(|c: Cased| c@),
            register@,
            cased@.len(),
        ),
{
    let ghost views = cased@.map_values(|c: Cased| c@);
    let mut k: usize = 0;
    while k < cased.len()
        invariant
            k <= cased.len(),
            views == cased@.map_values(|c: Cased| c@),
            tokens@ == arms_onto(old(tokens)@, views, register@, k as nat),
        decreases cased.len() - k,
    {
        if k != 0 {
            tokens.append(",\n                ");
        }
        let name = upper_name_of(cased[k].upper.as_str());
        tokens.append("Gpio::");
        tokens.append(name.as_str());
        tokens.append(" => (*");
        tokens.append(name.as_str());
        tokens.append("::ptr()).");
        tokens.append(register);
        tokens.append(".write_with_zero(|w| w.bits(1 << self.i))");
        k += 1;
    }
}

fn pios_tokens(cased: &Vec<Cased>, pios: &Vec<Pio>, tokens: &mut String)
    requires
        cased.len() == pios.len(),
    ensures
        final(tokens)@ == pios_onto(
            old(tokens)@,
            cased@.map_values(|c: Cased| c@),
            pios@.map_values(|pio: Pio| pio@),
            pios@.len(),
        ),
{
    let ghost views = cased@.map_values(|c: Cased| c@);
    let ghost decls = pios@.map_values(|pio: Pio| pio@);
    let mut k: usize = 0;
    while k < pios.len()
        invariant
            k <= pios.len(),
            cased.len() == pios.len(),
            views == cased@.map_values(|c: Cased| c@),
            decls == pios@.map_values(|pio: Pio| pio@),
            tokens@ == pios_onto(old(tokens)@, views, decls, k as nat),
        decreases pios.len() - k,
    {
        pio_tokens(
            cased[k].upper.as_str(),
            cased[k].lower.as_str(),
            pios[k].id,
            &pios[k].pins,
            tokens,
        );
        k += 1;
    }
}

/// Appends to `tokens` the source text for the controllers `pios`, `cased`
/// holding the cases of their names.
pub fn set_tokens(cased: &Vec<Cased>, pios: &Vec<Pio>, tokens: &mut String)
    requires
        cased.len() == pios.len(),
    ensures
        final(tokens)@ == set_onto(
            old(tokens)@,
            cased@.map_values(|c: Cased| c@),
            pios@.map_values(|pio: Pio| pio@),
        ),
{
    proof {
        reveal(set_onto);
    }
    tokens.append("use crate::pac::{");
    name_tokens(cased, tokens);
    tokens.append("};

pub enum Gpio {");
    name_tokens(cased, tokens);
    tokens.append("}

pub struct PXx<MODE> {
    i: u8,
    gpio: Gpio,
    _mode: PhantomData<MODE>,
}

impl<MODE> OutputPin for PXx<Output<MODE>> {
    type Error = ();
    fn set_high(&mut self) -> Result<(), Self::Error> {
        unsafe {
            match self.gpio {
                ");
    arm_tokens(cased, "sodr", tokens);
    tokens.append("
            }
        }

        Ok(())
    }
    fn set_low(&mut self) -> Result<(), Self::Error> {
        unsafe {
            match self.gpio {
                ");
    arm_tokens(cased, "codr", tokens);
    tokens.append("
            }
        }

        Ok(())
    }
}

impl<MODE> InputPin for PXx<Input<MODE>> {
    type Error = ();
    fn is_high(&self) -> Result<bool, Self::Error> {
        unimplemented!()
    }
    fn is_low(&self) -> Result<bool, Self::Error> {
        unimplemented!()
    }
}

");
    pios_tokens(cased, pios, tokens);
    tokens.append("
");
}

impl PioSet {
    /// Appends to `tokens` the source text for the set.
    pub fn to_tokens(&self, tokens: &mut String)
        ensures
            final(tokens)@ == set_onto(old(tokens)@, cased_names(self@), self@),
    {
        let mut cased: Vec<Cased> = Vec::new();
        let mut k: usize = 0;
        while k < self.pio.len()
            invariant
                k <= self.pio.len(),
                cased.len() == k,
                forall|i: int|
                    0 <= i < k ==> (#[trigger] cased[i])@ == (CasedView {
                        upper: screaming_snake_case(self.pio[i]@.name),
                        lower: snake_case(self.pio[i]@.name),
                    }),
            decreases self.pio.len() - k,
        {
            let upper = to_screaming_snake_case(self.pio[k].name.as_str());
            let lower = to_snake_case(self.pio[k].name.as_str());
            cased.push(Cased { upper, lower });
            k += 1;
        }
        assert(cased@.map_values(|c: Cased| c@) =~= cased_names(self@));
        set_tokens(&cased, &self.pio, tokens);
    }
}


/// The controllers declared from token `i` on, behind the controllers
/// `acc`. The declarations are separated by commas; a comma may follow the
/// last.
pub open spec fn set_from(
    text: Seq<char>,
    tokens: Seq<Token>,
    end: usize,
    i: int,
    acc: Seq<PioView>,
) -> Result<Seq<PioView>, ParseError>
    decreases tokens.len() - i,
{
    if !(0 <= i < tokens.len()) {
        Ok(acc)
    } else {
        match pio_from(text, tokens, end, i) {
            Err(error) => Err(error),
            Ok((pio, next)) => {
                proof {
                    lemma_pio_advances(text, tokens, end, i);
                }
                if next >= tokens.len() {
                    Ok(acc.push(pio))
                } else if kind_at(tokens, next) == Some(TokenKind::Comma) {
                    set_from(text, tokens, end, next + 1, acc.push(pio))
                } else {
                    Err(error_at(ErrorKind::ExpectedComma, tokens, next, end))
                }
            },
        }
    }
}

/// The controllers that a text declares.
pub open spec fn parsed_set(text: Seq<char>) -> Result<Seq<PioView>, ParseError> {
    match lexed(text) {
        Err(error) => Err(error),
        Ok(tokens) => set_from(text, tokens, text.len() as usize, 0, Seq::empty()),
    }
}

impl PioSet {
    /// Reads the declarations of the controllers of a chip.
    pub fn parse(input: &str) -> (found: Result<PioSet, ParseError>)
        ensures
            agrees(found, parsed_set(input@)),
    {
        let tokens = match lex(input) {
            Err(error) => {
                return Err(error);
            },
            Ok(tokens) => tokens,
        };
        let end = input.unicode_len();
        let mut pio: Vec<Pio> = Vec::new();
        let mut i: usize = 0;
        assert(pio@.map_values(|pio: Pio| pio@) =~= Seq::<PioView>::empty());
        while i < tokens.len()
            invariant
                is_ascii(input),
                super::lex::within(tokens@, input@.len()),
                end == input@.len(),
                i <= tokens.len(),
                parsed_set(input@) == set_from(
                    input@,
                    tokens@,
                    end,
                    i as int,
                    pio@.map_values(|pio: Pio| pio@),
                ),
            decreases tokens.len() - i,
        {
            let ghost before = pio@.map_values(|pio: Pio| pio@);
            match parse_pio_at(input, &tokens, end, i) {
                Err(error) => {
                    return Err(error);
                },
                Ok((found, next)) => {
                    proof {
                        lemma_pio_advances(input@, tokens@, end, i as int);
                    }
                    pio.push(found);
                    assert(pio@.map_values(|pio: Pio| pio@) =~= before.push(found@));
                    if next >= tokens.len() {
                        return Ok(PioSet { pio });
                    }
                    match kind_of(&tokens, next) {
                        Some(TokenKind::Comma) => {
                            i = next + 1;
                        },
                        _ => {
                            return Err(error_of(ErrorKind::ExpectedComma, &tokens, next, end));
                        },
                    }
                },
            }
        }
        Ok(PioSet { pio })
    }
}

} // verus!
