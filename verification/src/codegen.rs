//! The generator of the pin types: from the declaration of the parallel
//! I/O controllers of a chip to the source text of their pins

use vstd::prelude::*;
use lex::agrees;
use lex::ParseError;
use pio_set::cased_names;
use pio_set::parsed_set;
use pio_set::set_onto;
use pio_set::PioSet;

pub mod canonical;
pub mod case;
pub mod lex;
pub mod pin;
pub mod pio;
pub mod pio_set;

verus! {

/// The source text that a declaration of controllers expands to, or why the
/// text is no such declaration.
pub open spec fn expansion(text: Seq<char>) -> Result<Seq<char>, ParseError> {
    match parsed_set(text) {
        Err(error) => Err(error),
        Ok(pios) => Ok(set_onto(Seq::empty(), cased_names(pios), pios)),
    }
}

/// Expands a declaration of controllers, such as
/// `A: { id: 11, pins: [0, 1, 2] }, B: { id: 12, pins: [0] }`,
/// into the source text of their pins.
pub fn gpio(input: &str) -> (output: Result<String, ParseError>)
    ensures
        agrees(output, expansion(input@)),
{
    match PioSet::parse(input) {
        Err(error) => Err(error),
        Ok(pio) => {
            let mut tokens = String::new();
            pio.to_tokens(&mut tokens);
            Ok(tokens)
        },
    }
}

} // verus!
