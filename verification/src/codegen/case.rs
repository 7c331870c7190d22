//! The cases in which the name of a controller is written

use vstd::prelude::*;

verus! {

/// What `inflector` makes of a text when it puts it in screaming snake case.
pub uninterp spec fn screaming_snake_case(text: Seq<char>) -> Seq<char>;

/// What `inflector` makes of a text when it puts it in snake case.
pub uninterp spec fn snake_case(text: Seq<char>) -> Seq<char>;

/// Calls `inflector::cases::screamingsnakecase::to_screaming_snake_case`.
/// The contract gives the result its name and claims nothing else of it:
/// the function reads its argument only and returns on every text.
#[verifier::external_body]
pub(crate) fn to_screaming_snake_case(text: &str) -> (cased: String)
    ensures
        cased@ == screaming_snake_case(text@),
{
    inflector::cases::screamingsnakecase::to_screaming_snake_case(text)
}

/// Calls `inflector::cases::snakecase::to_snake_case`. The contract gives
/// the result its name and claims nothing else of it: the function reads its
/// argument only and returns on every text.
#[verifier::external_body]
pub(crate) fn to_snake_case(text: &str) -> (cased: String)
    ensures
        cased@ == snake_case(text@),
{
    inflector::cases::snakecase::to_snake_case(text)
}

} // verus!
