//! Case conversion and inflection over the `cruet` library, with an
//! acronym registry that case styles keeping word boundaries honour.
use vstd::prelude::*;

pub mod inflect;
pub mod text;
pub mod acronyms;
pub mod convert;
pub mod binding;

pub use acronyms::AcronymSet;
pub use convert::CaseStyle;

verus! {

/// Lowercases every character of `s`.
pub fn to_lower_case(s: &str) -> (r: String)
    ensures
        r@ == inflect::lower_of(s@),
{
    inflect::lowercase(s)
}

/// Uppercases every character of `s`.
pub fn to_upper_case(s: &str) -> (r: String)
    ensures
        r@ == inflect::upper_of(s@),
{
    inflect::uppercase(s)
}

} // verus!
