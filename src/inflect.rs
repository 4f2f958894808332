//! Calls into the `cruet` inflection library and std's Unicode case mapping.
//!
//! Each outside function gets one wrapper here, and each result a name: the
//! rules behind them (tokenizing, pluralization tables, Unicode case tables)
//! belong to those libraries and are not restated.
use vstd::prelude::*;

verus! {

/// What `cruet::to_snake_case` returns for a string.
pub uninterp spec fn snake_of(s: Seq<char>) -> Seq<char>;

/// What `cruet::to_camel_case` returns for a string.
pub uninterp spec fn camel_of(s: Seq<char>) -> Seq<char>;

/// What `cruet::to_pascal_case` returns for a string.
pub uninterp spec fn pascal_of(s: Seq<char>) -> Seq<char>;

/// What `cruet::to_class_case` returns for a string.
pub uninterp spec fn class_of(s: Seq<char>) -> Seq<char>;

/// What `cruet::to_screaming_snake_case` returns for a string.
pub uninterp spec fn screaming_snake_of(s: Seq<char>) -> Seq<char>;

/// What `cruet::to_kebab_case` returns for a string.
pub uninterp spec fn kebab_of(s: Seq<char>) -> Seq<char>;

/// What `cruet::to_train_case` returns for a string.
pub uninterp spec fn train_of(s: Seq<char>) -> Seq<char>;

/// What `cruet::to_sentence_case` returns for a string.
pub uninterp spec fn sentence_of(s: Seq<char>) -> Seq<char>;

/// What `cruet::to_title_case` returns for a string.
pub uninterp spec fn title_of(s: Seq<char>) -> Seq<char>;

/// What `cruet::ordinalize` returns for a string.
pub uninterp spec fn ordinal_of(s: Seq<char>) -> Seq<char>;

/// What `cruet::deordinalize` returns for a string.
pub uninterp spec fn deordinal_of(s: Seq<char>) -> Seq<char>;

/// What `cruet::demodulize` returns for a string.
pub uninterp spec fn demodulized_of(s: Seq<char>) -> Seq<char>;

/// What `cruet::deconstantize` returns for a string.
pub uninterp spec fn deconstantized_of(s: Seq<char>) -> Seq<char>;

/// What `cruet::to_plural` returns for a string.
pub uninterp spec fn plural_of(s: Seq<char>) -> Seq<char>;

/// What `cruet::to_singular` returns for a string.
pub uninterp spec fn singular_of(s: Seq<char>) -> Seq<char>;

/// What `str::to_lowercase` returns for a string.
pub uninterp spec fn lower_of(s: Seq<char>) -> Seq<char>;

/// What `str::to_uppercase` returns for a string.
pub uninterp spec fn upper_of(s: Seq<char>) -> Seq<char>;

/// What `str::trim` returns for a string.
pub uninterp spec fn trimmed_of(s: Seq<char>) -> Seq<char>;

/// Relies on `cruet::to_snake_case`: a function of the characters alone.
#[verifier::external_body]
pub(crate) fn snake_case(s: &str) -> (r: String)
    ensures
        r@ == snake_of(s@),
{
    cruet::to_snake_case(s)
}

/// Relies on `cruet::to_camel_case`: a function of the characters alone.
#[verifier::external_body]
pub(crate) fn camel_case(s: &str) -> (r: String)
    ensures
        r@ == camel_of(s@),
{
    cruet::to_camel_case(s)
}

/// Relies on `cruet::to_pascal_case`: a function of the characters alone.
#[verifier::external_body]
pub(crate) fn pascal_case(s: &str) -> (r: String)
    ensures
        r@ == pascal_of(s@),
{
    cruet::to_pascal_case(s)
}

/// Relies on `cruet::to_class_case`: a function of the characters alone.
#[verifier::external_body]
pub(crate) fn class_case(s: &str) -> (r: String)
    ensures
        r@ == class_of(s@),
{
    cruet::to_class_case(s)
}

/// Relies on `cruet::to_screaming_snake_case`: a function of the characters alone.
#[verifier::external_body]
pub(crate) fn screaming_snake_case(s: &str) -> (r: String)
    ensures
        r@ == screaming_snake_of(s@),
{
    cruet::to_screaming_snake_case(s)
}

/// Relies on `cruet::to_kebab_case`: a function of the characters alone.
#[verifier::external_body]
pub(crate) fn kebab_case(s: &str) -> (r: String)
    ensures
        r@ == kebab_of(s@),
{
    cruet::to_kebab_case(s)
}

/// Relies on `cruet::to_train_case`: a function of the characters alone.
#[verifier::external_body]
pub(crate) fn train_case(s: &str) -> (r: String)
    ensures
        r@ == train_of(s@),
{
    cruet::to_train_case(s)
}

/// Relies on `cruet::to_sentence_case`: a function of the characters alone.
#[verifier::external_body]
pub(crate) fn sentence_case(s: &str) -> (r: String)
    ensures
        r@ == sentence_of(s@),
{
    cruet::to_sentence_case(s)
}

/// Relies on `cruet::to_title_case`: a function of the characters alone.
#[verifier::external_body]
pub(crate) fn title_case(s: &str) -> (r: String)
    ensures
        r@ == title_of(s@),
{
    cruet::to_title_case(s)
}

/// Relies on `cruet::ordinalize`: a function of the characters alone.
#[verifier::external_body]
pub(crate) fn ordinal(s: &str) -> (r: String)
    ensures
        r@ == ordinal_of(s@),
{
    cruet::ordinalize(s)
}

/// Relies on `cruet::deordinalize`: a function of the characters alone.
#[verifier::external_body]
pub(crate) fn deordinal(s: &str) -> (r: String)
    ensures
        r@ == deordinal_of(s@),
{
    cruet::deordinalize(s)
}

/// Relies on `cruet::demodulize`: a function of the characters alone.
#[verifier::external_body]
pub(crate) fn demodulized(s: &str) -> (r: String)
    ensures
        r@ == demodulized_of(s@),
{
    cruet::demodulize(s)
}

/// Relies on `cruet::deconstantize`: a function of the characters alone.
#[verifier::external_body]
pub(crate) fn deconstantized(s: &str) -> (r: String)
    ensures
        r@ == deconstantized_of(s@),
{
    cruet::deconstantize(s)
}

/// Relies on `cruet::to_plural`: a function of the characters alone.
#[verifier::external_body]
pub(crate) fn plural(s: &str) -> (r: String)
    ensures
        r@ == plural_of(s@),
{
    cruet::to_plural(s)
}

/// Relies on `cruet::to_singular`: a function of the characters alone.
#[verifier::external_body]
pub(crate) fn singular(s: &str) -> (r: String)
    ensures
        r@ == singular_of(s@),
{
    cruet::to_singular(s)
}

/// Relies on `str::to_lowercase`: the result depends on the characters alone.
#[verifier::external_body]
pub(crate) fn lowercase(s: &str) -> (r: String)
    ensures
        r@ == lower_of(s@),
{
    s.to_lowercase()
}

/// Relies on `str::to_uppercase`: the result depends on the characters alone.
#[verifier::external_body]
pub(crate) fn uppercase(s: &str) -> (r: String)
    ensures
        r@ == upper_of(s@),
{
    s.to_uppercase()
}

/// Relies on `str::trim`: leading and trailing whitespace removed, which
/// depends on the characters alone.
#[verifier::external_body]
pub(crate) fn trim_whitespace(s: &str) -> (r: &str)
    ensures
        r@ == trimmed_of(s@),
{
    s.trim()
}

} // verus!
