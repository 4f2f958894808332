//! The flat entry points: one transform and one predicate per case style,
//! and the inflection utilities. An absent input (`None`) gives an absent
//! result from a transform and `0` from a predicate.
use vstd::prelude::*;
use crate::acronyms::AcronymSet;
use crate::convert::{
    CaseStyle, converted, foreign_key_of, table_of, convert, is_case, to_foreign_key,
    is_foreign_key, to_table_case, is_table_case,
};
use crate::inflect::{
    lower_of, upper_of, ordinal_of, deordinal_of, demodulized_of, deconstantized_of, plural_of,
    singular_of, ordinal, deordinal, demodulized, deconstantized, plural, singular,
};
use crate::{to_lower_case, to_upper_case};

verus! {

/// `1` for true, `0` for false.
pub open spec fn flag(b: bool) -> u8 {
    if b {
        1
    } else {
        0
    }
}

/// `s` rendered in `style`, or nothing for an absent input.
fn transform_single(acronyms: &AcronymSet, s: Option<&str>, style: CaseStyle) -> (r: Option<String>)
    ensures
        s is None <==> r is None,
        s is Some ==> r->0@ == converted(acronyms.members(), s->0@, style),
{
    match s {
        None => None,
        Some(x) => Some(convert(acronyms, x, style)),
    }
}

/// `1` where `s` is present and already written in `style`, else `0`.
fn predicate_single(acronyms: &AcronymSet, s: Option<&str>, style: CaseStyle) -> (r: u8)
    ensures
        r == flag(s is Some && converted(acronyms.members(), s->0@, style) == s->0@),
{
    match s {
        None => 0,
        Some(x) => if is_case(acronyms, x, style) {
            1
        } else {
            0
        },
    }
}

/// `s` in Class case, with the registered acronyms where the style shows them.
pub fn cruet_to_class_case(acronyms: &AcronymSet, s: Option<&str>) -> (r: Option<String>)
    ensures
        s is None <==> r is None,
        s is Some ==> r->0@ == converted(acronyms.members(), s->0@, CaseStyle::Class),
{
    transform_single(acronyms, s, CaseStyle::Class)
}

/// `s` in Camel case, with the registered acronyms where the style shows them.
pub fn cruet_to_camel_case(acronyms: &AcronymSet, s: Option<&str>) -> (r: Option<String>)
    ensures
        s is None <==> r is None,
        s is Some ==> r->0@ == converted(acronyms.members(), s->0@, CaseStyle::Camel),
{
    transform_single(acronyms, s, CaseStyle::Camel)
}

/// `s` in Pascal case, with the registered acronyms where the style shows them.
pub fn cruet_to_pascal_case(acronyms: &AcronymSet, s: Option<&str>) -> (r: Option<String>)
    ensures
        s is None <==> r is None,
        s is Some ==> r->0@ == converted(acronyms.members(), s->0@, CaseStyle::Pascal),
{
    transform_single(acronyms, s, CaseStyle::Pascal)
}

/// `s` in ScreamingSnake case, with the registered acronyms where the style shows them.
pub fn cruet_to_screamingsnake_case(acronyms: &AcronymSet, s: Option<&str>) -> (r: Option<String>)
    ensures
        s is None <==> r is None,
        s is Some ==> r->0@ == converted(acronyms.members(), s->0@, CaseStyle::ScreamingSnake),
{
    transform_single(acronyms, s, CaseStyle::ScreamingSnake)
}

/// `s` in Snake case, with the registered acronyms where the style shows them.
pub fn cruet_to_snake_case(acronyms: &AcronymSet, s: Option<&str>) -> (r: Option<String>)
    ensures
        s is None <==> r is None,
        s is Some ==> r->0@ == converted(acronyms.members(), s->0@, CaseStyle::Snake),
{
    transform_single(acronyms, s, CaseStyle::Snake)
}

/// `s` in Kebab case, with the registered acronyms where the style shows them.
pub fn cruet_to_kebab_case(acronyms: &AcronymSet, s: Option<&str>) -> (r: Option<String>)
    ensures
        s is None <==> r is None,
        s is Some ==> r->0@ == converted(acronyms.members(), s->0@, CaseStyle::Kebab),
{
    transform_single(acronyms, s, CaseStyle::Kebab)
}

/// `s` in Train case, with the registered acronyms where the style shows them.
pub fn cruet_to_train_case(acronyms: &AcronymSet, s: Option<&str>) -> (r: Option<String>)
    ensures
        s is None <==> r is None,
        s is Some ==> r->0@ == converted(acronyms.members(), s->0@, CaseStyle::Train),
{
    transform_single(acronyms, s, CaseStyle::Train)
}

/// `s` in Sentence case, with the registered acronyms where the style shows them.
pub fn cruet_to_sentence_case(acronyms: &AcronymSet, s: Option<&str>) -> (r: Option<String>)
    ensures
        s is None <==> r is None,
        s is Some ==> r->0@ == converted(acronyms.members(), s->0@, CaseStyle::Sentence),
{
    transform_single(acronyms, s, CaseStyle::Sentence)
}

/// `s` in Title case, with the registered acronyms where the style shows them.
pub fn cruet_to_title_case(acronyms: &AcronymSet, s: Option<&str>) -> (r: Option<String>)
    ensures
        s is None <==> r is None,
        s is Some ==> r->0@ == converted(acronyms.members(), s->0@, CaseStyle::Title),
{
    transform_single(acronyms, s, CaseStyle::Title)
}

/// `1` where `s` is present and a fixed point of `cruet_to_class_case`, else `0`.
pub fn cruet_is_class_case(acronyms: &AcronymSet, s: Option<&str>) -> (r: u8)
    ensures
        r == flag(s is Some && converted(acronyms.members(), s->0@, CaseStyle::Class) == s->0@),
{
    predicate_single(acronyms, s, CaseStyle::Class)
}

/// `1` where `s` is present and a fixed point of `cruet_to_camel_case`, else `0`.
pub fn cruet_is_camel_case(acronyms: &AcronymSet, s: Option<&str>) -> (r: u8)
    ensures
        r == flag(s is Some && converted(acronyms.members(), s->0@, CaseStyle::Camel) == s->0@),
{
    predicate_single(acronyms, s, CaseStyle::Camel)
}

/// `1` where `s` is present and a fixed point of `cruet_to_pascal_case`, else `0`.
pub fn cruet_is_pascal_case(acronyms: &AcronymSet, s: Option<&str>) -> (r: u8)
    ensures
        r == flag(s is Some && converted(acronyms.members(), s->0@, CaseStyle::Pascal) == s->0@),
{
    predicate_single(acronyms, s, CaseStyle::Pascal)
}

/// `1` where `s` is present and a fixed point of `cruet_to_screamingsnake_case`, else `0`.
pub fn cruet_is_screamingsnake_case(acronyms: &AcronymSet, s: Option<&str>) -> (r: u8)
    ensures
        r == flag(s is Some && converted(acronyms.members(), s->0@, CaseStyle::ScreamingSnake) == s->0@),
{
    predicate_single(acronyms, s, CaseStyle::ScreamingSnake)
}

/// `1` where `s` is present and a fixed point of `cruet_to_snake_case`, else `0`.
pub fn cruet_is_snake_case(acronyms: &AcronymSet, s: Option<&str>) -> (r: u8)
    ensures
        r == flag(s is Some && converted(acronyms.members(), s->0@, CaseStyle::Snake) == s->0@),
{
    predicate_single(acronyms, s, CaseStyle::Snake)
}

/// `1` where `s` is present and a fixed point of `cruet_to_kebab_case`, else `0`.
pub fn cruet_is_kebab_case(acronyms: &AcronymSet, s: Option<&str>) -> (r: u8)
    ensures
        r == flag(s is Some && converted(acronyms.members(), s->0@, CaseStyle::Kebab) == s->0@),
{
    predicate_single(acronyms, s, CaseStyle::Kebab)
}

/// `1` where `s` is present and a fixed point of `cruet_to_train_case`, else `0`.
pub fn cruet_is_train_case(acronyms: &AcronymSet, s: Option<&str>) -> (r: u8)
    ensures
        r == flag(s is Some && converted(acronyms.members(), s->0@, CaseStyle::Train) == s->0@),
{
    predicate_single(acronyms, s, CaseStyle::Train)
}

/// `1` where `s` is present and a fixed point of `cruet_to_sentence_case`, else `0`.
pub fn cruet_is_sentence_case(acronyms: &AcronymSet, s: Option<&str>) -> (r: u8)
    ensures
        r == flag(s is Some && converted(acronyms.members(), s->0@, CaseStyle::Sentence) == s->0@),
{
    predicate_single(acronyms, s, CaseStyle::Sentence)
}

/// `1` where `s` is present and a fixed point of `cruet_to_title_case`, else `0`.
pub fn cruet_is_title_case(acronyms: &AcronymSet, s: Option<&str>) -> (r: u8)
    ensures
        r == flag(s is Some && converted(acronyms.members(), s->0@, CaseStyle::Title) == s->0@),
{
    predicate_single(acronyms, s, CaseStyle::Title)
}

/// `s` every character lowercased.
pub fn cruet_to_lower_case(s: Option<&str>) -> (r: Option<String>)
    ensures
        s is None <==> r is None,
        s is Some ==> r->0@ == lower_of(s->0@),
{
    match s {
        None => None,
        Some(x) => Some(to_lower_case(x)),
    }
}

/// `s` every character uppercased.
pub fn cruet_to_upper_case(s: Option<&str>) -> (r: Option<String>)
    ensures
        s is None <==> r is None,
        s is Some ==> r->0@ == upper_of(s->0@),
{
    match s {
        None => None,
        Some(x) => Some(to_upper_case(x)),
    }
}

/// `s` in snake_case and pluralized.
pub fn cruet_to_table_case(s: Option<&str>) -> (r: Option<String>)
    ensures
        s is None <==> r is None,
        s is Some ==> r->0@ == table_of(s->0@),
{
    match s {
        None => None,
        Some(x) => Some(to_table_case(x)),
    }
}

/// `s` in snake_case, ending in `_id`.
pub fn cruet_to_foreign_key(s: Option<&str>) -> (r: Option<String>)
    ensures
        s is None <==> r is None,
        s is Some ==> r->0@ == foreign_key_of(s->0@),
{
    match s {
        None => None,
        Some(x) => Some(to_foreign_key(x)),
    }
}

/// `s` with its ordinal suffix (`1` to `1st`).
pub fn cruet_ordinalize(s: Option<&str>) -> (r: Option<String>)
    ensures
        s is None <==> r is None,
        s is Some ==> r->0@ == ordinal_of(s->0@),
{
    match s {
        None => None,
        Some(x) => Some(ordinal(x)),
    }
}

/// `s` with its ordinal suffix removed.
pub fn cruet_deordinalize(s: Option<&str>) -> (r: Option<String>)
    ensures
        s is None <==> r is None,
        s is Some ==> r->0@ == deordinal_of(s->0@),
{
    match s {
        None => None,
        Some(x) => Some(deordinal(x)),
    }
}

/// `s` without its module path (`Foo::Bar` to `Bar`).
pub fn cruet_demodulize(s: Option<&str>) -> (r: Option<String>)
    ensures
        s is None <==> r is None,
        s is Some ==> r->0@ == demodulized_of(s->0@),
{
    match s {
        None => None,
        Some(x) => Some(demodulized(x)),
    }
}

/// `s` reduced to the module that holds its constant (`Foo::Bar` to `Foo`).
pub fn cruet_deconstantize(s: Option<&str>) -> (r: Option<String>)
    ensures
        s is None <==> r is None,
        s is Some ==> r->0@ == deconstantized_of(s->0@),
{
    match s {
        None => None,
        Some(x) => Some(deconstantized(x)),
    }
}

/// `s` pluralized.
pub fn cruet_to_plural(s: Option<&str>) -> (r: Option<String>)
    ensures
        s is None <==> r is None,
        s is Some ==> r->0@ == plural_of(s->0@),
{
    match s {
        None => None,
        Some(x) => Some(plural(x)),
    }
}

/// `s` singularized.
pub fn cruet_to_singular(s: Option<&str>) -> (r: Option<String>)
    ensures
        s is None <==> r is None,
        s is Some ==> r->0@ == singular_of(s->0@),
{
    match s {
        None => None,
        Some(x) => Some(singular(x)),
    }
}

/// `1` where `s` is present and a fixed point of `cruet_to_table_case`, else `0`.
pub fn cruet_is_table_case(s: Option<&str>) -> (r: u8)
    ensures
        r == flag(s is Some && table_of(s->0@) == s->0@),
{
    match s {
        None => 0,
        Some(x) => if is_table_case(x) {
            1
        } else {
            0
        },
    }
}

/// `1` where `s` is present and a fixed point of `cruet_to_foreign_key`, else `0`.
pub fn cruet_is_foreign_key(s: Option<&str>) -> (r: u8)
    ensures
        r == flag(s is Some && foreign_key_of(s->0@) == s->0@),
{
    match s {
        None => 0,
        Some(x) => if is_foreign_key(x) {
            1
        } else {
            0
        },
    }
}

} // verus!
