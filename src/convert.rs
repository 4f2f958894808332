//! The acronym-aware case converter, the predicates derived from it, and the
//! foreign-key and table-name transforms.
use vstd::prelude::*;
use crate::acronyms::AcronymSet;
use crate::inflect::{
    snake_of, camel_of, pascal_of, class_of, screaming_snake_of, kebab_of, train_of, sentence_of,
    title_of, lower_of, upper_of, plural_of, snake_case, camel_case, pascal_case, class_case,
    screaming_snake_case, kebab_case, train_case, sentence_case, title_case, lowercase, uppercase,
    plural,
};
use crate::text::{split_on, join_with, ends_with, split_chars, join_strings};

verus! {

/// A naming convention: how words are separated and capitalized.
#[derive(Clone, Copy, PartialEq, Eq, Debug)]
pub enum CaseStyle {
    /// `FooBar`, with the last word singular.
    Class,
    /// `fooBar`.
    Camel,
    /// `FooBar`.
    Pascal,
    /// `FOO_BAR`.
    ScreamingSnake,
    /// `foo_bar`.
    Snake,
    /// `foo-bar`.
    Kebab,
    /// `Foo-Bar`.
    Train,
    /// `Foo bar`.
    Sentence,
    /// `Foo Bar`.
    Title,
    /// Every character lowercased.
    Lower,
    /// Every character uppercased.
    Upper,
}

impl CaseStyle {
    /// Styles that keep word boundaries and capitalization distinctions, where
    /// a registered acronym changes the output.
    pub open spec fn acronym_aware(self) -> bool {
        match self {
            CaseStyle::Pascal | CaseStyle::Camel | CaseStyle::Title | CaseStyle::Train
            | CaseStyle::Sentence => true,
            _ => false,
        }
    }

    /// Decides `acronym_aware`.
    pub fn is_acronym_aware(&self) -> (r: bool)
        ensures
            r == self.acronym_aware(),
    {
        match self {
            CaseStyle::Pascal | CaseStyle::Camel | CaseStyle::Title | CaseStyle::Train
            | CaseStyle::Sentence => true,
            _ => false,
        }
    }
}

/// The outside library's own rendering of `x` in `style`.
pub open spec fn plain_of(style: CaseStyle, x: Seq<char>) -> Seq<char> {
    match style {
        CaseStyle::Class => class_of(x),
        CaseStyle::Camel => camel_of(x),
        CaseStyle::Pascal => pascal_of(x),
        CaseStyle::ScreamingSnake => screaming_snake_of(x),
        CaseStyle::Snake => snake_of(x),
        CaseStyle::Kebab => kebab_of(x),
        CaseStyle::Train => train_of(x),
        CaseStyle::Sentence => sentence_of(x),
        CaseStyle::Title => title_of(x),
        CaseStyle::Lower => lower_of(x),
        CaseStyle::Upper => upper_of(x),
    }
}

/// What stands between two words in `style`.
pub open spec fn sep_of(style: CaseStyle) -> Seq<char> {
    match style {
        CaseStyle::Title | CaseStyle::Sentence => seq![' '],
        CaseStyle::Train => seq!['-'],
        _ => Seq::<char>::empty(),
    }
}

/// The first character uppercased, the rest as it is.
pub open spec fn capitalized(t: Seq<char>) -> Seq<char> {
    if t.len() == 0 {
        t
    } else {
        upper_of(t.take(1)) + t.skip(1)
    }
}

/// How the word `t` at position `i` is written in an acronym-aware `style`.
pub open spec fn render_word(acr: Set<Seq<char>>, t: Seq<char>, i: int, style: CaseStyle) -> Seq<
    char,
> {
    let up = upper_of(t);
    match style {
        CaseStyle::Camel => if i == 0 {
            lower_of(t)
        } else if acr.contains(up) {
            up
        } else {
            capitalized(t)
        },
        CaseStyle::Sentence => if acr.contains(up) {
            up
        } else if i == 0 {
            capitalized(t)
        } else {
            lower_of(t)
        },
        _ => if acr.contains(up) {
            up
        } else {
            capitalized(t)
        },
    }
}

/// Each word rendered at its position.
pub open spec fn rendered(acr: Set<Seq<char>>, words: Seq<Seq<char>>, style: CaseStyle) -> Seq<
    Seq<char>,
> {
    Seq::new(words.len(), |i: int| render_word(acr, words[i], i, style))
}

/// The words of `x`: its snake_case form split at underscores.
pub open spec fn words_of(x: Seq<char>) -> Seq<Seq<char>> {
    split_on(snake_of(x), '_')
}

/// `x` in `style` with the acronyms `acr` registered: the outside library's
/// rendering where no acronym is registered or the style cannot show one,
/// else each word rendered and joined with the style's separator.
pub open spec fn converted(acr: Set<Seq<char>>, x: Seq<char>, style: CaseStyle) -> Seq<char> {
    if acr == Set::<Seq<char>>::empty() || !style.acronym_aware() {
        plain_of(style, x)
    } else {
        join_with(rendered(acr, words_of(x), style), sep_of(style))
    }
}

/// `x` in snake_case with `_id` at its end, added only where missing.
pub open spec fn foreign_key_of(x: Seq<char>) -> Seq<char> {
    id_suffixed(snake_of(x))
}

/// `x` in snake_case, pluralized.
pub open spec fn table_of(x: Seq<char>) -> Seq<char> {
    plural_of(snake_of(x))
}

fn plain(input: &str, style: CaseStyle) -> (r: String)
    ensures
        r@ == plain_of(style, input@),
{
    match style {
        CaseStyle::Class => class_case(input),
        CaseStyle::Camel => camel_case(input),
        CaseStyle::Pascal => pascal_case(input),
        CaseStyle::ScreamingSnake => screaming_snake_case(input),
        CaseStyle::Snake => snake_case(input),
        CaseStyle::Kebab => kebab_case(input),
        CaseStyle::Train => train_case(input),
        CaseStyle::Sentence => sentence_case(input),
        CaseStyle::Title => title_case(input),
        CaseStyle::Lower => lowercase(input),
        CaseStyle::Upper => uppercase(input),
    }
}

fn separator(style: CaseStyle) -> (r: &'static str)
    ensures
        r@ == sep_of(style),
{
    proof {
        reveal_strlit(" ");
        reveal_strlit("-");
        reveal_strlit("");
        assert(" "@ =~= seq![' ']);
        assert("-"@ =~= seq!['-']);
        assert(""@ =~= Seq::<char>::empty());
    }
    match style {
        CaseStyle::Title | CaseStyle::Sentence => " ",
        CaseStyle::Train => "-",
        _ => "",
    }
}

fn capitalize(t: &str) -> (r: String)
    ensures
        r@ == capitalized(t@),
{
    let n = t.unicode_len();
    if n == 0 {
        let r = String::from_str(t);
        return r;
    }
    let mut r = uppercase(t.substring_char(0, 1));
    r.append(t.substring_char(1, n));
    proof {
        assert(t@.subrange(0, 1) =~= t@.take(1));
        assert(t@.subrange(1, n as int) =~= t@.skip(1));
    }
    r
}

fn render(acronyms: &AcronymSet, t: &str, i: usize, style: CaseStyle) -> (r: String)
    ensures
        r@ == render_word(acronyms.members(), t@, i as int, style),
{
    let up = uppercase(t);
    let known = acronyms.contains(up.as_str());
    match style {
        CaseStyle::Camel => if i == 0 {
            lowercase(t)
        } else if known {
            up
        } else {
            capitalize(t)
        },
        CaseStyle::Sentence => if known {
            up
        } else if i == 0 {
            capitalize(t)
        } else {
            lowercase(t)
        },
        _ => if known {
            up
        } else {
            capitalize(t)
        },
    }
}

/// Renders `input` in `style`. With no acronym registered, or in a style that
/// cannot show one, this is the outside library's conversion; otherwise the
/// words of `input` are rendered one by one, a registered acronym in full
/// uppercase, and joined with the style's separator.
pub fn convert(acronyms: &AcronymSet, input: &str, style: CaseStyle) -> (r: String)
    ensures
        r@ == converted(acronyms.members(), input@, style),
{
    let empty = acronyms.is_empty();
    proof {
        if empty {
            assert(acronyms.members() =~= Set::<Seq<char>>::empty());
        } else {
            assert(acronyms.members().contains(acronyms@[0]));
        }
    }
    if empty || !style.is_acronym_aware() {
        return plain(input, style);
    }
    let snake = snake_case(input);
    render_snake(acronyms, snake.as_str(), style)
}

/// Renders the words of the snake_case string `snake` in `style`, one by
/// one: a registered acronym in full uppercase, any other word by the style's
/// own rule, joined with the style's separator.
pub fn render_snake(acronyms: &AcronymSet, snake: &str, style: CaseStyle) -> (r: String)
    ensures
        r@ == join_with(rendered(acronyms.members(), split_on(snake@, '_'), style), sep_of(style)),
{
    let words = split_chars(snake, '_');
    let ghost target = rendered(acronyms.members(), split_on(snake@, '_'), style);
    let mut parts: Vec<String> = Vec::new();
    let mut i: usize = 0;
    while i < words.len()
        invariant
            i <= words@.len(),
            words@.map_values(|p: String| p@) == split_on(snake@, '_'),
            target == rendered(acronyms.members(), split_on(snake@, '_'), style),
            parts@.len() == i,
            forall|k: int| 0 <= k < i ==> (#[trigger] parts@[k])@ == target[k],
        decreases words@.len() - i,
    {
        let part = render(acronyms, words[i].as_str(), i, style);
        parts.push(part);
        i = i + 1;
    }
    proof {
        assert(parts@.map_values(|p: String| p@) =~= target);
    }
    join_strings(&parts, separator(style))
}

/// `input` is already written in `style`: converting it changes nothing.
pub fn is_case(acronyms: &AcronymSet, input: &str, style: CaseStyle) -> (r: bool)
    ensures
        r == (converted(acronyms.members(), input@, style) == input@),
{
    let c = convert(acronyms, input, style);
    let given = String::from_str(input);
    c == given
}

/// `s` with `_id` at its end, added only where missing.
pub open spec fn id_suffixed(s: Seq<char>) -> Seq<char> {
    if ends_with(s, seq!['_', 'i', 'd']) {
        s
    } else {
        s + seq!['_', 'i', 'd']
    }
}

/// `snake` with `_id` appended unless it already ends with it.
pub fn with_id_suffix(snake: &str) -> (r: String)
    ensures
        r@ == id_suffixed(snake@),
        ends_with(r@, seq!['_', 'i', 'd']),
{
    let mut s = String::from_str(snake);
    let n = snake.unicode_len();
    let ghost suffix = seq!['_', 'i', 'd'];
    if n >= 3 && snake.get_char(n - 3) == '_' && snake.get_char(n - 2) == 'i' && snake.get_char(
        n - 1,
    ) == 'd' {
        proof {
            assert(s@.subrange(n - 3, n as int) =~= suffix);
        }
        return s;
    }
    proof {
        if ends_with(s@, suffix) {
            assert(s@.subrange(n - 3, n as int)[0] == '_');
            assert(s@.subrange(n - 3, n as int)[1] == 'i');
            assert(s@.subrange(n - 3, n as int)[2] == 'd');
        }
        reveal_strlit("_id");
        assert("_id"@ =~= suffix);
    }
    let ghost before = s@;
    s.append("_id");
    proof {
        assert(s@.subrange(s@.len() - 3, s@.len() as int) =~= suffix);
        assert(s@ == before + suffix);
    }
    s
}

/// `input` in snake_case, ending in `_id`.
pub fn to_foreign_key(input: &str) -> (r: String)
    ensures
        r@ == foreign_key_of(input@),
        ends_with(r@, seq!['_', 'i', 'd']),
{
    let s = snake_case(input);
    with_id_suffix(s.as_str())
}

/// `input` is its own foreign key form.
pub fn is_foreign_key(input: &str) -> (r: bool)
    ensures
        r == (foreign_key_of(input@) == input@),
{
    let c = to_foreign_key(input);
    let given = String::from_str(input);
    c == given
}

/// `input` in snake_case, pluralized: the name of a table of such records.
pub fn to_table_case(input: &str) -> (r: String)
    ensures
        r@ == table_of(input@),
{
    let s = snake_case(input);
    plural(s.as_str())
}

/// `input` is its own table name form.
pub fn is_table_case(input: &str) -> (r: bool)
    ensures
        r == (table_of(input@) == input@),
{
    let c = to_table_case(input);
    let given = String::from_str(input);
    c == given
}

/// In a style that cannot show an acronym, the registry's content makes no
/// difference to the result.
pub proof fn law_registry_irrelevant(
    a: Set<Seq<char>>,
    b: Set<Seq<char>>,
    x: Seq<char>,
    style: CaseStyle,
)
    requires
        !style.acronym_aware(),
    ensures
        converted(a, x, style) == converted(b, x, style),
{
}

/// With the registry empty, as `clear_acronyms` leaves it, every style is
/// the outside library's own conversion.
pub proof fn law_empty_registry_is_default(acronyms: AcronymSet, x: Seq<char>, style: CaseStyle)
    requires
        acronyms@ == Seq::<Seq<char>>::empty(),
    ensures
        converted(acronyms.members(), x, style) == plain_of(style, x),
{
    assert(acronyms.members() =~= Set::<Seq<char>>::empty());
}

} // verus!
