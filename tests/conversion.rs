use duckdb_inflector_binding::binding::{
    cruet_deconstantize, cruet_demodulize, cruet_deordinalize, cruet_is_camel_case,
    cruet_is_class_case, cruet_is_foreign_key, cruet_is_kebab_case, cruet_is_pascal_case,
    cruet_is_screamingsnake_case, cruet_is_sentence_case, cruet_is_snake_case,
    cruet_is_table_case, cruet_is_title_case, cruet_is_train_case, cruet_ordinalize,
    cruet_to_camel_case, cruet_to_class_case, cruet_to_foreign_key, cruet_to_kebab_case,
    cruet_to_lower_case, cruet_to_pascal_case, cruet_to_plural, cruet_to_screamingsnake_case,
    cruet_to_sentence_case, cruet_to_singular, cruet_to_snake_case, cruet_to_table_case,
    cruet_to_title_case, cruet_to_train_case, cruet_to_upper_case,
};
use duckdb_inflector_binding::convert::{convert, is_case, render_snake, with_id_suffix};
use duckdb_inflector_binding::{to_lower_case, to_upper_case, AcronymSet, CaseStyle};

fn with_api() -> AcronymSet {
    let mut a = AcronymSet::new();
    a.set_acronyms(Some("API"));
    a
}

fn some(s: &str) -> Option<String> {
    Some(s.to_string())
}

const ALL_STYLES: [CaseStyle; 11] = [
    CaseStyle::Class,
    CaseStyle::Camel,
    CaseStyle::Pascal,
    CaseStyle::ScreamingSnake,
    CaseStyle::Snake,
    CaseStyle::Kebab,
    CaseStyle::Train,
    CaseStyle::Sentence,
    CaseStyle::Title,
    CaseStyle::Lower,
    CaseStyle::Upper,
];

#[test]
fn acronym_pascal_case() {
    let a = with_api();
    assert_eq!(cruet_to_pascal_case(&a, Some("api_response")), some("APIResponse"));
}

#[test]
fn acronym_camel_case() {
    let a = with_api();
    assert_eq!(cruet_to_camel_case(&a, Some("user_api_token")), some("userAPIToken"));
}

#[test]
fn acronym_title_case() {
    let a = with_api();
    assert_eq!(cruet_to_title_case(&a, Some("api_response")), some("API Response"));
}

#[test]
fn acronym_camel_first_word_stays_lower() {
    let a = with_api();
    assert_eq!(cruet_to_camel_case(&a, Some("api_response")), some("apiResponse"));
}

#[test]
fn acronym_train_case() {
    let a = with_api();
    assert_eq!(cruet_to_train_case(&a, Some("api_response")), some("API-Response"));
}

#[test]
fn acronym_sentence_case() {
    let a = with_api();
    assert_eq!(cruet_to_sentence_case(&a, Some("api_response")), some("API response"));
    assert_eq!(cruet_to_sentence_case(&a, Some("user_api_token")), some("User API token"));
}

#[test]
fn acronym_from_pascal_input() {
    let a = with_api();
    assert_eq!(cruet_to_title_case(&a, Some("ApiResponse")), some("API Response"));
}

#[test]
fn single_letter_word_uses_default_capitalization() {
    let a = with_api();
    assert_eq!(cruet_to_pascal_case(&a, Some("a_api")), some("AAPI"));
}

#[test]
fn cleared_registry_restores_default() {
    let mut a = with_api();
    a.clear_acronyms();
    assert_eq!(cruet_to_pascal_case(&a, Some("api_response")), some("ApiResponse"));
    assert_eq!(cruet_to_camel_case(&a, Some("user_api_token")), some("userApiToken"));
    assert_eq!(cruet_to_title_case(&a, Some("api_response")), some("Api Response"));
}

#[test]
fn default_conversions() {
    let a = AcronymSet::new();
    assert_eq!(cruet_to_class_case(&a, Some("foo_bars")), some("FooBar"));
    assert_eq!(cruet_to_camel_case(&a, Some("foo_bar")), some("fooBar"));
    assert_eq!(cruet_to_pascal_case(&a, Some("foo_bar")), some("FooBar"));
    assert_eq!(cruet_to_screamingsnake_case(&a, Some("fooBar")), some("FOO_BAR"));
    assert_eq!(cruet_to_snake_case(&a, Some("FooBar")), some("foo_bar"));
    assert_eq!(cruet_to_kebab_case(&a, Some("FooBar")), some("foo-bar"));
    assert_eq!(cruet_to_train_case(&a, Some("foo_bar")), some("Foo-Bar"));
    assert_eq!(cruet_to_sentence_case(&a, Some("foo_bar")), some("Foo bar"));
    assert_eq!(cruet_to_title_case(&a, Some("foo_bar")), some("Foo Bar"));
}

#[test]
fn insensitive_styles_ignore_registry() {
    let empty = AcronymSet::new();
    let a = with_api();
    let styles = [
        CaseStyle::Class,
        CaseStyle::ScreamingSnake,
        CaseStyle::Snake,
        CaseStyle::Kebab,
        CaseStyle::Lower,
        CaseStyle::Upper,
    ];
    for style in styles {
        for x in ["api_response", "ApiResponse", "userAPIToken", "api-url"] {
            assert_eq!(convert(&empty, x, style), convert(&a, x, style));
        }
    }
}

#[test]
fn conversion_is_a_fixed_point_of_its_predicate() {
    for registry in [AcronymSet::new(), with_api()] {
        for style in ALL_STYLES {
            for x in ["api_response", "FooBar", "user_api_token", "hello world"] {
                let y = convert(&registry, x, style);
                assert!(is_case(&registry, &y, style), "{:?} {} {}", style, x, y);
            }
        }
    }
}

#[test]
fn predicates_on_rendered_values() {
    let a = with_api();
    let y = cruet_to_pascal_case(&a, Some("api_response")).unwrap();
    assert_eq!(cruet_is_pascal_case(&a, Some(&y)), 1);
    let y = cruet_to_camel_case(&a, Some("user_api_token")).unwrap();
    assert_eq!(cruet_is_camel_case(&a, Some(&y)), 1);
    let y = cruet_to_title_case(&a, Some("api_response")).unwrap();
    assert_eq!(cruet_is_title_case(&a, Some(&y)), 1);
}

#[test]
fn predicates_reject_other_styles() {
    let a = AcronymSet::new();
    assert_eq!(cruet_is_snake_case(&a, Some("FooBar")), 0);
    assert_eq!(cruet_is_snake_case(&a, Some("foo_bar")), 1);
    assert_eq!(cruet_is_kebab_case(&a, Some("foo_bar")), 0);
    assert_eq!(cruet_is_kebab_case(&a, Some("foo-bar")), 1);
    assert_eq!(cruet_is_screamingsnake_case(&a, Some("FOO_BAR")), 1);
    assert_eq!(cruet_is_class_case(&a, Some("FooBars")), 0);
    assert_eq!(cruet_is_class_case(&a, Some("FooBar")), 1);
    assert_eq!(cruet_is_train_case(&a, Some("Foo-Bar")), 1);
    assert_eq!(cruet_is_sentence_case(&a, Some("Foo bar")), 1);
    assert_eq!(cruet_is_pascal_case(&a, Some("fooBar")), 0);
    assert_eq!(cruet_is_camel_case(&a, Some("fooBar")), 1);
    assert_eq!(cruet_is_title_case(&a, Some("foo bar")), 0);
}

#[test]
fn foreign_key_appends_suffix_once() {
    assert_eq!(cruet_to_foreign_key(Some("post")), some("post_id"));
    assert_eq!(cruet_to_foreign_key(Some("post_id")), some("post_id"));
    assert_eq!(cruet_to_foreign_key(Some("BlogPost")), some("blog_post_id"));
    assert_eq!(cruet_is_foreign_key(Some("post_id")), 1);
    assert_eq!(cruet_is_foreign_key(Some("post")), 0);
}

#[test]
fn foreign_key_of_empty_input() {
    assert_eq!(cruet_to_foreign_key(Some("")), some("_id"));
}

#[test]
fn table_case_pluralizes_snake_form() {
    assert_eq!(cruet_to_table_case(Some("Person")), some("people"));
    assert_eq!(cruet_to_table_case(Some("BlogPost")), some("blog_posts"));
    assert_eq!(cruet_is_table_case(Some("people")), 1);
    assert_eq!(cruet_is_table_case(Some("Person")), 0);
}

#[test]
fn inflection_utilities() {
    assert_eq!(cruet_ordinalize(Some("1")), some("1st"));
    assert_eq!(cruet_ordinalize(Some("12")), some("12th"));
    assert_eq!(cruet_deordinalize(Some("23rd")), some("23"));
    assert_eq!(cruet_demodulize(Some("Foo::Bar")), some("Bar"));
    assert_eq!(cruet_deconstantize(Some("Foo::Bar")), some("Foo"));
    assert_eq!(cruet_to_plural(Some("post")), some("posts"));
    assert_eq!(cruet_to_singular(Some("posts")), some("post"));
}

#[test]
fn lower_and_upper_case() {
    assert_eq!(to_lower_case("FooBAR"), "foobar");
    assert_eq!(to_upper_case("fooBar"), "FOOBAR");
    assert_eq!(cruet_to_lower_case(Some("ApiResponse")), some("apiresponse"));
    assert_eq!(cruet_to_upper_case(Some("ApiResponse")), some("APIRESPONSE"));
}

#[test]
fn absent_input_gives_absent_result() {
    let a = with_api();
    assert_eq!(cruet_to_class_case(&a, None), None);
    assert_eq!(cruet_to_camel_case(&a, None), None);
    assert_eq!(cruet_to_pascal_case(&a, None), None);
    assert_eq!(cruet_to_screamingsnake_case(&a, None), None);
    assert_eq!(cruet_to_snake_case(&a, None), None);
    assert_eq!(cruet_to_kebab_case(&a, None), None);
    assert_eq!(cruet_to_train_case(&a, None), None);
    assert_eq!(cruet_to_sentence_case(&a, None), None);
    assert_eq!(cruet_to_title_case(&a, None), None);
    assert_eq!(cruet_to_lower_case(None), None);
    assert_eq!(cruet_to_upper_case(None), None);
    assert_eq!(cruet_to_table_case(None), None);
    assert_eq!(cruet_ordinalize(None), None);
    assert_eq!(cruet_deordinalize(None), None);
    assert_eq!(cruet_to_foreign_key(None), None);
    assert_eq!(cruet_demodulize(None), None);
    assert_eq!(cruet_deconstantize(None), None);
    assert_eq!(cruet_to_plural(None), None);
    assert_eq!(cruet_to_singular(None), None);
}

#[test]
fn absent_input_fails_every_predicate() {
    let a = with_api();
    assert_eq!(cruet_is_class_case(&a, None), 0);
    assert_eq!(cruet_is_camel_case(&a, None), 0);
    assert_eq!(cruet_is_pascal_case(&a, None), 0);
    assert_eq!(cruet_is_screamingsnake_case(&a, None), 0);
    assert_eq!(cruet_is_snake_case(&a, None), 0);
    assert_eq!(cruet_is_kebab_case(&a, None), 0);
    assert_eq!(cruet_is_train_case(&a, None), 0);
    assert_eq!(cruet_is_sentence_case(&a, None), 0);
    assert_eq!(cruet_is_title_case(&a, None), 0);
    assert_eq!(cruet_is_table_case(None), 0);
    assert_eq!(cruet_is_foreign_key(None), 0);
}

#[test]
fn id_suffix_added_only_where_missing() {
    assert_eq!(with_id_suffix("post"), "post_id");
    assert_eq!(with_id_suffix("post_id"), "post_id");
    assert_eq!(with_id_suffix(""), "_id");
    assert_eq!(with_id_suffix("id"), "id_id");
    assert_eq!(with_id_suffix("valid"), "valid_id");
}

#[test]
fn render_snake_words() {
    let a = with_api();
    let empty = AcronymSet::new();
    assert_eq!(render_snake(&a, "api_response", CaseStyle::Pascal), "APIResponse");
    assert_eq!(render_snake(&empty, "api_response", CaseStyle::Pascal), "ApiResponse");
    assert_eq!(render_snake(&a, "user_api_token", CaseStyle::Sentence), "User API token");
    assert_eq!(render_snake(&a, "user_api_token", CaseStyle::Camel), "userAPIToken");
    assert_eq!(render_snake(&a, "a__b", CaseStyle::Title), "A  B");
    assert_eq!(render_snake(&a, "", CaseStyle::Train), "");
}
