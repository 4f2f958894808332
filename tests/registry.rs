use duckdb_inflector_binding::AcronymSet;

fn registry(csv: &str) -> AcronymSet {
    let mut a = AcronymSet::new();
    a.set_acronyms(Some(csv));
    a
}

#[test]
fn acronyms_trimmed_uppercased_deduplicated_sorted() {
    assert_eq!(registry("api, url, API").get_acronyms(), "API,URL");
}

#[test]
fn single_character_acronym_dropped() {
    assert_eq!(registry("a,bb").get_acronyms(), "BB");
}

#[test]
fn acronyms_listed_in_ascending_order() {
    assert_eq!(registry("url,api,abc").get_acronyms(), "ABC,API,URL");
}

#[test]
fn acronym_prefix_sorts_first() {
    assert_eq!(registry("apis,api").get_acronyms(), "API,APIS");
}

#[test]
fn new_registry_is_empty() {
    let a = AcronymSet::new();
    assert!(a.is_empty());
    assert_eq!(a.get_acronyms(), "");
}

#[test]
fn empty_configuration_gives_empty_registry() {
    let a = registry("");
    assert!(a.is_empty());
    assert_eq!(a.get_acronyms(), "");
}

#[test]
fn blank_tokens_are_dropped() {
    assert_eq!(registry(" , ,  http  ,").get_acronyms(), "HTTP");
}

#[test]
fn absent_configuration_changes_nothing() {
    let mut a = registry("api");
    a.set_acronyms(None);
    assert_eq!(a.get_acronyms(), "API");
}

#[test]
fn setting_replaces_the_whole_registry() {
    let mut a = registry("api,url");
    a.set_acronyms(Some("http"));
    assert_eq!(a.get_acronyms(), "HTTP");
}

#[test]
fn clear_empties_the_registry() {
    let mut a = registry("api,url");
    a.clear_acronyms();
    assert!(a.is_empty());
    assert_eq!(a.get_acronyms(), "");
}

#[test]
fn contains_compares_exactly() {
    let a = registry("api");
    assert!(a.contains("API"));
    assert!(!a.contains("api"));
    assert!(!a.contains("AP"));
}
