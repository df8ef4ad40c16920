use fexc::i18n::I18n;
use fexc::i18n::Language;

fn sample_table() -> I18n {
    let mut table = I18n::new();
    table.insert(Language::English, "quit".to_owned(), "Quit".to_owned());
    table.insert(Language::Ukrainian, "quit".to_owned(), "Вийти".to_owned());
    table.insert(Language::English, "empty_project".to_owned(), "No project".to_owned());
    table
}

#[test]
fn empty_table_has_no_translations() {
    let table = I18n::new();
    assert_eq!(table.get(&Language::English, "quit"), None);
}

#[test]
fn get_finds_the_entry_for_the_language() {
    let table = sample_table();
    assert_eq!(table.get(&Language::English, "quit"), Some("Quit"));
    assert_eq!(table.get(&Language::Ukrainian, "quit"), Some("Вийти"));
}

#[test]
fn missing_key_or_language_is_none() {
    let table = sample_table();
    assert_eq!(table.get(&Language::English, "open"), None);
    assert_eq!(table.get(&Language::Ukrainian, "empty_project"), None);
}

#[test]
fn first_entry_wins_over_a_duplicate() {
    let mut table = sample_table();
    table.insert(Language::English, "quit".to_owned(), "Leave".to_owned());
    assert_eq!(table.get(&Language::English, "quit"), Some("Quit"));
}

#[test]
fn default_table_is_empty() {
    let table = I18n::default();
    assert_eq!(table.get(&Language::Ukrainian, "quit"), None);
}
