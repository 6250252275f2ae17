use translation_store::record::LanguageTranslation;
use translation_store::shared::{read_with, write_with, NoAccess, SharedStore, WriteOutcome};
use translation_store::store::TranslationStore;

fn record(language: &str, asset: &str, text: &str) -> LanguageTranslation {
    LanguageTranslation::new(language.to_string(), asset.to_string(), text.to_string())
}

#[test]
fn write_with_access_publishes() {
    let mut store = TranslationStore::new();
    let outcome = write_with(Some(&mut store), vec![record("en", "GAME_MAIN_MENU", "Play")]);
    assert_eq!(outcome, WriteOutcome::Published);
    assert_eq!(store.read("GAME_MAIN_MENU").translation(), "Play");
}

#[test]
fn write_without_access_is_contended() {
    let outcome = write_with(None, vec![record("en", "GAME_MAIN_MENU", "Play")]);
    assert_eq!(outcome, WriteOutcome::Contended);
}

#[test]
fn new_shared_store_holds_nothing() {
    let shared = SharedStore::new();
    assert_eq!(shared.read("GAME_MAIN_MENU"), Ok(None));
    assert!(shared.read_access().expect("nobody holds the store").store().lookup("GAME_MAIN_MENU").is_none());
}

#[test]
fn write_on_a_free_store_is_published() {
    let shared = SharedStore::new();
    assert_eq!(shared.write(vec![record("en", "GAME_MAIN_MENU", "Play")]), WriteOutcome::Published);
    assert_eq!(shared.read("GAME_MAIN_MENU"), Ok(Some(record("en", "GAME_MAIN_MENU", "Play"))));
}

#[test]
fn write_under_a_read_hold_is_contended_and_applies_nothing() {
    let shared = SharedStore::new();
    assert_eq!(shared.write(vec![record("en", "GAME_MAIN_MENU", "Play")]), WriteOutcome::Published);
    let hold = shared.read_access().expect("nobody holds the store");
    let outcome = shared.write(vec![
        record("en", "GAME_QUIT", "Quit"),
        record("fr", "GAME_MAIN_MENU", "Jouer"),
    ]);
    assert_eq!(outcome, WriteOutcome::Contended);
    assert!(hold.store().lookup("GAME_QUIT").is_none());
    assert_eq!(hold.store().read("GAME_MAIN_MENU").translation(), "Play");
    drop(hold);
    assert_eq!(shared.read("GAME_QUIT"), Ok(None));
    assert_eq!(shared.read("GAME_MAIN_MENU"), Ok(Some(record("en", "GAME_MAIN_MENU", "Play"))));
}

#[test]
fn write_goes_through_once_the_hold_is_released() {
    let shared = SharedStore::new();
    let hold = shared.read_access().expect("nobody holds the store");
    assert_eq!(shared.write(vec![record("en", "GAME_MAIN_MENU", "Play")]), WriteOutcome::Contended);
    drop(hold);
    assert_eq!(shared.write(vec![record("en", "GAME_MAIN_MENU", "Play")]), WriteOutcome::Published);
    assert_eq!(shared.read("GAME_MAIN_MENU"), Ok(Some(record("en", "GAME_MAIN_MENU", "Play"))));
}

#[test]
fn read_hands_out_a_copy() {
    let shared = SharedStore::new();
    shared.write(vec![record("en", "GAME_MAIN_MENU", "Play")]);
    let copy = shared.read("GAME_MAIN_MENU").expect("nobody holds the store").expect("the entry was published");
    assert_eq!(shared.write(vec![record("fr", "GAME_MAIN_MENU", "Jouer")]), WriteOutcome::Published);
    assert_eq!(copy.translation(), "Play");
    assert_eq!(shared.read("GAME_MAIN_MENU"), Ok(Some(record("fr", "GAME_MAIN_MENU", "Jouer"))));
}

#[test]
fn read_with_access_copies_the_record_under_the_key() {
    let shared = SharedStore::new();
    shared.write(vec![record("en", "GAME_MAIN_MENU", "Play"), record("en", "GAME_QUIT", "Quit")]);
    let access = shared.read_access().expect("nobody holds the store");
    assert_eq!(read_with(&access, "GAME_MAIN_MENU"), Some(record("en", "GAME_MAIN_MENU", "Play")));
    assert_eq!(read_with(&access, "GAME_QUIT"), Some(record("en", "GAME_QUIT", "Quit")));
}

#[test]
fn read_with_access_finds_nothing_under_a_missing_key() {
    let shared = SharedStore::new();
    shared.write(vec![record("en", "GAME_MAIN_MENU", "Play")]);
    let access = shared.read_access().expect("nobody holds the store");
    assert_eq!(read_with(&access, "GAME_QUIT"), None);
}

#[test]
fn one_access_shows_one_store() {
    let shared = SharedStore::new();
    shared.write(vec![record("en", "GAME_MAIN_MENU", "Play")]);
    let access = shared.read_access().expect("nobody holds the store");
    let first = access.store().read("GAME_MAIN_MENU").clone();
    assert_eq!(shared.write(vec![record("fr", "GAME_MAIN_MENU", "Jouer")]), WriteOutcome::Contended);
    let second = access.store().read("GAME_MAIN_MENU").clone();
    assert_eq!(first, second);
    assert_eq!(read_with(&access, "GAME_MAIN_MENU"), Some(first));
}

#[test]
fn read_while_another_reader_holds_the_store_does_not_wait() {
    let shared = SharedStore::new();
    shared.write(vec![record("en", "GAME_MAIN_MENU", "Play")]);
    let hold = shared.read_access().expect("nobody holds the store");
    match shared.read("GAME_MAIN_MENU") {
        Ok(found) => assert_eq!(found, Some(record("en", "GAME_MAIN_MENU", "Play"))),
        Err(refusal) => assert_eq!(refusal, NoAccess::Held),
    }
    assert_eq!(hold.store().read("GAME_MAIN_MENU").translation(), "Play");
}
