//! What the presentation layer shows: the text filed under the menu's asset name.

use vstd::prelude::*;

use crate::store::TranslationStore;

verus! {

/// The asset name whose translation the menu shows.
pub const MENU_ASSET_NAME: &'static str = "GAME_MAIN_MENU";

/// The text to show: the translation filed under the menu's asset name, if
/// the store holds one.
pub fn menu_text(store: &TranslationStore) -> (text: Option<&str>)
    ensures
        match text {
            Some(shown) => store@.contains_key(MENU_ASSET_NAME@) && shown@
                == store@[MENU_ASSET_NAME@].translation,
            None => !store@.contains_key(MENU_ASSET_NAME@),
        },
{
    match store.lookup(MENU_ASSET_NAME) {
        Some(record) => Some(record.translation()),
        None => None,
    }
}

/// Overwrites `shown` with the menu's translation, whether or not it differs.
/// A store without the menu's asset name leaves `shown` as it was.
pub fn refresh_text(shown: &mut String, store: &TranslationStore)
    ensures
        final(shown)@ == (if store@.contains_key(MENU_ASSET_NAME@) {
            store@[MENU_ASSET_NAME@].translation
        } else {
            old(shown)@
        }),
{
    match menu_text(store) {
        Some(text) => {
            *shown = text.to_owned();
        },
        None => {},
    }
}

} // verus!
