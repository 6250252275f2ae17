//! The translation record: one asset's text in one language.

use vstd::prelude::*;

verus! {

/// The text that a record holds, field by field.
pub struct RecordView {
    pub language_name: Seq<char>,
    pub asset_name: Seq<char>,
    pub translation: Seq<char>,
}

/// The contents of a store that holds nothing.
pub open spec fn no_records() -> Map<Seq<char>, RecordView> {
    Map::empty()
}

/// One translation of one asset into one language. A store files it under
/// its asset name. Once built, a record does not change.
#[derive(Debug, PartialEq, Eq)]
pub struct LanguageTranslation {
    language_name: String,
    asset_name: String,
    translation: String,
}

impl View for LanguageTranslation {
    type V = RecordView;

    closed spec fn view(&self) -> RecordView {
        RecordView {
            language_name: self.language_name@,
            asset_name: self.asset_name@,
            translation: self.translation@,
        }
    }
}

impl LanguageTranslation {
    /// Builds a record from its three fields, in the order in which a row gives them.
    pub fn new(language_name: String, asset_name: String, translation: String) -> (record: Self)
        ensures
            record@.language_name == language_name@,
            record@.asset_name == asset_name@,
            record@.translation == translation@,
    {
        LanguageTranslation { language_name, asset_name, translation }
    }

    /// The language of the translation.
    pub fn language_name(&self) -> (name: &str)
        ensures
            name@ == self@.language_name,
    {
        self.language_name.as_str()
    }

    /// The asset that is translated: the name under which a store files the record.
    pub fn asset_name(&self) -> (name: &str)
        ensures
            name@ == self@.asset_name,
    {
        self.asset_name.as_str()
    }

    /// The translated text.
    pub fn translation(&self) -> (text: &str)
        ensures
            text@ == self@.translation,
    {
        self.translation.as_str()
    }
}

impl Clone for LanguageTranslation {
    /// A second record with the same text in every field.
    fn clone(&self) -> (copy: Self)
        ensures
            copy == *self,
    {
        LanguageTranslation {
            language_name: self.language_name.clone(),
            asset_name: self.asset_name.clone(),
            translation: self.translation.clone(),
        }
    }
}

} // verus!
