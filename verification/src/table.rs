//! The hash table under the store: `hashbrown`'s `HashMap`, as `bevy::utils` hands it on.
//!
//! Nothing in this file is proved. Each contract restates what the table's own
//! documentation promises, over the text of the keys and records.

use bevy::utils::hashbrown::HashMap;
use vstd::prelude::*;

use crate::record::{no_records, LanguageTranslation, RecordView};

verus! {

/// A `HashMap` from an owned key to the record filed under it.
///
/// The map stays behind this struct because its type cannot be declared to
/// the verifier from here: its allocator parameter is bound by a trait that
/// neither `bevy` nor `hashbrown` lets this crate name.
#[verifier::external_body]
#[derive(Debug)]
pub struct RecordTable {
    inner: HashMap<String, LanguageTranslation>,
}

/// What a table holds: for each key, by its text, the text of the record under it.
pub uninterp spec fn table_contents(table: RecordTable) -> Map<Seq<char>, RecordView>;

impl RecordTable {
    /// `HashMap::new`: a new table holds nothing.
    #[verifier::external_body]
    pub(crate) fn new() -> (made: Self)
        ensures
            table_contents(made) == no_records(),
    {
        RecordTable { inner: HashMap::new() }
    }

    /// `HashMap::insert`: afterwards `key` holds `record`, whether or not it held
    /// one before, and every other key holds what it held.
    #[verifier::external_body]
    pub(crate) fn insert(&mut self, key: String, record: LanguageTranslation)
        ensures
            table_contents(*final(self)) == table_contents(*old(self)).insert(key@, record@),
    {
        self.inner.insert(key, record);
    }

    /// `HashMap::get`: the record under `key`, if the table holds one.
    #[verifier::external_body]
    pub(crate) fn get(&self, key: &str) -> (found: Option<&LanguageTranslation>)
        ensures
            match found {
                Some(record) => table_contents(*self).contains_key(key@) && record@
                    == table_contents(*self)[key@],
                None => !table_contents(*self).contains_key(key@),
            },
    {
        self.inner.get(key)
    }
}

} // verus!
