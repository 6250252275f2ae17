//! One store between a writer and its readers, behind a reader-writer lock.
//!
//! Nobody waits inside this module. A writer that finds the store held gives
//! up and reports it, and so does a reader: whoever wants to wait asks again.

use std::sync::{RwLock, RwLockReadGuard, RwLockWriteGuard, TryLockError};
use vstd::prelude::*;

use crate::record::{LanguageTranslation, RecordView};
use crate::store::{batch_view, filed_by_asset_name, published, TranslationStore};

verus! {

/// `std::sync::RwLock`, carried through as it is: the verifier sees nothing
/// of who holds it or of what is behind it.
#[verifier::external_type_specification]
#[verifier::external_body]
#[verifier::reject_recursive_types(T)]
pub struct RwLockDecl<T: ?Sized>(RwLock<T>);

/// `std::sync::RwLockReadGuard`: read access that lasts until it is dropped.
#[verifier::external_type_specification]
#[verifier::external_body]
#[verifier::reject_recursive_types(T)]
pub struct ReadGuardDecl<'a, T: ?Sized>(RwLockReadGuard<'a, T>);

/// `std::sync::RwLockWriteGuard`: write access that lasts until it is dropped.
#[verifier::external_type_specification]
#[verifier::external_body]
#[verifier::reject_recursive_types(T)]
pub struct WriteGuardDecl<'a, T: ?Sized + 'a>(RwLockWriteGuard<'a, T>);

/// `RwLock::new`: a lock around `store`, held by no one.
///
/// Nothing is stated of the lock: what is behind it can change between any
/// two looks, so it has no value that a contract could speak of.
#[verifier::external_body]
fn lock_around(store: TranslationStore) -> (lock: RwLock<TranslationStore>) {
    RwLock::new(store)
}

/// `RwLock::try_write`: write access if it can be had at once, and nothing if
/// anyone holds the lock or a writer died holding it. It never waits.
///
/// Which of the two comes back depends on the other threads, so nothing is
/// stated of it.
#[verifier::external_body]
fn try_write_access<'a>(lock: &'a RwLock<TranslationStore>) -> (access: Option<
    RwLockWriteGuard<'a, TranslationStore>,
>) {
    match lock.try_write() {
        Ok(guard) => Some(guard),
        Err(_) => None,
    }
}

/// `RwLock::try_read`: read access if it can be had at once. It never waits.
///
/// Which of the three answers comes back depends on the other threads, so
/// nothing is stated of it. The two refusals are std's own, one for one:
/// `WouldBlock` and `Poisoned`.
#[verifier::external_body]
fn try_read_access<'a>(lock: &'a RwLock<TranslationStore>) -> (access: Result<
    RwLockReadGuard<'a, TranslationStore>,
    NoAccess,
>) {
    match lock.try_read() {
        Ok(guard) => Ok(guard),
        Err(TryLockError::WouldBlock) => Err(NoAccess::Held),
        Err(TryLockError::Poisoned(_)) => Err(NoAccess::Poisoned),
    }
}

/// `DerefMut` of the write guard: the store behind the lock, to change.
///
/// The store holds whatever the last writer left there: nothing is stated of it.
#[verifier::external_body]
fn store_to_write<'a, 'b>(guard: &'a mut RwLockWriteGuard<'b, TranslationStore>) -> (store:
    &'a mut TranslationStore) {
    &mut **guard
}

/// What the store behind a read guard holds. No writer gets in while the
/// guard lives, so this is one value for the guard's whole life.
pub uninterp spec fn read_guard_contents(guard: RwLockReadGuard<'_, TranslationStore>) -> Map<
    Seq<char>,
    RecordView,
>;

/// `Deref` of the read guard: the store behind the lock, to read.
///
/// Every look through one guard finds the same store, and that is all that is
/// stated: what the store holds is whatever the last writer left there.
#[verifier::external_body]
fn store_to_read<'a, 'b>(guard: &'a RwLockReadGuard<'b, TranslationStore>) -> (store:
    &'a TranslationStore)
    ensures
        store@ == read_guard_contents(*guard),
{
    &**guard
}

/// Why read access was not given.
#[derive(Clone, Copy, Debug, PartialEq, Eq, Structural)]
pub enum NoAccess {
    /// The writer holds the store at this moment.
    Held,
    /// A writer died while it held the store.
    Poisoned,
}

/// How an attempt to write ended.
#[derive(Clone, Copy, Debug, PartialEq, Eq, Structural)]
pub enum WriteOutcome {
    /// The whole batch is in the store.
    Published,
    /// The store was held by someone else; nothing of the batch was applied.
    Contended,
}

/// Publishes `records` into the store that `access` leads to, or reports that
/// there was no access to be had. With no access the batch is dropped whole:
/// no record of it is applied anywhere.
pub fn write_with(
    access: Option<&mut TranslationStore>,
    records: Vec<LanguageTranslation>,
) -> (outcome: WriteOutcome)
    ensures
        match access {
            Some(store) => outcome == WriteOutcome::Published && final(store)@ == published(
                store@,
                batch_view(records@),
            ),
            None => outcome == WriteOutcome::Contended,
        },
{
    match access {
        Some(store) => {
            store.publish(records);
            WriteOutcome::Published
        },
        None => WriteOutcome::Contended,
    }
}

/// A translation store for one writer and any number of readers.
pub struct SharedStore {
    lock: RwLock<TranslationStore>,
}

/// Read access to a shared store. While it lives, no write goes through.
pub struct ReadAccess<'a> {
    guard: RwLockReadGuard<'a, TranslationStore>,
}

impl<'a> View for ReadAccess<'a> {
    type V = Map<Seq<char>, RecordView>;

    /// What the store holds for as long as this access is held.
    closed spec fn view(&self) -> Map<Seq<char>, RecordView> {
        read_guard_contents(self.guard)
    }
}

impl<'a> ReadAccess<'a> {
    /// The store as it stands while this access is held.
    pub fn store(&self) -> (store: &TranslationStore)
        ensures
            store@ == self@,
    {
        store_to_read(&self.guard)
    }
}

/// A copy of the record that the store under `access` files under `key`, if
/// it files one.
pub fn read_with(access: &ReadAccess<'_>, key: &str) -> (found: Option<LanguageTranslation>)
    ensures
        match found {
            Some(record) => access@.contains_key(key@) && record@ == access@[key@],
            None => !access@.contains_key(key@),
        },
{
    match access.store().lookup(key) {
        Some(record) => Some(record.clone()),
        None => None,
    }
}

impl SharedStore {
    /// A shared store that holds nothing yet.
    pub fn new() -> Self {
        SharedStore { lock: lock_around(TranslationStore::new()) }
    }

    /// Tries once, without waiting, to publish `records`. While anyone holds
    /// access the attempt ends `Contended` and applies nothing; what it does
    /// with the access it gets is [`write_with`].
    pub fn write(&self, records: Vec<LanguageTranslation>) -> WriteOutcome {
        match try_write_access(&self.lock) {
            Some(mut guard) => write_with(Some(store_to_write(&mut guard)), records),
            None => write_with(None, records),
        }
    }

    /// Tries once, without waiting, to get read access. Access that is given
    /// lasts until it is dropped.
    ///
    /// Which store the access finds depends on what the writer has published
    /// by then; whichever it is, it holds finitely many records, each filed
    /// under its own asset name.
    pub fn read_access(&self) -> (access: Result<ReadAccess<'_>, NoAccess>)
        ensures
            access matches Ok(held) ==> filed_by_asset_name(held@) && held@.dom().finite(),
    {
        match try_read_access(&self.lock) {
            Ok(guard) => {
                let held = ReadAccess { guard };
                let store = held.store();
                proof {
                    use_type_invariant(store);
                }
                Ok(held)
            },
            Err(refusal) => Err(refusal),
        }
    }

    /// Tries once, without waiting, to get read access, and with it hands out
    /// a copy of the record under `key`, if the store holds one at that moment.
    pub fn read(&self, key: &str) -> (found: Result<Option<LanguageTranslation>, NoAccess>)
        ensures
            found matches Ok(Some(record)) ==> record@.asset_name == key@,
    {
        match self.read_access() {
            Ok(access) => Ok(read_with(&access, key)),
            Err(refusal) => Err(refusal),
        }
    }
}

} // verus!
