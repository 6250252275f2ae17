//! The translation store: the latest record for each asset name.

use vstd::prelude::*;

use crate::record::{no_records, LanguageTranslation, RecordView};
use crate::table::{table_contents, RecordTable};

verus! {

/// The last record of `batch` that is filed under `key`, if there is one.
pub open spec fn latest_in(batch: Seq<RecordView>, key: Seq<char>) -> Option<RecordView>
    decreases batch.len(),
{
    if batch.len() == 0 {
        None
    } else if batch.last().asset_name == key {
        Some(batch.last())
    } else {
        latest_in(batch.drop_last(), key)
    }
}

/// What a store holds once `batch` has been published into `before`: under each
/// asset name the last record of the batch that bears it, and where the batch
/// has none, what was there before.
pub open spec fn published(before: Map<Seq<char>, RecordView>, batch: Seq<RecordView>) -> Map<
    Seq<char>,
    RecordView,
> {
    Map::new(
        |key: Seq<char>| before.contains_key(key) || latest_in(batch, key) is Some,
        |key: Seq<char>|
            match latest_in(batch, key) {
                Some(record) => record,
                None => before[key],
            },
    )
}

/// The text of each record of a batch, in order.
pub open spec fn batch_view(records: Seq<LanguageTranslation>) -> Seq<RecordView> {
    records.map_values(|record: LanguageTranslation| record@)
}

/// Every record is filed under its own asset name.
pub open spec fn filed_by_asset_name(contents: Map<Seq<char>, RecordView>) -> bool {
    forall|key: Seq<char>| #[trigger]
        contents.contains_key(key) ==> contents[key].asset_name == key
}

/// A mapping from an asset name to the latest record published under it.
#[derive(Debug)]
pub struct TranslationStore {
    table: RecordTable,
}

impl View for TranslationStore {
    type V = Map<Seq<char>, RecordView>;

    closed spec fn view(&self) -> Map<Seq<char>, RecordView> {
        table_contents(self.table)
    }
}

impl TranslationStore {
    /// A store holds finitely many records, each filed under its own asset name.
    #[verifier::type_invariant]
    pub open spec fn in_order(self) -> bool {
        filed_by_asset_name(self@) && self@.dom().finite()
    }

    /// An empty store.
    pub fn new() -> (store: Self)
        ensures
            store@ == no_records(),
            store@.dom().finite(),
    {
        TranslationStore { table: RecordTable::new() }
    }

    /// Files `record` under its asset name, in place of what was there.
    pub fn upsert(&mut self, record: LanguageTranslation)
        ensures
            final(self)@ == old(self)@.insert(record@.asset_name, record@),
            filed_by_asset_name(final(self)@),
            final(self)@.dom().finite(),
            final(self)@.len() == old(self)@.len() + (if old(self)@.contains_key(
                record@.asset_name,
            ) {
                0nat
            } else {
                1nat
            }),
    {
        proof {
            use_type_invariant(&*self);
        }
        let key = record.asset_name().to_owned();
        // The table leaves the store while it changes and comes back with the
        // record in it, so the store is in order at every moment.
        let mut table = RecordTable::new();
        std::mem::swap(&mut self.table, &mut table);
        table.insert(key, record);
        std::mem::swap(&mut self.table, &mut table);
    }

    /// Publishes a batch: files every record of it, first to last.
    pub fn publish(&mut self, records: Vec<LanguageTranslation>)
        ensures
            final(self)@ == published(old(self)@, batch_view(records@)),
            filed_by_asset_name(final(self)@),
            final(self)@.dom().finite(),
    {
        proof {
            use_type_invariant(&*self);
        }
        let ghost batch = batch_view(records@);
        for record in it: records.into_iter()
            invariant
                batch == batch_view(it.seq()),
                self@ == published(old(self)@, batch.take(it.index() as int)),
                filed_by_asset_name(self@),
                self@.dom().finite(),
        {
            proof {
                let done = it.index() as int;
                assert(batch.take(done + 1) == batch.take(done).push(batch[done]));
                lemma_published_step(old(self)@, batch.take(done), batch[done]);
            }
            self.upsert(record);
        }
        proof {
            assert(batch.take(batch.len() as int) == batch);
        }
    }

    /// The record filed under `key`, if the store holds one.
    pub fn lookup(&self, key: &str) -> (found: Option<&LanguageTranslation>)
        ensures
            match found {
                Some(record) => self@.contains_key(key@) && record@ == self@[key@]
                    && record@.asset_name == key@,
                None => !self@.contains_key(key@),
            },
    {
        proof {
            use_type_invariant(self);
        }
        self.table.get(key)
    }

    /// The record filed under `key`, for a key that the store holds.
    pub fn read(&self, key: &str) -> (record: &LanguageTranslation)
        requires
            self@.contains_key(key@),
        ensures
            record@ == self@[key@],
            record@.asset_name == key@,
    {
        self.lookup(key).unwrap()
    }
}

/// Publishing an empty batch leaves a store as it was.
pub proof fn lemma_published_nothing(before: Map<Seq<char>, RecordView>)
    ensures
        published(before, Seq::empty()) == before,
{
}

/// Publishing a batch and then one more record is publishing the batch with
/// that record at its end: the record takes the place of what its asset name held.
pub proof fn lemma_published_step(
    before: Map<Seq<char>, RecordView>,
    batch: Seq<RecordView>,
    record: RecordView,
)
    ensures
        published(before, batch.push(record)) == published(before, batch).insert(
            record.asset_name,
            record,
        ),
{
    let longer = batch.push(record);
    assert(longer.drop_last() == batch);
    assert(published(before, longer) =~= published(before, batch).insert(
        record.asset_name,
        record,
    ));
}

/// Publishing one batch and then another is publishing the two end to end:
/// a later cycle supersedes an earlier one name by name.
pub proof fn lemma_published_twice(
    before: Map<Seq<char>, RecordView>,
    first: Seq<RecordView>,
    second: Seq<RecordView>,
)
    ensures
        published(published(before, first), second) == published(before, first + second),
    decreases second.len(),
{
    if second.len() > 0 {
        let earlier = second.drop_last();
        let record = second.last();
        assert(first + second == (first + earlier).push(record));
        lemma_published_twice(before, first, earlier);
        lemma_published_step(before, first + earlier, record);
    }
}

/// Publishing the same batch again changes nothing: a poller may republish
/// the rows it has already published as often as it likes.
pub proof fn lemma_published_again(before: Map<Seq<char>, RecordView>, batch: Seq<RecordView>)
    ensures
        published(published(before, batch), batch) == published(before, batch),
{
}

/// A record is read back under its asset name unless a later record of the
/// batch bears the same name.
pub proof fn lemma_last_of_a_name_is_kept(
    before: Map<Seq<char>, RecordView>,
    batch: Seq<RecordView>,
    i: int,
)
    requires
        0 <= i < batch.len(),
        forall|j: int| i < j < batch.len() ==> batch[j].asset_name != batch[i].asset_name,
    ensures
        published(before, batch).contains_key(batch[i].asset_name),
        published(before, batch)[batch[i].asset_name] == batch[i],
    decreases batch.len(),
{
    if i < batch.len() - 1 {
        lemma_last_of_a_name_is_kept(before, batch.drop_last(), i);
    }
}

/// Round trip: after a batch in which no two records bear the same asset name,
/// each record of the batch is exactly what the store holds under its name.
pub proof fn lemma_round_trip(before: Map<Seq<char>, RecordView>, batch: Seq<RecordView>)
    requires
        forall|i: int, j: int|
            0 <= i < j < batch.len() ==> batch[i].asset_name != batch[j].asset_name,
    ensures
        forall|i: int|
            0 <= i < batch.len() ==> published(before, batch).contains_key(
                #[trigger] batch[i].asset_name,
            ) && published(before, batch)[batch[i].asset_name] == batch[i],
{
    assert forall|i: int| 0 <= i < batch.len() implies published(before, batch).contains_key(
        #[trigger] batch[i].asset_name,
    ) && published(before, batch)[batch[i].asset_name] == batch[i] by {
        lemma_last_of_a_name_is_kept(before, batch, i);
    }
}

/// Filing two records under one asset name leaves only the second: the store
/// is as if the first had never come, and holds one record under that name.
pub proof fn lemma_same_name_twice_keeps_latest(
    before: Map<Seq<char>, RecordView>,
    first: RecordView,
    second: RecordView,
)
    requires
        first.asset_name == second.asset_name,
    ensures
        published(before, seq![first, second]) == published(before, seq![second]),
        published(before, seq![first, second])[second.asset_name] == second,
        published(before, seq![first, second]).dom() == before.dom().insert(second.asset_name),
        before.dom().finite() ==> published(before, seq![first, second]).len() == before.len() + (
        if before.contains_key(second.asset_name) {
            0nat
        } else {
            1nat
        }),
{
    let both = seq![first, second];
    let one = seq![second];
    assert(one.drop_last() == Seq::<RecordView>::empty());
    assert(both.drop_last() == seq![first]);
    assert(seq![first].drop_last() == Seq::<RecordView>::empty());
    assert forall|key: Seq<char>| latest_in(both, key) == latest_in(one, key) by {
        if key != second.asset_name {
            assert(latest_in(seq![first], key) == latest_in(Seq::<RecordView>::empty(), key));
        }
    }
    lemma_published_nothing(before);
}

/// A batch touches only the asset names that its records bear.
pub proof fn lemma_other_names_are_kept(
    before: Map<Seq<char>, RecordView>,
    batch: Seq<RecordView>,
    key: Seq<char>,
)
    requires
        forall|i: int| 0 <= i < batch.len() ==> batch[i].asset_name != key,
    ensures
        published(before, batch).contains_key(key) == before.contains_key(key),
        before.contains_key(key) ==> published(before, batch)[key] == before[key],
    decreases batch.len(),
{
    if batch.len() > 0 {
        lemma_other_names_are_kept(before, batch.drop_last(), key);
    }
}

/// The latest record under a name bears that name.
pub proof fn lemma_latest_bears_the_name(batch: Seq<RecordView>, key: Seq<char>)
    ensures
        latest_in(batch, key) matches Some(record) ==> record.asset_name == key,
    decreases batch.len(),
{
    if batch.len() > 0 && batch.last().asset_name != key {
        lemma_latest_bears_the_name(batch.drop_last(), key);
    }
}

/// Publishing keeps a store in order: if every record was filed under its own
/// asset name before a batch, every record is so after it.
pub proof fn lemma_published_keeps_filing(before: Map<Seq<char>, RecordView>, batch: Seq<RecordView>)
    requires
        filed_by_asset_name(before),
    ensures
        filed_by_asset_name(published(before, batch)),
{
    assert forall|key: Seq<char>| #[trigger]
        published(before, batch).contains_key(key) implies published(
        before,
        batch,
    )[key].asset_name == key by {
        lemma_latest_bears_the_name(batch, key);
    }
}

/// Filing one record is an insertion under its asset name. The count of a
/// finite store grows by one if the name was new to it, and stays otherwise.
pub proof fn lemma_upsert_count(before: Map<Seq<char>, RecordView>, record: RecordView)
    requires
        before.dom().finite(),
    ensures
        published(before, seq![record]) == before.insert(record.asset_name, record),
        published(before, seq![record]).dom().finite(),
        published(before, seq![record]).len() == before.len() + (if before.contains_key(
            record.asset_name,
        ) {
            0nat
        } else {
            1nat
        }),
{
    assert(seq![record] == Seq::<RecordView>::empty().push(record));
    lemma_published_step(before, Seq::empty(), record);
    lemma_published_nothing(before);
}

/// A finite store stays finite through a batch, loses no name, and gains at
/// most one name for each record of the batch.
pub proof fn lemma_published_count(before: Map<Seq<char>, RecordView>, batch: Seq<RecordView>)
    requires
        before.dom().finite(),
    ensures
        published(before, batch).dom().finite(),
        before.len() <= published(before, batch).len() <= before.len() + batch.len(),
    decreases batch.len(),
{
    if batch.len() == 0 {
        lemma_published_nothing(before);
        assert(batch == Seq::<RecordView>::empty());
    } else {
        let earlier = batch.drop_last();
        assert(batch == earlier.push(batch.last()));
        lemma_published_count(before, earlier);
        lemma_published_step(before, earlier, batch.last());
    }
}

} // verus!
