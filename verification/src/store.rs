//! What storing records does to a store, as far as the indexer relies on it.
//!
//! The store keeps one value for each key, and storing under a key that is
//! already there replaces the value. A record's key is made of the height,
//! the kind, the block's time and the transaction, so reading a block again
//! gives the same records and storing them again changes nothing: a batch
//! that was cut short can simply be run again.

use crate::classify::{PayloadView, RecordView};
use vstd::prelude::*;

verus! {

/// The store after `record` has been stored.
pub open spec fn put(store: Map<Seq<char>, PayloadView>, record: RecordView) -> Map<
    Seq<char>,
    PayloadView,
> {
    store.insert(record.key, record.payload)
}

/// The store after `records` have been stored, one after the other.
pub open spec fn put_all(store: Map<Seq<char>, PayloadView>, records: Seq<RecordView>) -> Map<
    Seq<char>,
    PayloadView,
>
    decreases records.len(),
{
    if records.len() == 0 {
        store
    } else {
        put(put_all(store, records.drop_last()), records.last())
    }
}

/// Whether one of `records` is stored under `key`.
pub open spec fn names_key(records: Seq<RecordView>, key: Seq<char>) -> bool {
    exists|i: int| 0 <= i < records.len() && (#[trigger] records[i]).key == key
}

/// Storing a record puts its content under its key and touches no other key.
/// Storing the same record a second time changes nothing: the store still
/// holds one value for that key, the content.
pub proof fn lemma_put_is_idempotent(store: Map<Seq<char>, PayloadView>, record: RecordView)
    ensures
        put(store, record).contains_key(record.key),
        put(store, record)[record.key] == record.payload,
        put(store, record).dom() == store.dom().insert(record.key),
        forall|key: Seq<char>|
            key != record.key && store.contains_key(key) ==> #[trigger] put(store, record)[key]
                == store[key],
        put(put(store, record), record) == put(store, record),
{
    assert(put(store, record).dom() =~= store.dom().insert(record.key));
    assert(put(put(store, record), record) =~= put(store, record));
}

/// A key that none of `records` is stored under is left as it was.
pub proof fn lemma_put_all_leaves_others(
    store: Map<Seq<char>, PayloadView>,
    records: Seq<RecordView>,
    key: Seq<char>,
)
    requires
        !names_key(records, key),
    ensures
        put_all(store, records).contains_key(key) == store.contains_key(key),
        put_all(store, records)[key] == store[key],
    decreases records.len(),
{
    if records.len() > 0 {
        let front = records.drop_last();
        assert(records[records.len() - 1].key != key);
        assert forall|i: int| 0 <= i < front.len() implies (#[trigger] front[i]).key != key by {
            assert(records[i] == front[i]);
        }
        lemma_put_all_leaves_others(store, front, key);
    }
}

/// What ends up under a key that one of `records` is stored under does not
/// depend on what the store held before.
pub proof fn lemma_put_all_decides(
    first: Map<Seq<char>, PayloadView>,
    second: Map<Seq<char>, PayloadView>,
    records: Seq<RecordView>,
    key: Seq<char>,
)
    requires
        names_key(records, key),
    ensures
        put_all(first, records).contains_key(key),
        put_all(second, records).contains_key(key),
        put_all(first, records)[key] == put_all(second, records)[key],
    decreases records.len(),
{
    let front = records.drop_last();
    if records.last().key != key {
        let i = choose|i: int| 0 <= i < records.len() && (#[trigger] records[i]).key == key;
        assert(front[i] == records[i]);
        lemma_put_all_decides(first, second, front, key);
    }
}

/// Storing the same records a second time changes nothing. So a block, or a
/// whole batch, that is read again after a crash leaves the store as the
/// first reading left it.
pub proof fn lemma_replay_changes_nothing(
    store: Map<Seq<char>, PayloadView>,
    records: Seq<RecordView>,
)
    ensures
        put_all(put_all(store, records), records) == put_all(store, records),
{
    let once = put_all(store, records);
    let twice = put_all(once, records);
    assert forall|key: Seq<char>| #[trigger]
        twice.dom().contains(key) == once.dom().contains(key) by {
        if names_key(records, key) {
            lemma_put_all_decides(once, store, records, key);
        } else {
            lemma_put_all_leaves_others(once, records, key);
        }
    }
    assert(twice.dom() =~= once.dom());
    assert forall|key: Seq<char>| once.dom().contains(key) implies #[trigger] twice[key]
        == once[key] by {
        if names_key(records, key) {
            lemma_put_all_decides(once, store, records, key);
        } else {
            lemma_put_all_leaves_others(once, records, key);
        }
    }
    assert(twice =~= once);
}

} // verus!
