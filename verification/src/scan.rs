//! The order in which the records of different blocks lie in the store.
//!
//! Batches are downloaded side by side, so records are written in no
//! particular order. A reader that scans the store by key still meets them
//! block by block: every record of a lower block comes before every record
//! of a higher one.

use crate::classify::{block_records, message_record, records_of, tx_messages, tx_records};
use crate::codec::transaction_id_of;
use crate::key::{key_text, lemma_keys_follow_heights, sorts_before, MessageKind, KEY_HEIGHT_LIMIT};
use crate::message::{BlockView, MessageView};
use vstd::prelude::*;

verus! {

/// `key` is the key of some record of a block at `height`.
pub open spec fn keyed_at(key: Seq<char>, height: u64) -> bool {
    exists|kind: MessageKind, timestamp: i64, tx_id: Seq<char>|
        key == #[trigger] key_text(height, kind, timestamp, tx_id)
}

proof fn lemma_message_record_keyed(height: u64, timestamp: i64, tx_id: Seq<char>, m: MessageView)
    requires
        message_record(height, timestamp, tx_id, m) is Some,
    ensures
        keyed_at(message_record(height, timestamp, tx_id, m).unwrap().key, height),
{
    let key = message_record(height, timestamp, tx_id, m).unwrap().key;
    if key == key_text(height, MessageKind::Send, timestamp, tx_id) {
    } else {
        assert(key == key_text(height, MessageKind::IbcTransfer, timestamp, tx_id));
    }
}

proof fn lemma_records_of_keyed(
    height: u64,
    timestamp: i64,
    tx_id: Seq<char>,
    messages: Seq<MessageView>,
    i: int,
)
    requires
        0 <= i < records_of(height, timestamp, tx_id, messages).len(),
    ensures
        keyed_at(records_of(height, timestamp, tx_id, messages)[i].key, height),
    decreases messages.len(),
{
    let front = messages.drop_last();
    let earlier = records_of(height, timestamp, tx_id, front);
    if i < earlier.len() {
        lemma_records_of_keyed(height, timestamp, tx_id, front, i);
    } else {
        lemma_message_record_keyed(height, timestamp, tx_id, messages.last());
    }
}

/// Every record of a block carries a key of that block's height.
pub proof fn lemma_block_records_keyed(height: u64, timestamp: i64, txs: Seq<Seq<u8>>, i: int)
    requires
        0 <= i < block_records(height, timestamp, txs).len(),
    ensures
        keyed_at(block_records(height, timestamp, txs)[i].key, height),
    decreases txs.len(),
{
    let f = tx_records(height, timestamp);
    if txs.len() > 0 {
        let front = txs.drop_last();
        let last = txs.last();
        assert(txs =~= front.push(last));
        front.lemma_push_map_commute(f, last);
        front.map_values(f).lemma_flatten_push(f(last));
        let earlier = block_records(height, timestamp, front);
        assert(block_records(height, timestamp, txs) == earlier + f(last));
        if i < earlier.len() {
            lemma_block_records_keyed(height, timestamp, front, i);
        } else {
            match tx_messages(last) {
                Some(messages) => {
                    lemma_records_of_keyed(
                        height,
                        timestamp,
                        transaction_id_of(last),
                        messages,
                        i - earlier.len(),
                    );
                },
                None => {},
            }
        }
    } else {
        assert(txs.map_values(f) =~= Seq::empty());
    }
}

/// Every record of a lower block sorts strictly before every record of a
/// higher block, as long as both heights fit the padded width of the key.
pub proof fn lemma_lower_block_sorts_first(lower: BlockView, higher: BlockView, i: int, j: int)
    requires
        lower.height < higher.height,
        higher.height < KEY_HEIGHT_LIMIT,
        0 <= i < block_records(lower.height, lower.timestamp, lower.txs).len(),
        0 <= j < block_records(higher.height, higher.timestamp, higher.txs).len(),
    ensures
        sorts_before(
            block_records(lower.height, lower.timestamp, lower.txs)[i].key,
            block_records(higher.height, higher.timestamp, higher.txs)[j].key,
        ),
{
    lemma_block_records_keyed(lower.height, lower.timestamp, lower.txs, i);
    lemma_block_records_keyed(higher.height, higher.timestamp, higher.txs, j);
    let low_key = block_records(lower.height, lower.timestamp, lower.txs)[i].key;
    let high_key = block_records(higher.height, higher.timestamp, higher.txs)[j].key;
    let (low_kind, low_time, low_id) = choose|kind: MessageKind, timestamp: i64, tx_id: Seq<char>|
        low_key == #[trigger] key_text(lower.height, kind, timestamp, tx_id);
    let (high_kind, high_time, high_id) = choose|
        kind: MessageKind,
        timestamp: i64,
        tx_id: Seq<char>,
    |
        high_key == #[trigger] key_text(higher.height, kind, timestamp, tx_id);
    lemma_keys_follow_heights(
        lower.height,
        low_kind,
        low_time,
        low_id,
        higher.height,
        high_kind,
        high_time,
        high_id,
    );
}

} // verus!
