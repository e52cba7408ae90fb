use cosmos_sdk_proto_althea::cosmos::bank::v1beta1::MsgSend;
use cosmos_sdk_proto_althea::cosmos::base::v1beta1::Coin;
use cosmos_sdk_proto_althea::cosmos::tx::v1beta1::{TxBody, TxRaw};
use deep_space::utils::encode_any;
use indexer::classify::{process_batch, process_block, Payload, Record, SEND_TYPE_URL};
use indexer::controller::{follow_step, CatchUpPlan};
use indexer::counters::{Counters, Totals};
use indexer::fetch::{FetchAction, FetchStatus, RangeFetch};
use indexer::locator::{BlockReport, Locator};
use indexer::message::Block;
use indexer::schedule::{Schedule, SubRange};
use std::collections::BTreeMap;

/// A node that holds the blocks from `first` to `tip`, fails the first
/// `failures` range requests it gets, and answers with at most `limit` blocks.
struct Node {
    first: u64,
    tip: u64,
    failures: usize,
    limit: usize,
    range_requests: Vec<(u64, u64)>,
    block_requests: Vec<u64>,
}

impl Node {
    fn new(first: u64, tip: u64) -> Node {
        Node { first, tip, failures: 0, limit: usize::MAX, range_requests: Vec::new(), block_requests: Vec::new() }
    }

    fn block(&self, height: u64) -> Block {
        let send = MsgSend {
            from_address: format!("from{}", height),
            to_address: format!("to{}", height),
            amount: vec![Coin { denom: "uabc".to_string(), amount: height.to_string() }],
        };
        let body = TxBody {
            messages: vec![encode_any(send, SEND_TYPE_URL)],
            memo: String::new(),
            timeout_height: 0,
            extension_options: Vec::new(),
            non_critical_extension_options: Vec::new(),
        };
        let raw = TxRaw { body_bytes: encode_any(body, "").value, auth_info_bytes: Vec::new(), signatures: Vec::new() };
        Block { height, timestamp: 1_700_000_000 + height as i64, txs: vec![encode_any(raw, "").value] }
    }

    fn get_block(&mut self, height: u64) -> Option<Block> {
        self.block_requests.push(height);
        if self.first <= height && height <= self.tip {
            Some(self.block(height))
        } else {
            None
        }
    }

    fn get_block_range(&mut self, start: u64, end: u64) -> Option<Vec<Block>> {
        self.range_requests.push((start, end));
        if self.failures > 0 {
            self.failures -= 1;
            return None;
        }
        let mut blocks = Vec::new();
        let mut height = start.max(self.first);
        while height < end && height <= self.tip && blocks.len() < self.limit {
            blocks.push(self.block(height));
            height += 1;
        }
        Some(blocks)
    }
}

fn find_earliest(node: &mut Node, low: u64, high: u64) -> u64 {
    let mut search = Locator::new(low, high);
    while let Some(height) = search.probe() {
        let report = match node.get_block(height) {
            Some(_) => BlockReport::Present,
            None => BlockReport::Absent,
        };
        search = search.answer(report);
    }
    search.result()
}

fn store(db: &mut BTreeMap<String, Payload>, records: &[Record]) {
    for record in records {
        db.insert(record.key.clone(), record.payload.clone());
    }
}

/// Downloads one batch as the indexer does; returns where the download ended
/// and how many seconds it would have waited.
fn download(node: &mut Node, batch: SubRange, db: &mut BTreeMap<String, Payload>, counters: &mut Counters) -> (RangeFetch, u64) {
    let mut fetch = RangeFetch::new(batch.start, batch.end);
    let mut waited = 0;
    let mut action = fetch.action();
    loop {
        let (start, end) = match action {
            FetchAction::Request { start, end } => (start, end),
            FetchAction::RetryAfter { delay_secs, start, end } => {
                waited += delay_secs;
                (start, end)
            }
            FetchAction::Stop => return (fetch, waited),
        };
        action = match node.get_block_range(start, end) {
            Some(blocks) => {
                let outcome = process_batch(&blocks).unwrap();
                store(db, &outcome.records);
                counters.absorb(outcome.totals);
                fetch.on_blocks(&blocks)
            }
            None => fetch.on_failure(),
        };
    }
}

fn catch_up(node: &mut Node, checkpoint: Option<u64>, db: &mut BTreeMap<String, Payload>, counters: &mut Counters) -> (Vec<Vec<SubRange>>, u64) {
    let tip = node.tip;
    let earliest = find_earliest(node, 0, tip);
    let plan = CatchUpPlan::new(checkpoint, earliest, tip, false, 0);
    let mut schedule = Schedule::new(plan.start, plan.end);
    let mut windows = Vec::new();
    loop {
        let window = schedule.next_window();
        if window.is_empty() {
            break;
        }
        for batch in &window {
            download(node, *batch, db, counters);
        }
        windows.push(window);
    }
    (windows, plan.checkpoint())
}

fn heights_stored(db: &BTreeMap<String, Payload>) -> Vec<u64> {
    db.keys().map(|key| key[..12].parse::<u64>().unwrap()).collect()
}

#[test]
fn short_chain_is_caught_up_in_one_batch() {
    let mut node = Node::new(1, 100);
    let mut db = BTreeMap::new();
    let mut counters = Counters::new();
    let (windows, checkpoint) = catch_up(&mut node, None, &mut db, &mut counters);
    assert_eq!(windows, vec![vec![SubRange { start: 1, end: 100 }]]);
    assert_eq!(node.range_requests, vec![(1, 100)]);
    assert_eq!(checkpoint, 100);
    assert_eq!(heights_stored(&db), (1..100).collect::<Vec<u64>>());
    assert_eq!(
        counters.snapshot(),
        Totals { blocks: 99, transactions: 0, msgs: 99, ibc_msgs: 0, send_msgs: 99 }
    );
}

#[test]
fn pruned_node_is_caught_up_from_its_oldest_block() {
    let mut node = Node::new(4_321, 6_000);
    let mut db = BTreeMap::new();
    let mut counters = Counters::new();
    let (windows, checkpoint) = catch_up(&mut node, None, &mut db, &mut counters);
    assert_eq!(
        windows,
        vec![vec![
            SubRange { start: 4_321, end: 4_821 },
            SubRange { start: 4_821, end: 5_321 },
            SubRange { start: 5_321, end: 5_821 },
            SubRange { start: 5_821, end: 6_000 },
        ]]
    );
    assert_eq!(checkpoint, 6_000);
    assert_eq!(heights_stored(&db), (4_321..6_000).collect::<Vec<u64>>());
}

#[test]
fn batch_completes_on_the_fifth_attempt() {
    let mut node = Node::new(1, 100);
    node.failures = 4;
    let mut db = BTreeMap::new();
    let mut counters = Counters::new();
    let (fetch, waited) = download(&mut node, SubRange { start: 1, end: 100 }, &mut db, &mut counters);
    assert_eq!(node.range_requests.len(), 5);
    assert_eq!(waited, 4);
    assert_eq!(fetch, RangeFetch { next_start: 100, end: 100, failures: 0, status: FetchStatus::Finished });
    assert_eq!(db.len(), 99);
    assert_eq!(counters.snapshot().blocks, 99);
}

#[test]
fn batch_gives_up_after_five_failures_and_the_run_goes_on() {
    let mut node = Node::new(1, 1_200);
    node.failures = 5;
    let mut db = BTreeMap::new();
    let mut counters = Counters::new();
    let (first, waited) = download(&mut node, SubRange { start: 1, end: 501 }, &mut db, &mut counters);
    assert_eq!(first, RangeFetch { next_start: 1, end: 501, failures: 5, status: FetchStatus::GaveUp });
    assert_eq!(waited, 4);
    assert_eq!(node.range_requests, vec![(1, 501); 5]);
    assert!(db.is_empty());
    assert_eq!(counters.snapshot(), Totals::new());

    let (second, _) = download(&mut node, SubRange { start: 501, end: 1_001 }, &mut db, &mut counters);
    assert_eq!(second.status, FetchStatus::Finished);
    assert_eq!(heights_stored(&db), (501..1_001).collect::<Vec<u64>>());
}

#[test]
fn truncated_answers_are_continued() {
    let mut node = Node::new(1, 100);
    node.limit = 40;
    let mut db = BTreeMap::new();
    let mut counters = Counters::new();
    let (fetch, _) = download(&mut node, SubRange { start: 1, end: 100 }, &mut db, &mut counters);
    assert_eq!(node.range_requests, vec![(1, 100), (41, 100), (81, 100)]);
    assert_eq!(fetch.status, FetchStatus::Finished);
    assert_eq!(heights_stored(&db), (1..100).collect::<Vec<u64>>());
}

#[test]
fn range_without_blocks_gives_an_empty_answer_and_no_error() {
    let mut node = Node::new(1, 100);
    let mut db = BTreeMap::new();
    let mut counters = Counters::new();
    let (fetch, waited) = download(&mut node, SubRange { start: 500, end: 600 }, &mut db, &mut counters);
    assert_eq!(node.range_requests, vec![(500, 600)]);
    assert_eq!(fetch, RangeFetch { next_start: 500, end: 600, failures: 0, status: FetchStatus::Finished });
    assert_eq!(waited, 0);
    assert!(db.is_empty());
    assert_eq!(counters.snapshot(), Totals::new());
}

#[test]
fn follow_loop_reads_each_new_block_by_itself() {
    let mut node = Node::new(1, 103);
    let mut db = BTreeMap::new();
    let span = follow_step(Some(100), 103).unwrap();
    for height in span.first..=span.last {
        let block = node.get_block(height).unwrap();
        store(&mut db, &process_block(&block).unwrap().records);
    }
    let checkpoint = span.last;
    assert_eq!(node.block_requests, vec![101, 102, 103]);
    assert_eq!(heights_stored(&db), vec![101, 102, 103]);
    assert_eq!(checkpoint, 103);
    assert_eq!(follow_step(Some(checkpoint), 103), None);
}

#[test]
fn storing_a_batch_again_changes_nothing() {
    let mut node = Node::new(1, 50);
    let blocks = node.get_block_range(1, 51).unwrap();
    let mut db = BTreeMap::new();
    store(&mut db, &process_batch(&blocks).unwrap().records);
    let once = db.clone();
    assert_eq!(once.len(), 50);
    store(&mut db, &process_batch(&blocks).unwrap().records);
    assert_eq!(db, once);
    for record in process_batch(&blocks).unwrap().records {
        assert_eq!(db.get(&record.key), Some(&record.payload));
    }
}

#[test]
fn stored_keys_come_in_the_order_of_the_heights() {
    let mut node = Node::new(1, 1_500);
    let mut db = BTreeMap::new();
    let mut counters = Counters::new();
    for batch in [SubRange { start: 1_001, end: 1_501 }, SubRange { start: 1, end: 501 }, SubRange { start: 501, end: 1_001 }] {
        download(&mut node, batch, &mut db, &mut counters);
    }
    assert_eq!(heights_stored(&db), (1..1_501).collect::<Vec<u64>>());
}
