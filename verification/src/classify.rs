//! Decoding the transactions of a block and turning their messages into
//! records.
//!
//! A message is told apart by its type tag alone. A payment or a transfer
//! whose payload decodes becomes one record; one whose payload does not
//! decode is passed over, and so is a message of any other type. A
//! transaction whose envelope or body does not decode stops the block.

use crate::codec::{
    body_messages, decode_body, decode_envelope, decode_send, decode_transfer, envelope_body,
    send_fields, transaction_id, transaction_id_of, transfer_fields,
};
use crate::counters::{clip, Totals};
use crate::key::{key_text, record_key, MessageKind};
use crate::message::{
    Block, BlockView, CustomMsgSend, CustomMsgTransfer, MessageView, SendView, TransferView,
    TypedMessage, messages_view,
};
use vstd::seq_lib::lemma_flatten_concat;
use vstd::prelude::*;
use vstd::string::*;

verus! {

/// The type tag of a payment.
pub const SEND_TYPE_URL: &'static str = "/cosmos.bank.v1beta1.MsgSend";

/// The type tag of a cross-chain transfer.
pub const TRANSFER_TYPE_URL: &'static str = "/ibc.applications.transfer.v1.MsgTransfer";

/// What a record holds: the normalized message.
#[derive(Clone, Debug, PartialEq, Eq)]
pub enum Payload {
    Send(CustomMsgSend),
    Transfer(CustomMsgTransfer),
}

pub enum PayloadView {
    Send(SendView),
    Transfer(TransferView),
}

impl View for Payload {
    type V = PayloadView;

    open spec fn view(&self) -> PayloadView {
        match self {
            Payload::Send(m) => PayloadView::Send(m@),
            Payload::Transfer(m) => PayloadView::Transfer(m@),
        }
    }
}

/// One record to store: a key and the message to store under it.
#[derive(Clone, Debug, PartialEq, Eq)]
pub struct Record {
    pub key: String,
    pub payload: Payload,
}

pub struct RecordView {
    pub key: Seq<char>,
    pub payload: PayloadView,
}

impl View for Record {
    type V = RecordView;

    open spec fn view(&self) -> RecordView {
        RecordView { key: self.key@, payload: self.payload@ }
    }
}

/// The views of a list of records, in order.
pub open spec fn records_view(records: Seq<Record>) -> Seq<RecordView> {
    records.map_values(|r: Record| r@)
}

/// The record of a payment found at `height`, in a block of time
/// `timestamp`, in the transaction `tx_id`.
pub open spec fn send_record(height: u64, timestamp: i64, tx_id: Seq<char>, message: SendView)
    -> RecordView {
    RecordView {
        key: key_text(height, MessageKind::Send, timestamp, tx_id),
        payload: PayloadView::Send(message),
    }
}

/// The record of a transfer found at `height`, in a block of time
/// `timestamp`, in the transaction `tx_id`.
pub open spec fn transfer_record(
    height: u64,
    timestamp: i64,
    tx_id: Seq<char>,
    message: TransferView,
) -> RecordView {
    RecordView {
        key: key_text(height, MessageKind::IbcTransfer, timestamp, tx_id),
        payload: PayloadView::Transfer(message),
    }
}

impl Record {
    /// The record of a decoded payment.
    pub fn send(height: u64, timestamp: i64, tx_id: &str, message: CustomMsgSend) -> (r: Record)
        ensures
            r@ == send_record(height, timestamp, tx_id@, message@),
            r.payload == Payload::Send(message),
    {
        Record {
            key: record_key(height, MessageKind::Send, timestamp, tx_id),
            payload: Payload::Send(message),
        }
    }

    /// The record of a decoded transfer.
    pub fn transfer(height: u64, timestamp: i64, tx_id: &str, message: CustomMsgTransfer) -> (r:
        Record)
        ensures
            r@ == transfer_record(height, timestamp, tx_id@, message@),
            r.payload == Payload::Transfer(message),
    {
        Record {
            key: record_key(height, MessageKind::IbcTransfer, timestamp, tx_id),
            payload: Payload::Transfer(message),
        }
    }
}

/// The kind of message that a type tag names, if it names one of the two
/// that are stored.
pub open spec fn kind_of(type_url: Seq<char>) -> Option<MessageKind> {
    if type_url == SEND_TYPE_URL@ {
        Some(MessageKind::Send)
    } else if type_url == TRANSFER_TYPE_URL@ {
        Some(MessageKind::IbcTransfer)
    } else {
        None
    }
}

/// Tells the kind of a message by its type tag.
pub fn classify(type_url: &String) -> (kind: Option<MessageKind>)
    ensures
        kind == kind_of(type_url@),
{
    let send = String::from_str(SEND_TYPE_URL);
    let transfer = String::from_str(TRANSFER_TYPE_URL);
    if *type_url == send {
        Some(MessageKind::Send)
    } else if *type_url == transfer {
        Some(MessageKind::IbcTransfer)
    } else {
        None
    }
}

/// The record that one message gives, if it gives one.
pub open spec fn message_record(height: u64, timestamp: i64, tx_id: Seq<char>, m: MessageView)
    -> Option<RecordView> {
    match kind_of(m.type_url) {
        Some(MessageKind::Send) => match send_fields(m.value) {
            Some(p) => Some(send_record(height, timestamp, tx_id, p)),
            None => None,
        },
        Some(MessageKind::IbcTransfer) => match transfer_fields(m.value) {
            Some(p) => Some(transfer_record(height, timestamp, tx_id, p)),
            None => None,
        },
        None => None,
    }
}

pub open spec fn option_record_view(r: Option<Record>) -> Option<RecordView> {
    match r {
        Some(rec) => Some(rec@),
        None => None,
    }
}

/// Decodes one message and makes its record. A message of another type, or
/// one whose payload does not decode, gives none.
pub fn record_of_message(height: u64, timestamp: i64, tx_id: &str, message: &TypedMessage) -> (r:
    Option<Record>)
    ensures
        option_record_view(r) == message_record(height, timestamp, tx_id@, message@),
{
    match classify(&message.type_url) {
        Some(MessageKind::Send) => match decode_send(message.value.as_slice()) {
            Some(m) => Some(Record::send(height, timestamp, tx_id, m)),
            None => None,
        },
        Some(MessageKind::IbcTransfer) => match decode_transfer(message.value.as_slice()) {
            Some(m) => Some(Record::transfer(height, timestamp, tx_id, m)),
            None => None,
        },
        None => None,
    }
}

/// The messages of the transaction whose envelope is `tx`, or `None` where
/// the envelope or the body inside it does not decode.
pub open spec fn tx_messages(tx: Seq<u8>) -> Option<Seq<MessageView>> {
    match envelope_body(tx) {
        Some(body) => body_messages(body),
        None => None,
    }
}

/// The function that gives each message of one transaction its record.
pub open spec fn recorder(height: u64, timestamp: i64, tx_id: Seq<char>) -> spec_fn(
    MessageView,
) -> Option<RecordView> {
    |m: MessageView| message_record(height, timestamp, tx_id, m)
}

/// The records of the messages of one transaction, in the order of the
/// messages that give one.
pub open spec fn records_of(
    height: u64,
    timestamp: i64,
    tx_id: Seq<char>,
    messages: Seq<MessageView>,
) -> Seq<RecordView> {
    messages.filter_map(recorder(height, timestamp, tx_id))
}

/// Whether a record holds a payment.
pub open spec fn is_payment() -> spec_fn(RecordView) -> bool {
    |r: RecordView| r.payload is Send
}

/// The number of payments among `records`.
pub open spec fn payments_in(records: Seq<RecordView>) -> nat {
    records.filter(is_payment()).len()
}

/// Whether one of `messages` carries the type tag of a transfer, decodable
/// or not.
pub open spec fn holds_transfer(messages: Seq<MessageView>) -> bool {
    exists|i: int|
        0 <= i < messages.len() && kind_of(#[trigger] messages[i].type_url) == Some(
            MessageKind::IbcTransfer,
        )
}

/// What one transaction gave: its records, and what is counted of it.
#[derive(Clone, Debug, PartialEq, Eq)]
pub struct TxOutcome {
    /// The records of its payments and transfers that decoded.
    pub records: Vec<Record>,
    /// The number of its messages, of whatever type.
    pub messages: usize,
    /// The number of its payments that decoded.
    pub payments: usize,
    /// Whether one of its messages carries the type tag of a transfer.
    pub has_transfer: bool,
}

impl TxOutcome {
    /// This is the outcome of the transaction `tx_id`, found at `height` in a
    /// block of time `timestamp`, whose messages are `messages`.
    pub open spec fn describes(
        &self,
        height: u64,
        timestamp: i64,
        tx_id: Seq<char>,
        messages: Seq<MessageView>,
    ) -> bool {
        &&& records_view(self.records@) == records_of(height, timestamp, tx_id, messages)
        &&& self.messages == messages.len()
        &&& self.payments == payments_in(records_of(height, timestamp, tx_id, messages))
        &&& self.has_transfer == holds_transfer(messages)
    }
}

/// Classifies the decoded messages of one transaction.
pub fn process_messages(height: u64, timestamp: i64, tx_id: &str, messages: &Vec<TypedMessage>)
    -> (outcome: TxOutcome)
    ensures
        outcome.describes(height, timestamp, tx_id@, messages_view(messages@)),
{
    let ghost all = messages_view(messages@);
    let ghost f = recorder(height, timestamp, tx_id@);
    let mut records: Vec<Record> = Vec::new();
    let mut payments: usize = 0;
    let mut has_transfer = false;
    let mut i: usize = 0;
    assert(all.take(0) =~= Seq::empty());
    assert(records_view(records@) =~= Seq::empty());
    while i < messages.len()
        invariant
            i <= messages.len(),
            all == messages_view(messages@),
            f == recorder(height, timestamp, tx_id@),
            records_view(records@) == all.take(i as int).filter_map(f),
            payments == payments_in(records_view(records@)),
            payments <= records.len(),
            has_transfer == holds_transfer(all.take(i as int)),
        decreases messages.len() - i,
    {
        let message = &messages[i];
        let ghost before = all.take(i as int);
        let ghost after = all.take(i + 1);
        proof {
            all.lemma_filter_map_take_succ(f, i as int);
            assert(all[i as int] == message@);
            assert(after =~= before.push(all[i as int]));
            if holds_transfer(before) {
                let k = choose|k: int|
                    0 <= k < before.len() && kind_of(#[trigger] before[k].type_url) == Some(
                        MessageKind::IbcTransfer,
                    );
                assert(after[k] == before[k]);
            }
            if holds_transfer(after) && kind_of(message@.type_url) != Some(
                MessageKind::IbcTransfer,
            ) {
                let k = choose|k: int|
                    0 <= k < after.len() && kind_of(#[trigger] after[k].type_url) == Some(
                        MessageKind::IbcTransfer,
                    );
                assert(before[k] == after[k]);
            }
            if kind_of(message@.type_url) == Some(MessageKind::IbcTransfer) {
                assert(after[i as int] == message@);
            }
        }
        if let Some(MessageKind::IbcTransfer) = classify(&message.type_url) {
            has_transfer = true;
        }
        match record_of_message(height, timestamp, tx_id, message) {
            Some(record) => {
                let ghost old_view = records_view(records@);
                proof {
                    records@.lemma_push_map_commute(|r: Record| r@, record);
                    old_view.lemma_filter_len_push(is_payment(), record@);
                }
                let is_send = match &record.payload {
                    Payload::Send(_) => true,
                    Payload::Transfer(_) => false,
                };
                records.push(record);
                assert(records_view(records@) =~= old_view.push(record@));
                assert(records@.len() == records.len());
                if is_send {
                    payments = payments + 1;
                }
            },
            None => {},
        }
        i = i + 1;
    }
    assert(all.take(i as int) =~= all);
    TxOutcome { records, messages: messages.len(), payments, has_transfer }
}

/// The step at which a transaction failed to decode.
#[derive(Clone, Copy, Debug, PartialEq, Eq, Structural)]
pub enum DecodeStage {
    /// The signed envelope is malformed.
    Envelope,
    /// The envelope decoded, the body inside it did not.
    Body,
}

/// The step at which `tx` fails to decode, or `None` where it decodes.
pub open spec fn fault_stage(tx: Seq<u8>) -> Option<DecodeStage> {
    match envelope_body(tx) {
        None => Some(DecodeStage::Envelope),
        Some(body) => if body_messages(body) is None {
            Some(DecodeStage::Body)
        } else {
            None
        },
    }
}

/// Decodes one transaction of a block and classifies its messages.
pub fn process_transaction(height: u64, timestamp: i64, tx: &[u8]) -> (r: Result<
    TxOutcome,
    DecodeStage,
>)
    ensures
        match r {
            Ok(outcome) => tx_messages(tx@) matches Some(messages) && outcome.describes(
                height,
                timestamp,
                transaction_id_of(tx@),
                messages,
            ),
            Err(stage) => fault_stage(tx@) == Some(stage),
        },
{
    let body = match decode_envelope(tx) {
        Some(body) => body,
        None => {
            return Err(DecodeStage::Envelope);
        },
    };
    let tx_id = transaction_id(tx);
    let messages = match decode_body(body.as_slice()) {
        Some(messages) => messages,
        None => {
            return Err(DecodeStage::Body);
        },
    };
    Ok(process_messages(height, timestamp, tx_id.as_str(), &messages))
}

/// The function that gives each transaction of a block its records. One
/// that does not decode gives none.
pub open spec fn tx_records(height: u64, timestamp: i64) -> spec_fn(Seq<u8>) -> Seq<RecordView> {
    |tx: Seq<u8>|
        match tx_messages(tx) {
            Some(messages) => records_of(height, timestamp, transaction_id_of(tx), messages),
            None => Seq::empty(),
        }
}

/// The function that gives each transaction its messages. One that does not
/// decode has none.
pub open spec fn tx_message_list() -> spec_fn(Seq<u8>) -> Seq<MessageView> {
    |tx: Seq<u8>|
        match tx_messages(tx) {
            Some(messages) => messages,
            None => Seq::empty(),
        }
}

/// Whether a transaction decodes and holds a message with the type tag of a
/// transfer.
pub open spec fn carries_transfer() -> spec_fn(Seq<u8>) -> bool {
    |tx: Seq<u8>| tx_messages(tx) matches Some(messages) && holds_transfer(messages)
}

/// The records of the transactions `txs` of one block: those of the first
/// transaction, then those of the second, and so on.
pub open spec fn block_records(height: u64, timestamp: i64, txs: Seq<Seq<u8>>) -> Seq<RecordView> {
    txs.map_values(tx_records(height, timestamp)).flatten()
}

/// All the messages of the transactions `txs`.
pub open spec fn block_messages(txs: Seq<Seq<u8>>) -> Seq<MessageView> {
    txs.map_values(tx_message_list()).flatten()
}

/// The number of transactions among `txs` that hold a transfer.
pub open spec fn transfer_transactions(txs: Seq<Seq<u8>>) -> nat {
    txs.filter(carries_transfer()).len()
}

/// The counts of the transactions `txs` of one block, with `blocks` as the
/// number of blocks.
pub open spec fn totals_of(height: u64, timestamp: i64, txs: Seq<Seq<u8>>, blocks: u64) -> Totals {
    Totals {
        blocks,
        transactions: clip(transfer_transactions(txs) as int),
        msgs: clip(block_messages(txs).len() as int),
        ibc_msgs: clip(transfer_transactions(txs) as int),
        send_msgs: clip(payments_in(block_records(height, timestamp, txs)) as int),
    }
}

/// What a block, or the part of it that was read, gave.
#[derive(Clone, Debug, PartialEq, Eq)]
pub struct BlockOutcome {
    /// The records to store, in the order of the transactions and, within
    /// one, of its messages.
    pub records: Vec<Record>,
    /// What is counted of the block.
    pub totals: Totals,
}

impl BlockOutcome {
    /// This is the outcome of the transactions `txs`, found at `height` in a
    /// block of time `timestamp`, counted as `blocks` blocks.
    pub open spec fn describes(&self, height: u64, timestamp: i64, txs: Seq<Seq<u8>>, blocks: u64)
        -> bool {
        &&& records_view(self.records@) == block_records(height, timestamp, txs)
        &&& self.totals == totals_of(height, timestamp, txs, blocks)
    }
}

/// Every one of the transactions `txs` decodes.
pub open spec fn decodes(txs: Seq<Seq<u8>>) -> bool {
    forall|i: int| 0 <= i < txs.len() ==> fault_stage(#[trigger] txs[i]) is None
}

/// A block that could not be read to its end.
#[derive(Clone, Debug, PartialEq, Eq)]
pub struct BlockFault {
    /// The place in the block of the first transaction that did not decode.
    pub tx_index: usize,
    /// The step at which it failed.
    pub stage: DecodeStage,
    /// What the transactions before it gave. The block itself is not counted.
    pub done: BlockOutcome,
}

impl BlockFault {
    /// This is the fault of `block`: it names the first of its transactions
    /// that does not decode and the step at which that one fails, and holds
    /// what the transactions before it gave.
    pub open spec fn is_fault_of(&self, block: BlockView) -> bool {
        &&& self.tx_index < block.txs.len()
        &&& decodes(block.txs.take(self.tx_index as int))
        &&& fault_stage(block.txs[self.tx_index as int]) == Some(self.stage)
        &&& self.done.describes(
            block.height,
            block.timestamp,
            block.txs.take(self.tx_index as int),
            0,
        )
    }
}

proof fn lemma_records_view_concat(a: Seq<Record>, b: Seq<Record>)
    ensures
        records_view(a + b) == records_view(a) + records_view(b),
{
    assert(records_view(a + b) =~= records_view(a) + records_view(b));
}

proof fn lemma_payments_concat(a: Seq<RecordView>, b: Seq<RecordView>)
    ensures
        payments_in(a + b) == payments_in(a) + payments_in(b),
        payments_in(a) <= a.len(),
{
    Seq::filter_distributes_over_add(a, b, is_payment());
    a.lemma_filter_len(is_payment());
}

proof fn lemma_block_step(height: u64, timestamp: i64, txs: Seq<Seq<u8>>, i: int)
    requires
        0 <= i < txs.len(),
    ensures
        block_records(height, timestamp, txs.take(i + 1)) == block_records(
            height,
            timestamp,
            txs.take(i),
        ) + tx_records(height, timestamp)(txs[i]),
        block_messages(txs.take(i + 1)) == block_messages(txs.take(i)) + tx_message_list()(txs[i]),
        transfer_transactions(txs.take(i + 1)) == transfer_transactions(txs.take(i)) + (if (
        carries_transfer())(txs[i]) {
            1nat
        } else {
            0nat
        }),
        transfer_transactions(txs.take(i)) <= i,
{
    let before = txs.take(i);
    assert(txs.take(i + 1) =~= before.push(txs[i]));
    before.lemma_push_map_commute(tx_records(height, timestamp), txs[i]);
    before.map_values(tx_records(height, timestamp)).lemma_flatten_push(
        tx_records(height, timestamp)(txs[i]),
    );
    before.lemma_push_map_commute(tx_message_list(), txs[i]);
    before.map_values(tx_message_list()).lemma_flatten_push(tx_message_list()(txs[i]));
    before.lemma_filter_len_push(carries_transfer(), txs[i]);
    before.lemma_filter_len(carries_transfer());
}

/// Reads one block: decodes each of its transactions, classifies their
/// messages and makes the records to store.
///
/// A message that does not decode is passed over. A transaction that does
/// not decode ends the reading: the answer is then the fault, with what the
/// transactions before it gave.
pub fn process_block(block: &Block) -> (r: Result<BlockOutcome, BlockFault>)
    ensures
        match r {
            Ok(outcome) => decodes(block@.txs) && outcome.describes(
                block.height,
                block.timestamp,
                block@.txs,
                1,
            ),
            Err(fault) => fault.is_fault_of(block@),
        },
{
    let height = block.height;
    let timestamp = block.timestamp;
    let ghost all = block@.txs;
    let mut records: Vec<Record> = Vec::new();
    let mut transfers: usize = 0;
    let mut payments: usize = 0;
    let mut msgs: u64 = 0;
    let mut i: usize = 0;
    proof {
        assert(all.take(0) =~= Seq::empty());
        assert(records_view(records@) =~= Seq::empty());
        assert(all.take(0).map_values(tx_records(height, timestamp)) =~= Seq::empty());
        assert(all.take(0).map_values(tx_message_list()) =~= Seq::empty());
    }
    while i < block.txs.len()
        invariant
            i <= block.txs.len(),
            all == block@.txs,
            all.len() == block.txs.len(),
            height == block.height,
            timestamp == block.timestamp,
            forall|j: int| 0 <= j < i ==> fault_stage(#[trigger] all[j]) is None,
            records_view(records@) == block_records(height, timestamp, all.take(i as int)),
            transfers == transfer_transactions(all.take(i as int)),
            payments == payments_in(records_view(records@)),
            msgs == clip(block_messages(all.take(i as int)).len() as int),
        decreases block.txs.len() - i,
    {
        let tx = &block.txs[i];
        assert(all[i as int] == tx@);
        proof {
            lemma_block_step(height, timestamp, all, i as int);
        }
        let mut outcome = match process_transaction(height, timestamp, tx.as_slice()) {
            Ok(outcome) => outcome,
            Err(stage) => {
                let totals = Totals {
                    blocks: 0,
                    transactions: transfers as u64,
                    msgs,
                    ibc_msgs: transfers as u64,
                    send_msgs: payments as u64,
                };
                assert forall|j: int| 0 <= j < all.take(i as int).len() implies fault_stage(
                    #[trigger] all.take(i as int)[j],
                ) is None by {
                    assert(all.take(i as int)[j] == all[j]);
                }
                return Err(
                    BlockFault { tx_index: i, stage, done: BlockOutcome { records, totals } },
                );
            },
        };
        let ghost old_records = records@;
        let ghost new_records = outcome.records@;
        proof {
            lemma_records_view_concat(old_records, new_records);
            lemma_payments_concat(records_view(old_records), records_view(new_records));
            lemma_payments_concat(records_view(old_records + new_records), Seq::empty());
        }
        records.append(&mut outcome.records);
        assert(records@.len() == records.len());
        payments = payments + outcome.payments;
        if outcome.has_transfer {
            transfers = transfers + 1;
        }
        msgs = msgs.saturating_add(outcome.messages as u64);
        i = i + 1;
    }
    assert(all.take(i as int) =~= all);
    let totals = Totals {
        blocks: 1,
        transactions: transfers as u64,
        msgs,
        ibc_msgs: transfers as u64,
        send_msgs: payments as u64,
    };
    Ok(BlockOutcome { records, totals })
}

/// The views of a list of blocks, in order.
pub open spec fn blocks_view(blocks: Seq<Block>) -> Seq<BlockView> {
    blocks.map_values(|b: Block| b@)
}

/// The function that gives each block its records.
pub open spec fn records_of_block() -> spec_fn(BlockView) -> Seq<RecordView> {
    |b: BlockView| block_records(b.height, b.timestamp, b.txs)
}

/// The function that gives each block its transactions.
pub open spec fn txs_of_block() -> spec_fn(BlockView) -> Seq<Seq<u8>> {
    |b: BlockView| b.txs
}

/// The records of the blocks of one answer: those of the first block, then
/// those of the second, and so on.
pub open spec fn batch_records(blocks: Seq<BlockView>) -> Seq<RecordView> {
    blocks.map_values(records_of_block()).flatten()
}

/// All the transactions of the blocks of one answer.
pub open spec fn batch_txs(blocks: Seq<BlockView>) -> Seq<Seq<u8>> {
    blocks.map_values(txs_of_block()).flatten()
}

/// The counts of the blocks of one answer.
pub open spec fn batch_totals(blocks: Seq<BlockView>) -> Totals {
    Totals {
        blocks: clip(blocks.len() as int),
        transactions: clip(transfer_transactions(batch_txs(blocks)) as int),
        msgs: clip(block_messages(batch_txs(blocks)).len() as int),
        ibc_msgs: clip(transfer_transactions(batch_txs(blocks)) as int),
        send_msgs: clip(payments_in(batch_records(blocks)) as int),
    }
}

/// Every transaction of every one of `blocks` decodes.
pub open spec fn batch_decodes(blocks: Seq<BlockView>) -> bool {
    forall|i: int| 0 <= i < blocks.len() ==> decodes((#[trigger] blocks[i]).txs)
}

impl BlockOutcome {
    /// This is the outcome of the blocks `blocks` together.
    pub open spec fn describes_batch(&self, blocks: Seq<BlockView>) -> bool {
        &&& records_view(self.records@) == batch_records(blocks)
        &&& self.totals == batch_totals(blocks)
    }
}

/// An answer of several blocks that could not be read to its end.
#[derive(Clone, Debug, PartialEq, Eq)]
pub struct BatchFault {
    /// The place in the answer of the first block that could not be read.
    pub block_index: usize,
    /// The fault of that block.
    pub fault: BlockFault,
    /// What the blocks before it gave.
    pub done: BlockOutcome,
}

impl BatchFault {
    /// This is the fault of the answer `blocks`: it names the first block
    /// with a transaction that does not decode, and holds that block's fault
    /// and what the blocks before it gave.
    pub open spec fn is_fault_of(&self, blocks: Seq<BlockView>) -> bool {
        &&& self.block_index < blocks.len()
        &&& batch_decodes(blocks.take(self.block_index as int))
        &&& self.fault.is_fault_of(blocks[self.block_index as int])
        &&& self.done.describes_batch(blocks.take(self.block_index as int))
    }
}

proof fn lemma_transfers_concat(a: Seq<Seq<u8>>, b: Seq<Seq<u8>>)
    ensures
        transfer_transactions(a + b) == transfer_transactions(a) + transfer_transactions(b),
{
    Seq::filter_distributes_over_add(a, b, carries_transfer());
}

proof fn lemma_messages_concat(a: Seq<Seq<u8>>, b: Seq<Seq<u8>>)
    ensures
        block_messages(a + b) == block_messages(a) + block_messages(b),
{
    assert((a + b).map_values(tx_message_list()) =~= a.map_values(tx_message_list())
        + b.map_values(tx_message_list()));
    lemma_flatten_concat(a.map_values(tx_message_list()), b.map_values(tx_message_list()));
}

proof fn lemma_batch_step(blocks: Seq<BlockView>, i: int)
    requires
        0 <= i < blocks.len(),
    ensures
        batch_records(blocks.take(i + 1)) == batch_records(blocks.take(i)) + block_records(
            blocks[i].height,
            blocks[i].timestamp,
            blocks[i].txs,
        ),
        batch_totals(blocks.take(i + 1)) == batch_totals(blocks.take(i)).sum(
            totals_of(blocks[i].height, blocks[i].timestamp, blocks[i].txs, 1),
        ),
{
    let before = blocks.take(i);
    let block = blocks[i];
    assert(blocks.take(i + 1) =~= before.push(block));
    before.lemma_push_map_commute(records_of_block(), block);
    before.map_values(records_of_block()).lemma_flatten_push(records_of_block()(block));
    before.lemma_push_map_commute(txs_of_block(), block);
    before.map_values(txs_of_block()).lemma_flatten_push(block.txs);
    lemma_transfers_concat(batch_txs(before), block.txs);
    lemma_messages_concat(batch_txs(before), block.txs);
    lemma_payments_concat(
        batch_records(before),
        block_records(block.height, block.timestamp, block.txs),
    );
}

/// An answer without blocks gives no record and counts nothing.
pub proof fn lemma_empty_batch()
    ensures
        batch_records(Seq::empty()) == Seq::<RecordView>::empty(),
        batch_totals(Seq::empty()) == Totals::zero(),
        batch_decodes(Seq::empty()),
{
    let none = Seq::<BlockView>::empty();
    assert(none.map_values(records_of_block()) =~= Seq::empty());
    assert(none.map_values(txs_of_block()) =~= Seq::empty());
    assert(batch_txs(none).map_values(tx_message_list()) =~= Seq::empty());
    assert(batch_txs(none).filter(carries_transfer()) =~= Seq::empty());
    assert(batch_records(none).filter(is_payment()) =~= Seq::empty());
}

/// Reads the blocks of one answer, one after the other, and adds up what
/// they gave.
///
/// A block with a transaction that does not decode ends the reading: the
/// answer is then the fault, with what the blocks before it gave.
pub fn process_batch(blocks: &Vec<Block>) -> (r: Result<BlockOutcome, BatchFault>)
    ensures
        match r {
            Ok(outcome) => batch_decodes(blocks_view(blocks@)) && outcome.describes_batch(
                blocks_view(blocks@),
            ),
            Err(fault) => fault.is_fault_of(blocks_view(blocks@)),
        },
{
    let ghost all = blocks_view(blocks@);
    let mut records: Vec<Record> = Vec::new();
    let mut totals = Totals::new();
    let mut i: usize = 0;
    proof {
        assert(all.take(0) =~= Seq::empty());
        assert(records_view(records@) =~= Seq::empty());
        assert(all.take(0).map_values(records_of_block()) =~= Seq::empty());
        assert(all.take(0).map_values(txs_of_block()) =~= Seq::empty());
        assert(batch_txs(all.take(0)).map_values(tx_message_list()) =~= Seq::empty());
        assert(batch_txs(all.take(0)).filter(carries_transfer()) =~= Seq::empty());
        assert(batch_records(all.take(0)).filter(is_payment()) =~= Seq::empty());
    }
    while i < blocks.len()
        invariant
            i <= blocks.len(),
            all == blocks_view(blocks@),
            forall|j: int| 0 <= j < i ==> decodes((#[trigger] all[j]).txs),
            records_view(records@) == batch_records(all.take(i as int)),
            totals == batch_totals(all.take(i as int)),
        decreases blocks.len() - i,
    {
        let block = &blocks[i];
        assert(all[i as int] == block@);
        proof {
            lemma_batch_step(all, i as int);
        }
        let mut outcome = match process_block(block) {
            Ok(outcome) => outcome,
            Err(fault) => {
                assert forall|j: int| 0 <= j < all.take(i as int).len() implies decodes(
                    (#[trigger] all.take(i as int)[j]).txs,
                ) by {
                    assert(all.take(i as int)[j] == all[j]);
                }
                return Err(
                    BatchFault { block_index: i, fault, done: BlockOutcome { records, totals } },
                );
            },
        };
        proof {
            lemma_records_view_concat(records@, outcome.records@);
        }
        records.append(&mut outcome.records);
        totals = totals.plus(outcome.totals);
        i = i + 1;
    }
    assert(all.take(i as int) =~= all);
    Ok(BlockOutcome { records, totals })
}

} // verus!
