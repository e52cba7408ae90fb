//! The normalized messages that the indexer stores, the blocks it reads them
//! from, and the mathematical view of each.

use vstd::prelude::*;

verus! {

/// A denomination and an amount, both kept as the text the chain gave.
#[derive(Clone, Debug, PartialEq, Eq)]
pub struct CustomCoin {
    pub denom: String,
    pub amount: String,
}

pub struct CoinView {
    pub denom: Seq<char>,
    pub amount: Seq<char>,
}

impl View for CustomCoin {
    type V = CoinView;

    open spec fn view(&self) -> CoinView {
        CoinView { denom: self.denom@, amount: self.amount@ }
    }
}

impl CustomCoin {
    pub fn new(denom: String, amount: String) -> (c: CustomCoin)
        ensures
            c.denom == denom,
            c.amount == amount,
    {
        CustomCoin { denom, amount }
    }
}

/// The views of a list of coins, in order.
pub open spec fn coins_view(coins: Seq<CustomCoin>) -> Seq<CoinView> {
    coins.map_values(|c: CustomCoin| c@)
}

/// A timeout height of a cross-chain transfer.
#[derive(Clone, Copy, Debug, PartialEq, Eq, Structural)]
pub struct CustomHeight {
    pub revision_number: u64,
    pub revision_height: u64,
}

impl CustomHeight {
    pub fn new(revision_number: u64, revision_height: u64) -> (h: CustomHeight)
        ensures
            h.revision_number == revision_number,
            h.revision_height == revision_height,
    {
        CustomHeight { revision_number, revision_height }
    }
}

/// A payment: who sent, who received, and the coins in the order given.
#[derive(Clone, Debug, PartialEq, Eq)]
pub struct CustomMsgSend {
    pub from_address: String,
    pub to_address: String,
    pub amount: Vec<CustomCoin>,
}

pub struct SendView {
    pub from_address: Seq<char>,
    pub to_address: Seq<char>,
    pub amount: Seq<CoinView>,
}

impl View for CustomMsgSend {
    type V = SendView;

    open spec fn view(&self) -> SendView {
        SendView {
            from_address: self.from_address@,
            to_address: self.to_address@,
            amount: coins_view(self.amount@),
        }
    }
}

/// A cross-chain transfer. `token` holds the one coin of the message, or
/// nothing where the message carried none.
#[derive(Clone, Debug, PartialEq, Eq)]
pub struct CustomMsgTransfer {
    pub source_port: String,
    pub source_channel: String,
    pub token: Vec<CustomCoin>,
    pub sender: String,
    pub receiver: String,
    pub timeout_height: Option<CustomHeight>,
    pub timeout_timestamp: u64,
}

pub struct TransferView {
    pub source_port: Seq<char>,
    pub source_channel: Seq<char>,
    pub token: Seq<CoinView>,
    pub sender: Seq<char>,
    pub receiver: Seq<char>,
    pub timeout_height: Option<CustomHeight>,
    pub timeout_timestamp: u64,
}

impl View for CustomMsgTransfer {
    type V = TransferView;

    open spec fn view(&self) -> TransferView {
        TransferView {
            source_port: self.source_port@,
            source_channel: self.source_channel@,
            token: coins_view(self.token@),
            sender: self.sender@,
            receiver: self.receiver@,
            timeout_height: self.timeout_height,
            timeout_timestamp: self.timeout_timestamp,
        }
    }
}

/// One message of a transaction body before it is classified: its type tag
/// and its still encoded payload.
#[derive(Clone, Debug, PartialEq, Eq)]
pub struct TypedMessage {
    pub type_url: String,
    pub value: Vec<u8>,
}

pub struct MessageView {
    pub type_url: Seq<char>,
    pub value: Seq<u8>,
}

impl View for TypedMessage {
    type V = MessageView;

    open spec fn view(&self) -> MessageView {
        MessageView { type_url: self.type_url@, value: self.value@ }
    }
}

impl TypedMessage {
    pub fn new(type_url: String, value: Vec<u8>) -> (m: TypedMessage)
        ensures
            m.type_url == type_url,
            m.value == value,
    {
        TypedMessage { type_url, value }
    }
}

/// The views of a list of messages, in order.
pub open spec fn messages_view(messages: Seq<TypedMessage>) -> Seq<MessageView> {
    messages.map_values(|m: TypedMessage| m@)
}

/// A block as the indexer reads it: its height, its time in seconds since the
/// epoch, and its transactions as the raw bytes of their signed envelopes.
#[derive(Clone, Debug, PartialEq, Eq)]
pub struct Block {
    pub height: u64,
    pub timestamp: i64,
    pub txs: Vec<Vec<u8>>,
}

pub struct BlockView {
    pub height: u64,
    pub timestamp: i64,
    pub txs: Seq<Seq<u8>>,
}

impl View for Block {
    type V = BlockView;

    open spec fn view(&self) -> BlockView {
        BlockView {
            height: self.height,
            timestamp: self.timestamp,
            txs: self.txs@.map_values(|tx: Vec<u8>| tx@),
        }
    }
}

} // verus!
