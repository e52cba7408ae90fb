//! The calls that decode the chain's binary envelopes and digest their bytes.
//!
//! The functions marked `external_body` are not proved: each hands its
//! argument to a decoder or a hash outside this crate, and its contract only
//! gives the answer a name so that the rest of the library can speak of it.

use cosmos_sdk_proto_althea::cosmos::bank::v1beta1::MsgSend;
use cosmos_sdk_proto_althea::cosmos::tx::v1beta1::{TxBody, TxRaw};
use cosmos_sdk_proto_althea::ibc::applications::transfer::v1::MsgTransfer;
use crate::message::{
    CustomCoin, CustomHeight, CustomMsgSend, CustomMsgTransfer, MessageView, SendView,
    TransferView, TypedMessage, messages_view,
};
use deep_space::utils::decode_any;
use vstd::prelude::*;

verus! {

/// The body bytes that the signed envelope `tx` carries, or `None` where `tx`
/// is no well-formed envelope.
pub uninterp spec fn envelope_body(tx: Seq<u8>) -> Option<Seq<u8>>;

/// The messages of the transaction body `body`, in order, or `None` where
/// `body` is no well-formed transaction body.
pub uninterp spec fn body_messages(body: Seq<u8>) -> Option<Seq<MessageView>>;

/// The payment that the payload `value` encodes, or `None` where it encodes
/// none.
pub uninterp spec fn send_fields(value: Seq<u8>) -> Option<SendView>;

/// The transfer that the payload `value` encodes, or `None` where it encodes
/// none.
pub uninterp spec fn transfer_fields(value: Seq<u8>) -> Option<TransferView>;

/// The SHA-256 digest of `data`, as hexadecimal text.
pub uninterp spec fn sha256_hex(data: Seq<u8>) -> Seq<char>;

/// The uppercase equivalent of `text`.
pub uninterp spec fn uppercased(text: Seq<char>) -> Seq<char>;

pub open spec fn option_bytes_view(r: Option<Vec<u8>>) -> Option<Seq<u8>> {
    match r {
        Some(v) => Some(v@),
        None => None,
    }
}

pub open spec fn option_messages_view(r: Option<Vec<TypedMessage>>) -> Option<Seq<MessageView>> {
    match r {
        Some(v) => Some(messages_view(v@)),
        None => None,
    }
}

pub open spec fn option_send_view(r: Option<CustomMsgSend>) -> Option<SendView> {
    match r {
        Some(m) => Some(m@),
        None => None,
    }
}

pub open spec fn option_transfer_view(r: Option<CustomMsgTransfer>) -> Option<TransferView> {
    match r {
        Some(m) => Some(m@),
        None => None,
    }
}

/// Calls `deep_space::utils::decode_any` for a `TxRaw`, which decodes the
/// bytes given as the value of the `Any` and does not look at its type tag,
/// so none is given. Trusted: the answer depends on the bytes alone; a
/// decoding error becomes `None`, and of a decoded envelope the body bytes
/// are handed on.
#[verifier::external_body]
pub(crate) fn decode_envelope(tx: &[u8]) -> (r: Option<Vec<u8>>)
    ensures
        option_bytes_view(r) == envelope_body(tx@),
{
    let any = prost_types::Any { type_url: String::new(), value: tx.to_vec() };
    match decode_any::<TxRaw>(any) {
        Ok(raw) => Some(raw.body_bytes),
        Err(_) => None,
    }
}

/// Calls `deep_space::utils::decode_any` for a `TxBody`. Trusted: the answer
/// depends on the bytes alone; a decoding error becomes `None`, and of a
/// decoded body the messages are handed on in their order, each with its type
/// tag and its payload.
#[verifier::external_body]
pub(crate) fn decode_body(body: &[u8]) -> (r: Option<Vec<TypedMessage>>)
    ensures
        option_messages_view(r) == body_messages(body@),
{
    let any = prost_types::Any { type_url: String::new(), value: body.to_vec() };
    match decode_any::<TxBody>(any) {
        Ok(b) => Some(b.messages.into_iter().map(|m| TypedMessage::new(m.type_url, m.value)).collect()),
        Err(_) => None,
    }
}

/// Calls `deep_space::utils::decode_any` for a bank `MsgSend`. Trusted: the
/// answer depends on the bytes alone; a decoding error becomes `None`, and a
/// decoded message is handed on field by field, its coins in their order.
#[verifier::external_body]
pub(crate) fn decode_send(value: &[u8]) -> (r: Option<CustomMsgSend>)
    ensures
        option_send_view(r) == send_fields(value@),
{
    let any = prost_types::Any { type_url: String::new(), value: value.to_vec() };
    match decode_any::<MsgSend>(any) {
        Ok(m) => Some(CustomMsgSend {
            from_address: m.from_address,
            to_address: m.to_address,
            amount: m.amount.into_iter().map(|c| CustomCoin::new(c.denom, c.amount)).collect(),
        }),
        Err(_) => None,
    }
}

/// Calls `deep_space::utils::decode_any` for an IBC `MsgTransfer`. Trusted:
/// the answer depends on the bytes alone; a decoding error becomes `None`,
/// and a decoded message is handed on field by field, without its memo.
#[verifier::external_body]
pub(crate) fn decode_transfer(value: &[u8]) -> (r: Option<CustomMsgTransfer>)
    ensures
        option_transfer_view(r) == transfer_fields(value@),
{
    let any = prost_types::Any { type_url: String::new(), value: value.to_vec() };
    match decode_any::<MsgTransfer>(any) {
        Ok(m) => Some(CustomMsgTransfer {
            source_port: m.source_port,
            source_channel: m.source_channel,
            token: m.token.into_iter().map(|c| CustomCoin::new(c.denom, c.amount)).collect(),
            sender: m.sender,
            receiver: m.receiver,
            timeout_height: m.timeout_height.map(|h| CustomHeight::new(h.revision_number, h.revision_height)),
            timeout_timestamp: m.timeout_timestamp,
        }),
        Err(_) => None,
    }
}

/// Calls `sha256::digest` on a byte slice, which hashes the bytes with
/// SHA-256 and writes the digest in hexadecimal. Trusted: the text depends on
/// the bytes alone.
#[verifier::external_body]
pub(crate) fn digest_hex(data: &[u8]) -> (r: String)
    ensures
        r@ == sha256_hex(data@),
{
    sha256::digest(data)
}

/// Calls `str::to_uppercase`. Trusted: the text returned depends on the text
/// given alone.
#[verifier::external_body]
pub(crate) fn to_upper(text: &str) -> (r: String)
    ensures
        r@ == uppercased(text@),
{
    text.to_uppercase()
}

/// The identifier of a transaction: the digest of the raw bytes of its
/// envelope, in uppercase hexadecimal.
pub open spec fn transaction_id_of(tx: Seq<u8>) -> Seq<char> {
    uppercased(sha256_hex(tx))
}

/// Computes the identifier of the transaction whose envelope is `tx`. The
/// bytes are digested as they are, so the identifier exists whether or not
/// the envelope can be decoded.
pub fn transaction_id(tx: &[u8]) -> (id: String)
    ensures
        id@ == transaction_id_of(tx@),
{
    let hex = digest_hex(tx);
    to_upper(hex.as_str())
}

} // verus!
