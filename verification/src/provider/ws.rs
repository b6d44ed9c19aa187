//! New heads from a Starknet websocket subscription.

use vstd::prelude::*;

use super::felt::{decode_hex_felt, felt_bytes, felt_text};
use crate::json::{
    json_of, json_text, new_object, no_members, object_value, set_member, singleton_value,
    string_value, u64_value, value_text, Json,
};

verus! {

/// Why the provider failed.
#[derive(Clone, Copy, Debug, PartialEq, Eq, Structural)]
pub enum StarknetProviderError {
    /// The request failed, or its answer cannot be read.
    Request,
}

/// The hash of a block.
#[derive(Debug, PartialEq, Eq)]
pub struct Hash(pub Vec<u8>);

/// A place in the chain.
#[derive(Debug, PartialEq, Eq)]
pub struct Cursor {
    pub number: u64,
    pub hash: Hash,
}

/// A new head of the chain.
#[derive(Debug, PartialEq, Eq)]
pub struct NewHeadMessage {
    pub block_number: u64,
    pub block_hash: Hash,
}

/// The block of a notification.
#[derive(Debug, PartialEq, Eq)]
pub struct WsBlockResult {
    pub block_hash: String,
    pub block_number: u64,
}

/// The parameters of a notification.
#[derive(Debug, PartialEq, Eq)]
pub struct WsParams {
    pub result: WsBlockResult,
}

/// A message of the subscription. What is no notification has no parameters.
#[derive(Debug, PartialEq, Eq)]
pub struct WsMessage {
    pub params: Option<WsParams>,
}

/// A message of the websocket.
#[derive(Debug, PartialEq, Eq)]
pub enum SocketMessage {
    /// A text, read as a message of the subscription where it is one.
    Text(Option<WsMessage>),
    /// Anything else.
    Other,
}

/// What a message of the websocket says: a new head with its number and hash,
/// nothing, or something that cannot be read.
pub open spec fn head_of(message: SocketMessage) -> Result<
    Option<(u64, Seq<u8>)>,
    StarknetProviderError,
> {
    match message {
        SocketMessage::Other => Ok(None),
        SocketMessage::Text(None) => Err(StarknetProviderError::Request),
        SocketMessage::Text(Some(message)) => match message.params {
            None => Ok(None),
            Some(params) => match felt_bytes(params.result.block_hash@) {
                Ok(hash) => Ok(Some((params.result.block_number, hash))),
                Err(_) => Err(StarknetProviderError::Request),
            },
        },
    }
}

impl NewHeadMessage {
    /// What this head says.
    pub open spec fn said(self) -> (u64, Seq<u8>) {
        (self.block_number, self.block_hash.0@)
    }

    /// The place of this head in the chain.
    pub fn cursor(&self) -> (r: Cursor)
        ensures
            r.number == self.block_number,
            r.hash.0@ == self.block_hash.0@,
    {
        let mut hash: Vec<u8> = Vec::new();
        hash.extend_from_slice(self.block_hash.0.as_slice());
        assert(hash@ =~= self.block_hash.0@);
        Cursor { number: self.block_number, hash: Hash(hash) }
    }

    /// Reads a new head out of a message, if it holds one.
    pub fn try_from_message(msg: SocketMessage) -> (r: Result<Option<Self>, StarknetProviderError>)
        ensures
            match r {
                Ok(Some(head)) => head_of(msg) == Ok::<
                    Option<(u64, Seq<u8>)>,
                    StarknetProviderError,
                >(Some(head.said())),
                Ok(None) => head_of(msg) == Ok::<Option<(u64, Seq<u8>)>, StarknetProviderError>(
                    None,
                ),
                Err(e) => head_of(msg) == Err::<Option<(u64, Seq<u8>)>, StarknetProviderError>(e),
            },
    {
        let message: WsMessage = match msg {
            SocketMessage::Text(Some(message)) => message,
            SocketMessage::Text(None) => {
                return Err(StarknetProviderError::Request);
            },
            SocketMessage::Other => {
                return Ok(None);
            },
        };
        let params: WsParams = match message.params {
            Some(params) => params,
            None => {
                return Ok(None);
            },
        };
        match decode_hex_felt(params.result.block_hash.as_str()) {
            Ok(hash) => Ok(
                Some(
                    NewHeadMessage {
                        block_number: params.result.block_number,
                        block_hash: Hash(hash),
                    },
                ),
            ),
            Err(_) => Err(StarknetProviderError::Request),
        }
    }
}

/// What polling the websocket gave.
#[derive(Debug, PartialEq, Eq)]
pub enum SocketPoll {
    /// Nothing yet.
    Pending,
    /// The websocket is closed.
    Closed,
    /// The websocket failed.
    Failed,
    /// A message.
    Message(SocketMessage),
}

/// What polling the heads gives.
#[derive(Debug, PartialEq, Eq)]
pub enum HeadPoll {
    /// Nothing yet. Where the websocket had something that was no head, it is
    /// to be polled again at once: nothing else will bring that about.
    Pending { poll_again: bool },
    /// There are no more heads.
    End,
    /// A new head, or a failure.
    Item(Result<NewHeadMessage, StarknetProviderError>),
}

/// The new heads of a subscription.
#[derive(Clone, Copy, Debug, PartialEq, Eq, Structural)]
pub struct NewHeadsStream;

impl NewHeadsStream {
    /// The request that a new connection is opened with: a subscription from
    /// the latest block on.
    pub fn connect() -> (r: SubscribeRequest)
        ensures
            r.block_id == ConfirmedBlockId::Latest,
    {
        SubscribeRequest { block_id: ConfirmedBlockId::Latest }
    }

    /// What polling the heads gives when the websocket gave this. A message
    /// without a head leaves the heads pending, and asks for another poll.
    pub fn poll_next(&self, polled: SocketPoll) -> (r: HeadPoll)
        ensures
            match polled {
                SocketPoll::Pending => r == (HeadPoll::Pending { poll_again: false }),
                SocketPoll::Closed => r == HeadPoll::End,
                SocketPoll::Failed => r == HeadPoll::Item(Err(StarknetProviderError::Request)),
                SocketPoll::Message(message) => match head_of(message) {
                    Ok(None) => r == (HeadPoll::Pending { poll_again: true }),
                    Ok(Some(said)) => r matches HeadPoll::Item(Ok(head)) && head.said() == said,
                    Err(e) => r == HeadPoll::Item(Err(e)),
                },
            },
    {
        match polled {
            SocketPoll::Pending => HeadPoll::Pending { poll_again: false },
            SocketPoll::Closed => HeadPoll::End,
            SocketPoll::Failed => HeadPoll::Item(Err(StarknetProviderError::Request)),
            SocketPoll::Message(message) => match NewHeadMessage::try_from_message(message) {
                Ok(None) => HeadPoll::Pending { poll_again: true },
                Ok(Some(head)) => HeadPoll::Item(Ok(head)),
                Err(e) => HeadPoll::Item(Err(e)),
            },
        }
    }
}

/// A confirmed block.
#[derive(Clone, Copy, Debug, PartialEq, Eq)]
pub enum ConfirmedBlockId {
    /// The block with this hash, the highest byte first.
    Hash([u8; 32]),
    /// The block with this number.
    Number(u64),
    /// The latest confirmed block.
    Latest,
    /// The latest block that is accepted on the base layer.
    L1Accepted,
}

/// An object with one member.
pub open spec fn singleton_object(name: Seq<char>, value: Json) -> Json {
    Json::Object(no_members().insert(name, value))
}

/// Serialises a `ConfirmedBlockId` of `starknet_rust_core` with
/// `serde_json::to_value`: a hash or a number as an object with one member, a
/// tag as a string. A hash is made by `Felt::from_bytes_be`, which takes the
/// bytes modulo the prime, and written with `0x` and without leading zeros.
#[verifier::external_body]
fn block_id_value(block_id: &ConfirmedBlockId) -> (r: serde_json::Value)
    ensures
        match *block_id {
            ConfirmedBlockId::Hash(hash) => json_of(r) == singleton_object(
                "block_hash"@,
                Json::Str(felt_text(hash@)),
            ),
            ConfirmedBlockId::Number(n) => json_of(r) == singleton_object(
                "block_number"@,
                Json::Int(n as int),
            ),
            ConfirmedBlockId::Latest => json_of(r) == Json::Str("latest"@),
            ConfirmedBlockId::L1Accepted => json_of(r) == Json::Str("l1_accepted"@),
        },
{
    let block_id = match block_id {
        ConfirmedBlockId::Hash(hash) => starknet_rust_core::types::ConfirmedBlockId::Hash(
            starknet_rust_core::types::Felt::from_bytes_be(hash),
        ),
        ConfirmedBlockId::Number(n) => starknet_rust_core::types::ConfirmedBlockId::Number(*n),
        ConfirmedBlockId::Latest => starknet_rust_core::types::ConfirmedBlockId::Latest,
        ConfirmedBlockId::L1Accepted => starknet_rust_core::types::ConfirmedBlockId::L1Accepted,
    };
    serde_json::to_value(block_id).expect("a block id is serialisable")
}

/// A block id in JSON.
pub open spec fn block_id_json(block_id: ConfirmedBlockId) -> Json {
    match block_id {
        ConfirmedBlockId::Hash(hash) => singleton_object(
            "block_hash"@,
            Json::Str(felt_text(hash@)),
        ),
        ConfirmedBlockId::Number(n) => singleton_object("block_number"@, Json::Int(n as int)),
        ConfirmedBlockId::Latest => Json::Str("latest"@),
        ConfirmedBlockId::L1Accepted => Json::Str("l1_accepted"@),
    }
}

/// The call that subscribes to new heads.
pub open spec fn subscription(block_id: ConfirmedBlockId) -> Json {
    Json::Object(
        no_members().insert("jsonrpc"@, Json::Str("2.0"@)).insert("id"@, Json::Int(0)).insert(
            "method"@,
            Json::Str("starknet_subscribeNewHeads"@),
        ).insert("params"@, Json::Array(seq![block_id_json(block_id)])),
    )
}

/// A subscription to the new heads from a block on.
#[derive(Clone, Copy, Debug, PartialEq, Eq)]
pub struct SubscribeRequest {
    pub block_id: ConfirmedBlockId,
}

impl SubscribeRequest {
    /// The request as it is sent: a JSON-RPC call.
    pub fn into_string(self) -> (r: String)
        ensures
            r@ == json_text(subscription(self.block_id)),
    {
        let mut payload = new_object();
        set_member(&mut payload, "jsonrpc", string_value("2.0"));
        set_member(&mut payload, "id", u64_value(0));
        set_member(&mut payload, "method", string_value("starknet_subscribeNewHeads"));
        set_member(&mut payload, "params", singleton_value(block_id_value(&self.block_id)));
        value_text(&object_value(payload))
    }
}

/// Law: what is no text, and a text that is no notification, says nothing:
/// neither a head nor a failure.
pub proof fn messages_without_heads_are_passed_over(message: SocketMessage)
    ensures
        message is Other ==> head_of(message) == Ok::<
            Option<(u64, Seq<u8>)>,
            StarknetProviderError,
        >(None),
        message matches SocketMessage::Text(Some(m)) && m.params is None ==> head_of(message)
            == Ok::<Option<(u64, Seq<u8>)>, StarknetProviderError>(None),
{
}

/// Law: a notification whose hash is written in full is read as the head with
/// that number and hash.
pub proof fn notified_head_is_read(params: WsParams, hash: Seq<u8>)
    requires
        params.result.block_hash@ == "0x"@ + super::felt::hex_text(hash),
    ensures
        head_of(SocketMessage::Text(Some(WsMessage { params: Some(params) }))) == Ok::<
            Option<(u64, Seq<u8>)>,
            StarknetProviderError,
        >(Some((params.result.block_number, hash))),
{
    super::felt::written_felt_is_read_back(hash);
}

/// Law: every notification whose hash is written in hexadecimal digits, with
/// leading zeros or without, is read as a head: with the number that was
/// notified, and with a hash of half as many bytes, rounded up, that is the same
/// number as the digits write.
pub proof fn every_notified_head_is_read(params: WsParams, digits: Seq<char>)
    requires
        super::felt::is_hexadecimal(digits),
        params.result.block_hash@ == digits || params.result.block_hash@ == "0x"@ + digits,
    ensures
        head_of(SocketMessage::Text(Some(WsMessage { params: Some(params) }))) matches Ok(
            Some(said),
        ) && said.0 == params.result.block_number && super::felt::bytes_number(said.1)
            == super::felt::text_number(digits) && said.1.len() == (digits.len() + 1) / 2,
{
    super::felt::decoding_keeps_the_number(digits);
}

/// Law: a message is a failure exactly when it is a text that cannot be read,
/// or a notification whose hash cannot be. It is a head exactly when it is any
/// other notification.
pub proof fn only_unreadable_messages_fail(message: SocketMessage)
    ensures
        head_of(message) is Err <==> match message {
            SocketMessage::Text(None) => true,
            SocketMessage::Text(Some(read)) => read.params is Some && felt_bytes(
                read.params->0.result.block_hash@,
            ) is Err,
            SocketMessage::Other => false,
        },
        head_of(message) is Ok && head_of(message)->Ok_0 is Some ==> (message matches SocketMessage::Text(
            Some(read),
        ) && read.params is Some && (head_of(message)->Ok_0->0).0
            == read.params->0.result.block_number),
        head_of(message) is Ok && head_of(message)->Ok_0 is None ==> (message is Other || (message
            matches SocketMessage::Text(Some(read)) && read.params is None)),
{
}

/// Law: a subscription is a JSON-RPC call with the block that it starts from as
/// its one parameter. A hash is written as a number of the field, with `0x` and
/// without leading zeros.
pub proof fn subscription_names_its_block(block_id: ConfirmedBlockId)
    ensures
        ({
            let members = subscription(block_id)->Object_0;
            &&& subscription(block_id) is Object
            &&& members.dom() =~= set!["jsonrpc"@, "id"@, "method"@, "params"@]
            &&& members["jsonrpc"@] == Json::Str("2.0"@)
            &&& members["id"@] == Json::Int(0)
            &&& members["method"@] == Json::Str("starknet_subscribeNewHeads"@)
            &&& members["params"@] matches Json::Array(params)
            &&& params.len() == 1
            &&& block_id == ConfirmedBlockId::Latest ==> params[0] == Json::Str("latest"@)
            &&& block_id == ConfirmedBlockId::L1Accepted ==> params[0] == Json::Str("l1_accepted"@)
            &&& block_id matches ConfirmedBlockId::Number(n) ==> params[0] == Json::Object(
                map!["block_number"@ => Json::Int(n as int)],
            )
            &&& block_id matches ConfirmedBlockId::Hash(hash) ==> {
                &&& params[0] matches Json::Object(named)
                &&& named.dom() =~= set!["block_hash"@]
                &&& named["block_hash"@] matches Json::Str(text)
                &&& text.len() >= 3
                &&& text.take(2) == "0x"@
                &&& super::felt::is_hexadecimal(text.skip(2))
                &&& super::felt::text_number(text.skip(2)) == super::felt::bytes_number(hash@)
                    % super::felt::field_prime()
                &&& text[2] == '0' <==> super::felt::bytes_number(hash@)
                    % super::felt::field_prime() == 0
            }
        }),
{
    reveal_strlit("jsonrpc");
    reveal_strlit("id");
    reveal_strlit("method");
    reveal_strlit("params");
    assert("jsonrpc"@.len() == 7 && "id"@.len() == 2 && "method"@.len() == 6 && "params"@.len()
        == 6);
    assert("method"@[0] != "params"@[0]);
    if let ConfirmedBlockId::Number(n) = block_id {
        assert(no_members().insert("block_number"@, Json::Int(n as int))
            =~= map!["block_number"@ => Json::Int(n as int)]);
    }
    if let ConfirmedBlockId::Hash(hash) = block_id {
        super::felt::compact_felt_is_read_back(hash@);
        reveal_strlit("0x");
        assert(felt_text(hash@).take(2) =~= "0x"@);
    }
}

/// Law: a head says the number and the hash that it holds.
pub proof fn head_says_what_it_holds(head: NewHeadMessage)
    ensures
        head.said().0 == head.block_number,
        head.said().1 == head.block_hash.0@,
{
}

}
