//! Reading, writing and watching the ingestion state.
//!
//! The state lives in a key/value store. A client method either says which
//! request to send ([`KvRequest`]) or reads the answer that came back.

use vstd::prelude::*;
use vstd::string::*;
use vstd::utf8::*;

use crate::text::{ends_with, parse_u64, quoted, u64_text, utf8_text};

verus! {

/// The prefix that consumers watch.
pub const INGESTION_PREFIX_KEY: &'static str = "ingestion/";

/// The pointer to the recent canonical chain segment.
pub const RECENT_KEY: &'static str = "ingestion/recent";

/// Written by ingesters that predate the pointer to the recent segment. It
/// held the version of the single mutable `canon/recent` object, and is only
/// read as a fallback and cleaned up.
pub const LEGACY_INGESTED_KEY: &'static str = "ingestion/ingested";

/// The generation of the pending block.
pub const PENDING_KEY: &'static str = "ingestion/pending";

/// The first block of the chain that is ingested.
pub const STARTING_BLOCK_KEY: &'static str = "ingestion/starting_block";

/// The last finalized block.
pub const FINALIZED_KEY: &'static str = "ingestion/finalized";

/// The last block that is part of a segment.
pub const SEGMENTED_KEY: &'static str = "ingestion/segmented";

/// The last block that is part of a group.
pub const GROUPED_KEY: &'static str = "ingestion/grouped";

/// The last pruned block. It is kept out of the watched prefix, so that
/// watchers are not woken by pruning.
pub const PRUNED_KEY: &'static str = "compaction/pruned";

/// Talking to the store failed, or what it holds cannot be read.
#[derive(Clone, Copy, Debug, PartialEq, Eq, Structural)]
pub struct IngestionStateClientError;

impl IngestionStateClientError {
    /// The message of the error.
    pub fn message(&self) -> (r: &'static str)
        ensures
            r@ == "ingestion state client error"@,
    {
        "ingestion state client error"
    }
}

/// Where the recent canonical chain segment is stored.
#[derive(Debug, PartialEq, Eq)]
pub struct RecentSegmentPointer {
    pub key: String,
    pub version: String,
    pub first_block: u64,
    pub last_block: u64,
}

impl Clone for RecentSegmentPointer {
    fn clone(&self) -> (r: Self)
        ensures
            r == *self,
    {
        RecentSegmentPointer {
            key: self.key.clone(),
            version: self.version.clone(),
            first_block: self.first_block,
            last_block: self.last_block,
        }
    }
}

/// A change of the ingestion state.
#[derive(PartialEq, Eq)]
pub enum IngestionStateUpdate {
    StartingBlock(u64),
    Finalized(u64),
    Pending(Option<u64>),
    Segmented(u64),
    Grouped(u64),
    Recent(RecentSegmentPointer),
}

impl Clone for IngestionStateUpdate {
    fn clone(&self) -> (r: Self)
        ensures
            r == *self,
    {
        match self {
            IngestionStateUpdate::StartingBlock(block) => IngestionStateUpdate::StartingBlock(
                *block,
            ),
            IngestionStateUpdate::Finalized(block) => IngestionStateUpdate::Finalized(*block),
            IngestionStateUpdate::Pending(generation) => IngestionStateUpdate::Pending(*generation),
            IngestionStateUpdate::Segmented(block) => IngestionStateUpdate::Segmented(*block),
            IngestionStateUpdate::Grouped(block) => IngestionStateUpdate::Grouped(*block),
            IngestionStateUpdate::Recent(pointer) => IngestionStateUpdate::Recent(pointer.clone()),
        }
    }
}

/// A key of the store with its value.
#[derive(Debug, PartialEq, Eq)]
pub struct KeyValue {
    pub key: Vec<u8>,
    pub value: Vec<u8>,
}

/// One event of the watch: the key and value that it is about, if any, and
/// that value read as a pointer to the recent segment.
#[derive(Debug)]
pub struct WatchEvent {
    pub kv: Option<KeyValue>,
    pub pointer: Result<RecentSegmentPointer, IngestionStateClientError>,
}

/// A request to the key/value store.
#[derive(Debug, PartialEq, Eq)]
pub enum KvRequest {
    /// Read a key.
    Get { key: String },
    /// Write a key.
    Put { key: String, value: Vec<u8> },
    /// Write one key and delete another, both or neither.
    PutAndDelete { key: String, value: Vec<u8>, deleted: String },
    /// Delete a key. Deleting a missing key does nothing.
    Delete { key: String },
    /// Follow the changes of every key with a prefix.
    WatchPrefix { prefix: String },
}

/// What the store holds.
pub type KvStore = Map<Seq<char>, Seq<u8>>;

impl KvRequest {
    /// The store after a request.
    pub open spec fn applied(self, store: KvStore) -> KvStore {
        match self {
            KvRequest::Put { key, value } => store.insert(key@, value@),
            KvRequest::PutAndDelete { key, value, deleted } => store.insert(key@, value@).remove(
                deleted@,
            ),
            KvRequest::Delete { key } => store.remove(key@),
            _ => store,
        }
    }

    /// Whether this request reads the given key.
    pub open spec fn reads(self, k: Seq<char>) -> bool {
        self matches KvRequest::Get { key } && key@ == k
    }

    /// Whether this request writes a value under a key, and does nothing else.
    pub open spec fn writes(self, k: Seq<char>, v: Seq<u8>) -> bool {
        self matches KvRequest::Put { key, value } && key@ == k && value@ == v
    }
}

/// The values that reading a key gives: at most one.
pub open spec fn values_at(store: KvStore, key: Seq<char>) -> Seq<Seq<u8>> {
    if store.contains_key(key) {
        seq![store[key]]
    } else {
        Seq::empty()
    }
}

/// The values of an answer.
pub open spec fn values_of(kvs: Seq<KeyValue>) -> Seq<Seq<u8>> {
    kvs.map_values(|kv: KeyValue| kv.value@)
}

/// The text that a value holds, where it is valid UTF-8.
pub open spec fn value_text(value: Seq<u8>) -> Result<Seq<char>, IngestionStateClientError> {
    if valid_utf8(value) {
        Ok(decode_utf8(value))
    } else {
        Err(IngestionStateClientError)
    }
}

/// The number that a value writes in decimal.
pub open spec fn value_number(value: Seq<u8>) -> Result<u64, IngestionStateClientError> {
    match value_text(value) {
        Ok(t) => match crate::text::parsed_u64(t) {
            Some(n) => Ok(n),
            None => Err(IngestionStateClientError),
        },
        Err(e) => Err(e),
    }
}

/// How a number is stored: its decimal digits.
pub open spec fn number_value(n: u64) -> Seq<u8> {
    encode_utf8(crate::text::decimal(n as nat))
}

/// The number in an answer: the first value's, or none when there is no value.
pub open spec fn answered_number(
    answer: Result<Seq<Seq<u8>>, IngestionStateClientError>,
) -> Result<Option<u64>, IngestionStateClientError> {
    match answer {
        Ok(values) => if values.len() == 0 {
            Ok(None)
        } else {
            match value_number(values[0]) {
                Ok(n) => Ok(Some(n)),
                Err(e) => Err(e),
            }
        },
        Err(e) => Err(e),
    }
}

/// The text in an answer: the first value's, or none when there is no value.
pub open spec fn answered_text(
    answer: Result<Seq<Seq<u8>>, IngestionStateClientError>,
) -> Result<Option<Seq<char>>, IngestionStateClientError> {
    match answer {
        Ok(values) => if values.len() == 0 {
            Ok(None)
        } else {
            match value_text(values[0]) {
                Ok(t) => Ok(Some(t)),
                Err(e) => Err(e),
            }
        },
        Err(e) => Err(e),
    }
}

/// The values of the answer that came back, if one did.
pub open spec fn answer_values(
    response: Result<Vec<KeyValue>, IngestionStateClientError>,
) -> Result<Seq<Seq<u8>>, IngestionStateClientError> {
    match response {
        Ok(kvs) => Ok(values_of(kvs@)),
        Err(e) => Err(e),
    }
}

/// Decodes a value as text.
fn decode_text(value: &Vec<u8>) -> (r: Result<String, IngestionStateClientError>)
    ensures
        match r {
            Ok(t) => value_text(value@) == Ok::<Seq<char>, IngestionStateClientError>(t@),
            Err(e) => value_text(value@) == Err::<Seq<char>, IngestionStateClientError>(e),
        },
{
    match utf8_text(value.as_slice()) {
        Some(t) => Ok(t.to_owned()),
        None => Err(IngestionStateClientError),
    }
}

/// Decodes a value as a decimal number.
fn decode_number(value: &Vec<u8>) -> (r: Result<u64, IngestionStateClientError>)
    ensures
        r == value_number(value@),
{
    let t: String = match decode_text(value) {
        Ok(t) => t,
        Err(e) => {
            return Err(e);
        },
    };
    match parse_u64(t.as_str()) {
        Some(n) => Ok(n),
        None => Err(IngestionStateClientError),
    }
}

/// Encodes a number in decimal.
fn encode_number(n: u64) -> (r: Vec<u8>)
    ensures
        r@ == number_value(n),
{
    u64_text(n).as_str().as_bytes_vec()
}

/// Reads the number out of an answer.
fn first_number(response: Result<Vec<KeyValue>, IngestionStateClientError>) -> (r: Result<
    Option<u64>,
    IngestionStateClientError,
>)
    ensures
        r == answered_number(answer_values(response)),
{
    let kvs: Vec<KeyValue> = match response {
        Ok(kvs) => kvs,
        Err(e) => {
            return Err(e);
        },
    };
    if kvs.len() == 0 {
        return Ok(None);
    }
    match decode_number(&kvs[0].value) {
        Ok(n) => Ok(Some(n)),
        Err(e) => Err(e),
    }
}

/// Copies bytes.
fn copied(bytes: &Vec<u8>) -> (r: Vec<u8>)
    ensures
        r@ == bytes@,
{
    let mut out: Vec<u8> = Vec::new();
    out.extend_from_slice(bytes.as_slice());
    assert(out@ =~= bytes@);
    out
}

/// The request that reads a key.
fn get(key: &str) -> (r: KvRequest)
    ensures
        r.reads(key@),
{
    KvRequest::Get { key: key.to_owned() }
}

/// The request that stores a number under a key.
fn put(key: &str, n: u64) -> (r: KvRequest)
    ensures
        r.writes(key@, number_value(n)),
{
    KvRequest::Put { key: key.to_owned(), value: encode_number(n) }
}

/// The client of the ingestion state.
///
/// Each state has a request that reads it, a method that takes the answer
/// apart, and a request that writes it.
#[derive(Clone, Copy, Debug, PartialEq, Eq, Structural)]
pub struct IngestionStateClient;

impl IngestionStateClient {
    pub fn new() -> (r: Self)
        ensures
            r == IngestionStateClient,
    {
        IngestionStateClient
    }

    /// The request that reads the starting block.
    pub fn starting_block_request(&self) -> (r: KvRequest)
        ensures
            r.reads(STARTING_BLOCK_KEY@),
    {
        get(STARTING_BLOCK_KEY)
    }

    /// The starting block, or none when it is not set. Fails when the request
    /// failed, or the value is no decimal `u64`.
    pub fn get_starting_block(
        &self,
        response: Result<Vec<KeyValue>, IngestionStateClientError>,
    ) -> (r: Result<Option<u64>, IngestionStateClientError>)
        ensures
            r == answered_number(answer_values(response)),
    {
        first_number(response)
    }

    /// The request that writes the starting block.
    pub fn put_starting_block(&self, block: u64) -> (r: KvRequest)
        ensures
            r.writes(STARTING_BLOCK_KEY@, number_value(block)),
    {
        put(STARTING_BLOCK_KEY, block)
    }

    /// The request that reads the last finalized block.
    pub fn finalized_request(&self) -> (r: KvRequest)
        ensures
            r.reads(FINALIZED_KEY@),
    {
        get(FINALIZED_KEY)
    }

    /// The last finalized block, or none when it is not set. Fails when the
    /// request failed, or the value is no decimal `u64`.
    pub fn get_finalized(
        &self,
        response: Result<Vec<KeyValue>, IngestionStateClientError>,
    ) -> (r: Result<Option<u64>, IngestionStateClientError>)
        ensures
            r == answered_number(answer_values(response)),
    {
        first_number(response)
    }

    /// The request that writes the last finalized block.
    pub fn put_finalized(&self, block: u64) -> (r: KvRequest)
        ensures
            r.writes(FINALIZED_KEY@, number_value(block)),
    {
        put(FINALIZED_KEY, block)
    }

    /// The request that reads the pointer to the recent segment.
    pub fn recent_request(&self) -> (r: KvRequest)
        ensures
            r.reads(RECENT_KEY@),
    {
        get(RECENT_KEY)
    }

    /// The stored pointer to the recent segment, or none when it is not set.
    pub fn recent_value(
        &self,
        response: Result<Vec<KeyValue>, IngestionStateClientError>,
    ) -> (r: Result<Option<Vec<u8>>, IngestionStateClientError>)
        ensures
            match answer_values(response) {
                Ok(values) => if values.len() == 0 {
                    r == Ok::<Option<Vec<u8>>, IngestionStateClientError>(None)
                } else {
                    r matches Ok(Some(value)) && value@ == values[0]
                },
                Err(e) => r == Err::<Option<Vec<u8>>, IngestionStateClientError>(e),
            },
    {
        let kvs: Vec<KeyValue> = match response {
            Ok(kvs) => kvs,
            Err(e) => {
                return Err(e);
            },
        };
        if kvs.len() == 0 {
            return Ok(None);
        }
        Ok(Some(copied(&kvs[0].value)))
    }

    /// The pointer to the recent segment, or none when it is not set.
    /// `stored` is what [`Self::recent_value`] gave, with the value read as a
    /// pointer.
    pub fn get_recent(
        &self,
        stored: Result<
            Option<Result<RecentSegmentPointer, IngestionStateClientError>>,
            IngestionStateClientError,
        >,
    ) -> (r: Result<Option<RecentSegmentPointer>, IngestionStateClientError>)
        ensures
            r == match stored {
                Ok(Some(Ok(pointer))) => Ok(Some(pointer)),
                Ok(Some(Err(e))) => Err(e),
                Ok(None) => Ok(None),
                Err(e) => Err(e),
            },
    {
        match stored {
            Ok(Some(Ok(pointer))) => Ok(Some(pointer)),
            Ok(Some(Err(e))) => Err(e),
            Ok(None) => Ok(None),
            Err(e) => Err(e),
        }
    }

    /// Publishes a pointer to the recent segment, given as it is stored, and
    /// drops the pending generation along with it.
    pub fn put_recent(&self, value: Vec<u8>) -> (r: KvRequest)
        ensures
            r matches KvRequest::PutAndDelete { key, value: v, deleted } && key@ == RECENT_KEY@
                && v@ == value@ && deleted@ == PENDING_KEY@,
    {
        KvRequest::PutAndDelete {
            key: RECENT_KEY.to_owned(),
            value,
            deleted: PENDING_KEY.to_owned(),
        }
    }

    /// The request that reads the legacy key.
    pub fn legacy_ingested_request(&self) -> (r: KvRequest)
        ensures
            r.reads(LEGACY_INGESTED_KEY@),
    {
        get(LEGACY_INGESTED_KEY)
    }

    /// The raw value of the legacy key, or none when it is not set. Presence is
    /// what matters; the value is the version of the legacy object.
    pub fn get_legacy_ingested(
        &self,
        response: Result<Vec<KeyValue>, IngestionStateClientError>,
    ) -> (r: Result<Option<String>, IngestionStateClientError>)
        ensures
            match r {
                Ok(Some(t)) => answered_text(answer_values(response)) == Ok::<
                    Option<Seq<char>>,
                    IngestionStateClientError,
                >(Some(t@)),
                Ok(None) => answered_text(answer_values(response)) == Ok::<
                    Option<Seq<char>>,
                    IngestionStateClientError,
                >(None),
                Err(e) => answered_text(answer_values(response)) == Err::<
                    Option<Seq<char>>,
                    IngestionStateClientError,
                >(e),
            },
    {
        let kvs: Vec<KeyValue> = match response {
            Ok(kvs) => kvs,
            Err(e) => {
                return Err(e);
            },
        };
        if kvs.len() == 0 {
            return Ok(None);
        }
        match decode_text(&kvs[0].value) {
            Ok(t) => Ok(Some(t)),
            Err(e) => Err(e),
        }
    }

    /// Deletes the legacy key.
    pub fn delete_legacy_ingested(&self) -> (r: KvRequest)
        ensures
            r matches KvRequest::Delete { key } && key@ == LEGACY_INGESTED_KEY@,
    {
        KvRequest::Delete { key: LEGACY_INGESTED_KEY.to_owned() }
    }

    /// The request that writes the generation of the pending block.
    pub fn put_pending(&self, generation: u64) -> (r: KvRequest)
        ensures
            r.writes(PENDING_KEY@, number_value(generation)),
    {
        put(PENDING_KEY, generation)
    }

    /// The request that reads the last segmented block.
    pub fn segmented_request(&self) -> (r: KvRequest)
        ensures
            r.reads(SEGMENTED_KEY@),
    {
        get(SEGMENTED_KEY)
    }

    /// The last segmented block, or none when it is not set. Fails when the
    /// request failed, or the value is no decimal `u64`.
    pub fn get_segmented(
        &self,
        response: Result<Vec<KeyValue>, IngestionStateClientError>,
    ) -> (r: Result<Option<u64>, IngestionStateClientError>)
        ensures
            r == answered_number(answer_values(response)),
    {
        first_number(response)
    }

    /// The request that writes the last segmented block.
    pub fn put_segmented(&self, block: u64) -> (r: KvRequest)
        ensures
            r.writes(SEGMENTED_KEY@, number_value(block)),
    {
        put(SEGMENTED_KEY, block)
    }

    /// The request that reads the last grouped block.
    pub fn grouped_request(&self) -> (r: KvRequest)
        ensures
            r.reads(GROUPED_KEY@),
    {
        get(GROUPED_KEY)
    }

    /// The last grouped block, or none when it is not set. Fails when the
    /// request failed, or the value is no decimal `u64`.
    pub fn get_grouped(
        &self,
        response: Result<Vec<KeyValue>, IngestionStateClientError>,
    ) -> (r: Result<Option<u64>, IngestionStateClientError>)
        ensures
            r == answered_number(answer_values(response)),
    {
        first_number(response)
    }

    /// The request that writes the last grouped block.
    pub fn put_grouped(&self, block: u64) -> (r: KvRequest)
        ensures
            r.writes(GROUPED_KEY@, number_value(block)),
    {
        put(GROUPED_KEY, block)
    }

    /// The request that reads the last pruned block.
    pub fn pruned_request(&self) -> (r: KvRequest)
        ensures
            r.reads(PRUNED_KEY@),
    {
        get(PRUNED_KEY)
    }

    /// The last pruned block, or none when it is not set. Fails when the
    /// request failed, or the value is no decimal `u64`.
    pub fn get_pruned(
        &self,
        response: Result<Vec<KeyValue>, IngestionStateClientError>,
    ) -> (r: Result<Option<u64>, IngestionStateClientError>)
        ensures
            r == answered_number(answer_values(response)),
    {
        first_number(response)
    }

    /// The request that writes the last pruned block.
    pub fn put_pruned(&self, block: u64) -> (r: KvRequest)
        ensures
            r.writes(PRUNED_KEY@, number_value(block)),
    {
        put(PRUNED_KEY, block)
    }

    /// The request that follows the ingestion state.
    pub fn watch_request(&self) -> (r: KvRequest)
        ensures
            r matches KvRequest::WatchPrefix { prefix } && prefix@ == INGESTION_PREFIX_KEY@,
    {
        KvRequest::WatchPrefix { prefix: INGESTION_PREFIX_KEY.to_owned() }
    }

    /// The updates of one response of the watch, in the order of its events. A
    /// failed response is a single error; what is no update is passed over.
    pub fn watch_changes(
        &self,
        response: Result<Vec<WatchEvent>, IngestionStateClientError>,
    ) -> (r: Vec<Result<IngestionStateUpdate, IngestionStateClientError>>)
        ensures
            r@ == match response {
                Ok(events) => watched_updates(events@),
                Err(e) => seq![Err::<IngestionStateUpdate, IngestionStateClientError>(e)],
            },
    {
        let mut changes: Vec<Result<IngestionStateUpdate, IngestionStateClientError>> = Vec::new();
        let events: Vec<WatchEvent> = match response {
            Ok(events) => events,
            Err(e) => {
                changes.push(Err(e));
                return changes;
            },
        };
        let ghost all = events@;
        for event in it: events
            invariant
                it.seq() == all,
                changes@ == watched_updates(all.take(it.index() as int)),
        {
            proof {
                let n = it.index() as int;
                assert(all.take(n + 1).drop_last() =~= all.take(n));
                assert(all.take(n + 1).last() == event);
            }
            if let Some(kv) = event.kv {
                match IngestionStateUpdate::from_kv(&kv, event.pointer) {
                    Ok(Some(update)) => changes.push(Ok(update)),
                    Ok(None) => {},
                    Err(e) => changes.push(Err(e)),
                }
            }
        }
        assert(all.take(all.len() as int) =~= all);
        changes
    }
}

/// The part of the state that a key is about.
pub enum StateKey {
    Recent,
    StartingBlock,
    Finalized,
    Pending,
    Segmented,
    Grouped,
    Other,
}

/// The part of the state whose name a key ends with. A store may put its own
/// prefix before the name.
pub open spec fn state_key(key: Seq<char>) -> StateKey {
    if RECENT_KEY@.is_suffix_of(key) {
        StateKey::Recent
    } else if STARTING_BLOCK_KEY@.is_suffix_of(key) {
        StateKey::StartingBlock
    } else if FINALIZED_KEY@.is_suffix_of(key) {
        StateKey::Finalized
    } else if PENDING_KEY@.is_suffix_of(key) {
        StateKey::Pending
    } else if SEGMENTED_KEY@.is_suffix_of(key) {
        StateKey::Segmented
    } else if GROUPED_KEY@.is_suffix_of(key) {
        StateKey::Grouped
    } else {
        StateKey::Other
    }
}

/// The update that a value other than a pointer stands for.
pub open spec fn number_update(key: StateKey, value: Seq<u8>) -> Result<
    Option<IngestionStateUpdate>,
    IngestionStateClientError,
> {
    if value_text(value) is Err {
        Err(IngestionStateClientError)
    } else if key is Other {
        Ok(None)
    } else if key is Pending && value_text(value)->Ok_0.len() == 0 {
        Ok(Some(IngestionStateUpdate::Pending(None)))
    } else {
        match value_number(value) {
            Err(e) => Err(e),
            Ok(n) => Ok(
                Some(
                    match key {
                        StateKey::StartingBlock => IngestionStateUpdate::StartingBlock(n),
                        StateKey::Finalized => IngestionStateUpdate::Finalized(n),
                        StateKey::Pending => IngestionStateUpdate::Pending(Some(n)),
                        StateKey::Segmented => IngestionStateUpdate::Segmented(n),
                        _ => IngestionStateUpdate::Grouped(n),
                    },
                ),
            ),
        }
    }
}

/// The update that a key and its value stand for, if any; `pointer` is the
/// value read as a pointer.
pub open spec fn update_of(
    key: Seq<u8>,
    value: Seq<u8>,
    pointer: Result<RecentSegmentPointer, IngestionStateClientError>,
) -> Result<Option<IngestionStateUpdate>, IngestionStateClientError> {
    match value_text(key) {
        Err(e) => Err(e),
        Ok(k) => if state_key(k) is Recent {
            match pointer {
                Ok(p) => Ok(Some(IngestionStateUpdate::Recent(p))),
                Err(e) => Err(e),
            }
        } else {
            number_update(state_key(k), value)
        },
    }
}

/// What one event of the watch adds to the updates: at most one item.
pub open spec fn watched_update(event: WatchEvent) -> Seq<
    Result<IngestionStateUpdate, IngestionStateClientError>,
> {
    match event.kv {
        None => Seq::empty(),
        Some(kv) => match update_of(kv.key@, kv.value@, event.pointer) {
            Ok(Some(update)) => seq![Ok(update)],
            Ok(None) => Seq::empty(),
            Err(e) => seq![Err(e)],
        },
    }
}

/// The updates of a run of events, in order.
pub open spec fn watched_updates(events: Seq<WatchEvent>) -> Seq<
    Result<IngestionStateUpdate, IngestionStateClientError>,
>
    decreases events.len(),
{
    if events.len() == 0 {
        Seq::empty()
    } else {
        watched_updates(events.drop_last()) + watched_update(events.last())
    }
}

/// How an update is written in a log line.
pub open spec fn update_text(update: IngestionStateUpdate) -> Seq<char> {
    match update {
        IngestionStateUpdate::StartingBlock(block) => "StartingBlock("@ + crate::text::decimal(
            block as nat,
        ) + ")"@,
        IngestionStateUpdate::Finalized(block) => "Finalized("@ + crate::text::decimal(
            block as nat,
        ) + ")"@,
        IngestionStateUpdate::Pending(None) => "Pending(None)"@,
        IngestionStateUpdate::Pending(Some(generation)) => "Pending(Some("@ + crate::text::decimal(
            generation as nat,
        ) + "))"@,
        IngestionStateUpdate::Segmented(block) => "Segmented("@ + crate::text::decimal(
            block as nat,
        ) + ")"@,
        IngestionStateUpdate::Grouped(block) => "Grouped("@ + crate::text::decimal(block as nat)
            + ")"@,
        IngestionStateUpdate::Recent(pointer) => "Recent { key: "@ + crate::text::debug_text(
            pointer.key@,
        ) + ", version: "@ + crate::text::debug_text(pointer.version@) + ", first_block: "@
            + crate::text::decimal(pointer.first_block as nat) + ", last_block: "@
            + crate::text::decimal(pointer.last_block as nat) + " }"@,
    }
}

/// A number between two texts.
fn enclosed(before: &str, n: u64, after: &str) -> (r: String)
    ensures
        r@ == before@ + crate::text::decimal(n as nat) + after@,
{
    let mut out: String = before.to_owned();
    out.append(u64_text(n).as_str());
    out.append(after);
    out
}

impl IngestionStateUpdate {
    /// Whether this is an update of the pending block.
    pub fn is_pending(&self) -> (r: bool)
        ensures
            r == (*self is Pending),
    {
        matches!(self, IngestionStateUpdate::Pending(_))
    }

    /// The update as a log line shows it.
    pub fn debug(&self) -> (r: String)
        ensures
            r@ == update_text(*self),
    {
        match self {
            IngestionStateUpdate::StartingBlock(block) => enclosed("StartingBlock(", *block, ")"),
            IngestionStateUpdate::Finalized(block) => enclosed("Finalized(", *block, ")"),
            IngestionStateUpdate::Pending(None) => "Pending(None)".to_owned(),
            IngestionStateUpdate::Pending(Some(generation)) => enclosed(
                "Pending(Some(",
                *generation,
                "))",
            ),
            IngestionStateUpdate::Segmented(block) => enclosed("Segmented(", *block, ")"),
            IngestionStateUpdate::Grouped(block) => enclosed("Grouped(", *block, ")"),
            IngestionStateUpdate::Recent(pointer) => {
                let mut out: String = "Recent { key: ".to_owned();
                out.append(quoted(pointer.key.as_str()).as_str());
                out.append(", version: ");
                out.append(quoted(pointer.version.as_str()).as_str());
                out.append(", first_block: ");
                out.append(u64_text(pointer.first_block).as_str());
                out.append(", last_block: ");
                out.append(u64_text(pointer.last_block).as_str());
                out.append(" }");
                out
            },
        }
    }

    /// Reads an update out of a key and its value. `pointer` is the value read
    /// as a pointer, and only looked at where the key is that of the recent
    /// segment.
    ///
    /// Deleting the pending generation leaves an empty value, which reads as
    /// no generation.
    pub fn from_kv(
        kv: &KeyValue,
        pointer: Result<RecentSegmentPointer, IngestionStateClientError>,
    ) -> (r: Result<Option<Self>, IngestionStateClientError>)
        ensures
            r == update_of(kv.key@, kv.value@, pointer),
    {
        let key: String = match decode_text(&kv.key) {
            Ok(key) => key,
            Err(e) => {
                return Err(e);
            },
        };
        if ends_with(key.as_str(), RECENT_KEY) {
            return match pointer {
                Ok(p) => Ok(Some(IngestionStateUpdate::Recent(p))),
                Err(e) => Err(e),
            };
        }
        let value: String = match decode_text(&kv.value) {
            Ok(value) => value,
            Err(e) => {
                return Err(e);
            },
        };
        let number: Result<u64, IngestionStateClientError> = match parse_u64(value.as_str()) {
            Some(n) => Ok(n),
            None => Err(IngestionStateClientError),
        };
        if ends_with(key.as_str(), STARTING_BLOCK_KEY) {
            match number {
                Ok(n) => Ok(Some(IngestionStateUpdate::StartingBlock(n))),
                Err(e) => Err(e),
            }
        } else if ends_with(key.as_str(), FINALIZED_KEY) {
            match number {
                Ok(n) => Ok(Some(IngestionStateUpdate::Finalized(n))),
                Err(e) => Err(e),
            }
        } else if ends_with(key.as_str(), PENDING_KEY) {
            if value.as_str().unicode_len() == 0 {
                Ok(Some(IngestionStateUpdate::Pending(None)))
            } else {
                match number {
                    Ok(n) => Ok(Some(IngestionStateUpdate::Pending(Some(n)))),
                    Err(e) => Err(e),
                }
            }
        } else if ends_with(key.as_str(), SEGMENTED_KEY) {
            match number {
                Ok(n) => Ok(Some(IngestionStateUpdate::Segmented(n))),
                Err(e) => Err(e),
            }
        } else if ends_with(key.as_str(), GROUPED_KEY) {
            match number {
                Ok(n) => Ok(Some(IngestionStateUpdate::Grouped(n))),
                Err(e) => Err(e),
            }
        } else {
            Ok(None)
        }
    }
}

/// Law: reading a number back gives what was written, whatever the store held.
pub proof fn read_gives_back_write(request: KvRequest, key: Seq<char>, n: u64, store: KvStore)
    requires
        request.writes(key, number_value(n)),
    ensures
        answered_number(Ok(values_at(request.applied(store), key))) == Ok::<
            Option<u64>,
            IngestionStateClientError,
        >(Some(n)),
{
    lemma_number_value(n);
}

/// Law: writing one key leaves what is read under any other unchanged.
pub proof fn write_keeps_other_keys(
    request: KvRequest,
    key: Seq<char>,
    value: Seq<u8>,
    other: Seq<char>,
    store: KvStore,
)
    requires
        request.writes(key, value),
        other != key,
    ensures
        values_at(request.applied(store), other) == values_at(store, other),
{
}

/// Law: reading changes nothing.
pub proof fn read_keeps_the_store(request: KvRequest, key: Seq<char>, store: KvStore)
    requires
        request.reads(key),
    ensures
        request.applied(store) == store,
{
}

/// Law: a state that was never written reads as none.
pub proof fn unwritten_state_reads_as_none(key: Seq<char>, store: KvStore)
    requires
        !store.contains_key(key),
    ensures
        answered_number(Ok(values_at(store, key))) == Ok::<Option<u64>, IngestionStateClientError>(
            None,
        ),
        answered_text(Ok(values_at(store, key))) == Ok::<
            Option<Seq<char>>,
            IngestionStateClientError,
        >(None),
{
}

/// Law: publishing a recent segment stores the pointer, drops the pending
/// generation, and leaves every other key unchanged.
pub proof fn publishing_recent_drops_pending(
    request: KvRequest,
    pointer: Seq<u8>,
    other: Seq<char>,
    store: KvStore,
)
    requires
        request matches KvRequest::PutAndDelete { key, value, deleted } && key@ == RECENT_KEY@
            && value@ == pointer && deleted@ == PENDING_KEY@,
    ensures
        values_at(request.applied(store), RECENT_KEY@) == seq![pointer],
        values_at(request.applied(store), PENDING_KEY@) == Seq::<Seq<u8>>::empty(),
        other != RECENT_KEY@ && other != PENDING_KEY@ ==> values_at(request.applied(store), other)
            == values_at(store, other),
{
    reveal_strlit("ingestion/recent");
    reveal_strlit("ingestion/pending");
    assert(RECENT_KEY@.len() != PENDING_KEY@.len());
}

/// Law: once the legacy key is deleted it reads as none; deleting it again
/// changes nothing, and no other key is touched.
pub proof fn deleting_legacy_is_idempotent(request: KvRequest, other: Seq<char>, store: KvStore)
    requires
        request matches KvRequest::Delete { key } && key@ == LEGACY_INGESTED_KEY@,
    ensures
        answered_text(Ok(values_at(request.applied(store), LEGACY_INGESTED_KEY@))) == Ok::<
            Option<Seq<char>>,
            IngestionStateClientError,
        >(None),
        request.applied(request.applied(store)) == request.applied(store),
        other != LEGACY_INGESTED_KEY@ ==> values_at(request.applied(store), other) == values_at(
            store,
            other,
        ),
{
    assert(request.applied(request.applied(store)) =~= request.applied(store));
}

/// A key as an event of the watch shows it, behind the prefix of the store.
pub open spec fn event_key(prefix: Seq<char>, key: Seq<char>) -> Seq<u8> {
    encode_utf8(prefix + key)
}

/// Law: a watcher sees each number that is written, as an update of the state
/// that it was written to, behind whatever prefix the store puts.
pub proof fn watch_sees_writes(
    prefix: Seq<char>,
    n: u64,
    pointer: Result<RecentSegmentPointer, IngestionStateClientError>,
)
    ensures
        update_of(event_key(prefix, STARTING_BLOCK_KEY@), number_value(n), pointer) == Ok::<
            Option<IngestionStateUpdate>,
            IngestionStateClientError,
        >(Some(IngestionStateUpdate::StartingBlock(n))),
        update_of(event_key(prefix, FINALIZED_KEY@), number_value(n), pointer) == Ok::<
            Option<IngestionStateUpdate>,
            IngestionStateClientError,
        >(Some(IngestionStateUpdate::Finalized(n))),
        update_of(event_key(prefix, PENDING_KEY@), number_value(n), pointer) == Ok::<
            Option<IngestionStateUpdate>,
            IngestionStateClientError,
        >(Some(IngestionStateUpdate::Pending(Some(n)))),
        update_of(event_key(prefix, SEGMENTED_KEY@), number_value(n), pointer) == Ok::<
            Option<IngestionStateUpdate>,
            IngestionStateClientError,
        >(Some(IngestionStateUpdate::Segmented(n))),
        update_of(event_key(prefix, GROUPED_KEY@), number_value(n), pointer) == Ok::<
            Option<IngestionStateUpdate>,
            IngestionStateClientError,
        >(Some(IngestionStateUpdate::Grouped(n))),
{
    lemma_event_keys(prefix);
    lemma_number_value(n);
}

/// Law: a watcher sees a published pointer, whatever the bytes of its value.
pub proof fn watch_sees_recent(prefix: Seq<char>, value: Seq<u8>, pointer: RecentSegmentPointer)
    ensures
        update_of(event_key(prefix, RECENT_KEY@), value, Ok(pointer)) == Ok::<
            Option<IngestionStateUpdate>,
            IngestionStateClientError,
        >(Some(IngestionStateUpdate::Recent(pointer))),
{
    lemma_event_keys(prefix);
}

/// Law: a watcher sees the pending generation go away when its key is deleted,
/// which leaves the key with an empty value.
pub proof fn watch_sees_pending_deleted(
    prefix: Seq<char>,
    pointer: Result<RecentSegmentPointer, IngestionStateClientError>,
)
    ensures
        update_of(event_key(prefix, PENDING_KEY@), Seq::empty(), pointer) == Ok::<
            Option<IngestionStateUpdate>,
            IngestionStateClientError,
        >(Some(IngestionStateUpdate::Pending(None))),
{
    lemma_event_keys(prefix);
    let no_text = Seq::<char>::empty();
    encode_utf8_valid_utf8(no_text);
    encode_utf8_decode_utf8(no_text);
    assert(encode_utf8(no_text) =~= Seq::<u8>::empty());
}

/// Law: the legacy key is no update, as long as its value is text.
pub proof fn watch_ignores_legacy(
    prefix: Seq<char>,
    value: Seq<u8>,
    pointer: Result<RecentSegmentPointer, IngestionStateClientError>,
)
    requires
        valid_utf8(value),
    ensures
        update_of(event_key(prefix, LEGACY_INGESTED_KEY@), value, pointer) == Ok::<
            Option<IngestionStateUpdate>,
            IngestionStateClientError,
        >(None),
{
    lemma_event_keys(prefix);
}

/// Law: the watched prefix covers every state that updates are about, and
/// leaves out the pruned block.
pub proof fn watched_prefix_covers_updates()
    ensures
        INGESTION_PREFIX_KEY@.is_prefix_of(RECENT_KEY@),
        INGESTION_PREFIX_KEY@.is_prefix_of(STARTING_BLOCK_KEY@),
        INGESTION_PREFIX_KEY@.is_prefix_of(FINALIZED_KEY@),
        INGESTION_PREFIX_KEY@.is_prefix_of(PENDING_KEY@),
        INGESTION_PREFIX_KEY@.is_prefix_of(SEGMENTED_KEY@),
        INGESTION_PREFIX_KEY@.is_prefix_of(GROUPED_KEY@),
        !INGESTION_PREFIX_KEY@.is_prefix_of(PRUNED_KEY@),
{
    reveal_strlit("ingestion/");
    reveal_strlit("ingestion/recent");
    reveal_strlit("ingestion/pending");
    reveal_strlit("ingestion/starting_block");
    reveal_strlit("ingestion/finalized");
    reveal_strlit("ingestion/segmented");
    reveal_strlit("ingestion/grouped");
    reveal_strlit("compaction/pruned");
    assert(INGESTION_PREFIX_KEY@[0] != PRUNED_KEY@[0]);
}

/// Law: how the events are split over responses does not matter to the
/// updates.
pub proof fn updates_follow_events(a: Seq<WatchEvent>, b: Seq<WatchEvent>)
    ensures
        watched_updates(a + b) == watched_updates(a) + watched_updates(b),
    decreases b.len(),
{
    if b.len() == 0 {
        assert(a + b =~= a);
    } else {
        updates_follow_events(a, b.drop_last());
        assert((a + b).drop_last() =~= a + b.drop_last());
    }
}

/// Law: no two states share a key.
pub proof fn keys_are_distinct()
    ensures
        seq![
            RECENT_KEY@,
            LEGACY_INGESTED_KEY@,
            PENDING_KEY@,
            STARTING_BLOCK_KEY@,
            FINALIZED_KEY@,
            SEGMENTED_KEY@,
            GROUPED_KEY@,
            PRUNED_KEY@,
        ].no_duplicates(),
{
    reveal_strlit("ingestion/recent");
    reveal_strlit("ingestion/ingested");
    reveal_strlit("ingestion/pending");
    reveal_strlit("ingestion/starting_block");
    reveal_strlit("ingestion/finalized");
    reveal_strlit("ingestion/segmented");
    reveal_strlit("ingestion/grouped");
    reveal_strlit("compaction/pruned");
    assert(PENDING_KEY@[10] != GROUPED_KEY@[10]);
    assert(PENDING_KEY@[0] != PRUNED_KEY@[0]);
    assert(GROUPED_KEY@[0] != PRUNED_KEY@[0]);
    assert(FINALIZED_KEY@[10] != SEGMENTED_KEY@[10]);
    assert(RECENT_KEY@.len() == 16);
    assert(LEGACY_INGESTED_KEY@.len() == 18);
    assert(PENDING_KEY@.len() == 17);
    assert(STARTING_BLOCK_KEY@.len() == 24);
    assert(FINALIZED_KEY@.len() == 19);
    assert(SEGMENTED_KEY@.len() == 19);
    assert(GROUPED_KEY@.len() == 17);
    assert(PRUNED_KEY@.len() == 17);
}

/// A stored number reads back as that number, and is not empty.
proof fn lemma_number_value(n: u64)
    ensures
        value_text(number_value(n)) == Ok::<Seq<char>, IngestionStateClientError>(
            crate::text::decimal(n as nat),
        ),
        value_number(number_value(n)) == Ok::<u64, IngestionStateClientError>(n),
        crate::text::decimal(n as nat).len() > 0,
{
    let digits = crate::text::decimal(n as nat);
    encode_utf8_valid_utf8(digits);
    encode_utf8_decode_utf8(digits);
    crate::text::decimal_round_trip(n);
}

/// A text that differs from another at some distance from its end does not
/// end with it.
proof fn lemma_not_suffix(prefix: Seq<char>, key: Seq<char>, suffix: Seq<char>, back: int)
    requires
        1 <= back <= key.len(),
        back <= suffix.len(),
        key[key.len() - back] != suffix[suffix.len() - back],
    ensures
        !suffix.is_suffix_of(prefix + key),
{
    let whole = prefix + key;
    if suffix.is_suffix_of(whole) {
        let tail = whole.subrange(whole.len() - suffix.len(), whole.len() as int);
        assert(tail[suffix.len() - back] == whole[whole.len() - back]);
    }
}

/// Each key of the state is told apart from the others by its end.
proof fn lemma_event_keys(prefix: Seq<char>)
    ensures
        forall|key: Seq<char>| #[trigger]
            value_text(event_key(prefix, key)) == Ok::<Seq<char>, IngestionStateClientError>(
                prefix + key,
            ),
        state_key(prefix + RECENT_KEY@) == StateKey::Recent,
        state_key(prefix + STARTING_BLOCK_KEY@) == StateKey::StartingBlock,
        state_key(prefix + FINALIZED_KEY@) == StateKey::Finalized,
        state_key(prefix + PENDING_KEY@) == StateKey::Pending,
        state_key(prefix + SEGMENTED_KEY@) == StateKey::Segmented,
        state_key(prefix + GROUPED_KEY@) == StateKey::Grouped,
        state_key(prefix + LEGACY_INGESTED_KEY@) == StateKey::Other,
{
    assert forall|key: Seq<char>| #[trigger]
        value_text(event_key(prefix, key)) == Ok::<Seq<char>, IngestionStateClientError>(
            prefix + key,
        ) by {
        encode_utf8_valid_utf8(prefix + key);
        encode_utf8_decode_utf8(prefix + key);
    }
    assert forall|key: Seq<char>| #[trigger] key.is_suffix_of(prefix + key) by {
        let whole = prefix + key;
        assert(whole.subrange(whole.len() - key.len(), whole.len() as int) =~= key);
    }
    reveal_strlit("ingestion/recent");
    reveal_strlit("ingestion/ingested");
    reveal_strlit("ingestion/pending");
    reveal_strlit("ingestion/starting_block");
    reveal_strlit("ingestion/finalized");
    reveal_strlit("ingestion/segmented");
    reveal_strlit("ingestion/grouped");
    assert(RECENT_KEY@.is_suffix_of(prefix + RECENT_KEY@));
    assert(STARTING_BLOCK_KEY@.is_suffix_of(prefix + STARTING_BLOCK_KEY@));
    lemma_not_suffix(prefix, STARTING_BLOCK_KEY@, RECENT_KEY@, 1);
    assert(FINALIZED_KEY@.is_suffix_of(prefix + FINALIZED_KEY@));
    lemma_not_suffix(prefix, FINALIZED_KEY@, RECENT_KEY@, 1);
    lemma_not_suffix(prefix, FINALIZED_KEY@, STARTING_BLOCK_KEY@, 1);
    assert(PENDING_KEY@.is_suffix_of(prefix + PENDING_KEY@));
    lemma_not_suffix(prefix, PENDING_KEY@, RECENT_KEY@, 1);
    lemma_not_suffix(prefix, PENDING_KEY@, STARTING_BLOCK_KEY@, 1);
    lemma_not_suffix(prefix, PENDING_KEY@, FINALIZED_KEY@, 1);
    assert(SEGMENTED_KEY@.is_suffix_of(prefix + SEGMENTED_KEY@));
    lemma_not_suffix(prefix, SEGMENTED_KEY@, RECENT_KEY@, 1);
    lemma_not_suffix(prefix, SEGMENTED_KEY@, STARTING_BLOCK_KEY@, 1);
    lemma_not_suffix(prefix, SEGMENTED_KEY@, FINALIZED_KEY@, 3);
    lemma_not_suffix(prefix, SEGMENTED_KEY@, PENDING_KEY@, 1);
    assert(GROUPED_KEY@.is_suffix_of(prefix + GROUPED_KEY@));
    lemma_not_suffix(prefix, GROUPED_KEY@, RECENT_KEY@, 1);
    lemma_not_suffix(prefix, GROUPED_KEY@, STARTING_BLOCK_KEY@, 1);
    lemma_not_suffix(prefix, GROUPED_KEY@, FINALIZED_KEY@, 3);
    lemma_not_suffix(prefix, GROUPED_KEY@, PENDING_KEY@, 1);
    lemma_not_suffix(prefix, GROUPED_KEY@, SEGMENTED_KEY@, 3);
    lemma_not_suffix(prefix, LEGACY_INGESTED_KEY@, RECENT_KEY@, 1);
    lemma_not_suffix(prefix, LEGACY_INGESTED_KEY@, STARTING_BLOCK_KEY@, 1);
    lemma_not_suffix(prefix, LEGACY_INGESTED_KEY@, FINALIZED_KEY@, 3);
    lemma_not_suffix(prefix, LEGACY_INGESTED_KEY@, PENDING_KEY@, 1);
    lemma_not_suffix(prefix, LEGACY_INGESTED_KEY@, SEGMENTED_KEY@, 4);
    lemma_not_suffix(prefix, LEGACY_INGESTED_KEY@, GROUPED_KEY@, 3);
}

/// Law: the watch hands out each update that an event holds, whichever it is,
/// and each failure to read one. It passes over exactly the events without a
/// key and value, and those that are no update.
pub proof fn each_event_is_handed_out(event: WatchEvent, u: IngestionStateUpdate)
    ensures
        event.kv is None ==> watched_updates(seq![event]).len() == 0,
        event.kv matches Some(kv) ==> {
            let read = update_of(kv.key@, kv.value@, event.pointer);
            &&& read is Ok && read->Ok_0 == Some(u) ==> watched_updates(seq![event]) == seq![
                Ok::<IngestionStateUpdate, IngestionStateClientError>(u),
            ]
            &&& read is Err ==> watched_updates(seq![event]) == seq![
                Err::<IngestionStateUpdate, IngestionStateClientError>(IngestionStateClientError),
            ]
            &&& watched_updates(seq![event]).len() == 0 ==> read is Ok && read->Ok_0 is None
            &&& read is Ok && read->Ok_0 is None ==> watched_updates(seq![event]).len() == 0
        },
{
    lemma_watched_one(event);
    if let Some(kv) = event.kv {
        if let Err(e) = update_of(kv.key@, kv.value@, event.pointer) {
            assert(e == IngestionStateClientError);
        }
    }
}

/// Law: what a run of events gives is what each of them gives, in their order:
/// another event adds what it gives behind all that came before.
pub proof fn updates_come_in_order(events: Seq<WatchEvent>, event: WatchEvent)
    ensures
        watched_updates(Seq::<WatchEvent>::empty()).len() == 0,
        watched_updates(events.push(event)) == watched_updates(events) + watched_updates(
            seq![event],
        ),
{
    updates_follow_events(events, seq![event]);
    assert(events + seq![event] =~= events.push(event));
}

/// Law: the watch hands out every number that a watched state holds, as an
/// update of that state, behind whatever prefix the store puts.
pub proof fn stored_numbers_are_handed_out(event: WatchEvent, prefix: Seq<char>, n: u64)
    requires
        event.kv matches Some(kv) && valid_utf8(kv.value@) && crate::text::parsed_u64(
            decode_utf8(kv.value@),
        ) == Some(n),
    ensures
        ({
            let key = event.kv->0.key@;
            let handed_out = watched_updates(seq![event]);
            &&& key == encode_utf8(prefix + "ingestion/starting_block"@) ==> handed_out == seq![
                Ok::<_, IngestionStateClientError>(IngestionStateUpdate::StartingBlock(n)),
            ]
            &&& key == encode_utf8(prefix + "ingestion/finalized"@) ==> handed_out == seq![
                Ok::<_, IngestionStateClientError>(IngestionStateUpdate::Finalized(n)),
            ]
            &&& key == encode_utf8(prefix + "ingestion/pending"@) ==> handed_out == seq![
                Ok::<_, IngestionStateClientError>(IngestionStateUpdate::Pending(Some(n))),
            ]
            &&& key == encode_utf8(prefix + "ingestion/segmented"@) ==> handed_out == seq![
                Ok::<_, IngestionStateClientError>(IngestionStateUpdate::Segmented(n)),
            ]
            &&& key == encode_utf8(prefix + "ingestion/grouped"@) ==> handed_out == seq![
                Ok::<_, IngestionStateClientError>(IngestionStateUpdate::Grouped(n)),
            ]
        }),
{
    lemma_watched_one(event);
    lemma_event_keys(prefix);
    assert(value_text(event_key(prefix, STARTING_BLOCK_KEY@)) is Ok);
    assert(value_text(event_key(prefix, FINALIZED_KEY@)) is Ok);
    assert(value_text(event_key(prefix, PENDING_KEY@)) is Ok);
    assert(value_text(event_key(prefix, SEGMENTED_KEY@)) is Ok);
    assert(value_text(event_key(prefix, GROUPED_KEY@)) is Ok);
}

/// Law: the watch hands out every number that is written to a watched state.
pub proof fn written_numbers_are_handed_out(
    event: WatchEvent,
    prefix: Seq<char>,
    request: KvRequest,
    key: Seq<char>,
    n: u64,
)
    requires
        request.writes(key, number_value(n)),
        event.kv matches Some(kv) && kv.key@ == encode_utf8(prefix + key) && kv.value@
            == request->Put_value@,
    ensures
        key == "ingestion/starting_block"@ ==> watched_updates(seq![event]) == seq![
            Ok::<_, IngestionStateClientError>(IngestionStateUpdate::StartingBlock(n)),
        ],
        key == "ingestion/finalized"@ ==> watched_updates(seq![event]) == seq![
            Ok::<_, IngestionStateClientError>(IngestionStateUpdate::Finalized(n)),
        ],
        key == "ingestion/pending"@ ==> watched_updates(seq![event]) == seq![
            Ok::<_, IngestionStateClientError>(IngestionStateUpdate::Pending(Some(n))),
        ],
        key == "ingestion/segmented"@ ==> watched_updates(seq![event]) == seq![
            Ok::<_, IngestionStateClientError>(IngestionStateUpdate::Segmented(n)),
        ],
        key == "ingestion/grouped"@ ==> watched_updates(seq![event]) == seq![
            Ok::<_, IngestionStateClientError>(IngestionStateUpdate::Grouped(n)),
        ],
{
    lemma_number_value(n);
    crate::text::decimal_round_trip(n);
    stored_numbers_are_handed_out(event, prefix, n);
}

/// Law: the watch hands out a published pointer as it was read, and a failure
/// where it could not be read, whatever the bytes of its value.
pub proof fn published_pointer_is_handed_out(event: WatchEvent, prefix: Seq<char>)
    requires
        event.kv matches Some(kv) && kv.key@ == encode_utf8(prefix + "ingestion/recent"@),
    ensures
        watched_updates(seq![event]) == match event.pointer {
            Ok(pointer) => seq![
                Ok::<_, IngestionStateClientError>(IngestionStateUpdate::Recent(pointer)),
            ],
            Err(e) => seq![Err::<IngestionStateUpdate, _>(e)],
        },
{
    lemma_watched_one(event);
    lemma_event_keys(prefix);
    assert(value_text(event_key(prefix, RECENT_KEY@)) == Ok::<Seq<char>, IngestionStateClientError>(
        prefix + RECENT_KEY@,
    ));
}

/// Law: the watch hands out that there is no pending generation when its key is
/// deleted, which leaves the key with an empty value.
pub proof fn deleted_pending_is_handed_out(event: WatchEvent, prefix: Seq<char>)
    requires
        event.kv matches Some(kv) && kv.key@ == encode_utf8(prefix + "ingestion/pending"@)
            && kv.value@.len() == 0,
    ensures
        watched_updates(seq![event]) == seq![
            Ok::<_, IngestionStateClientError>(IngestionStateUpdate::Pending(None)),
        ],
{
    lemma_watched_one(event);
    watch_sees_pending_deleted(prefix, event.pointer);
    assert(event.kv->0.value@ =~= Seq::<u8>::empty());
}

/// Law: a value that is no number is a failure for each state that holds one,
/// except that an empty one is no pending generation.
pub proof fn unreadable_numbers_are_failures(event: WatchEvent, prefix: Seq<char>)
    requires
        event.kv matches Some(kv) && (!valid_utf8(kv.value@) || crate::text::parsed_u64(
            decode_utf8(kv.value@),
        ) is None),
        ({
            let key = event.kv->0.key@;
            ||| key == encode_utf8(prefix + "ingestion/starting_block"@)
            ||| key == encode_utf8(prefix + "ingestion/finalized"@)
            ||| key == encode_utf8(prefix + "ingestion/pending"@) && event.kv->0.value@.len() > 0
            ||| key == encode_utf8(prefix + "ingestion/segmented"@)
            ||| key == encode_utf8(prefix + "ingestion/grouped"@)
        }),
    ensures
        watched_updates(seq![event]) == seq![
            Err::<IngestionStateUpdate, _>(IngestionStateClientError),
        ],
{
    lemma_watched_one(event);
    lemma_event_keys(prefix);
    let kv = event.kv->0;
    if valid_utf8(kv.value@) && kv.value@.len() > 0 {
        decode_utf8_encode_utf8(kv.value@);
        assert(decode_utf8(kv.value@).len() > 0) by {
            if decode_utf8(kv.value@).len() == 0 {
                assert(encode_utf8(decode_utf8(kv.value@)).len() == 0);
            }
        }
    }
    assert(value_text(event_key(prefix, STARTING_BLOCK_KEY@)) is Ok);
    assert(value_text(event_key(prefix, FINALIZED_KEY@)) is Ok);
    assert(value_text(event_key(prefix, PENDING_KEY@)) is Ok);
    assert(value_text(event_key(prefix, SEGMENTED_KEY@)) is Ok);
    assert(value_text(event_key(prefix, GROUPED_KEY@)) is Ok);
}

/// Law: a key that is no text is a failure. A key that ends with the name of
/// none of the states is passed over where its value is a text, and is a failure
/// where it is not.
pub proof fn other_keys_are_passed_over(event: WatchEvent)
    requires
        event.kv is Some,
        valid_utf8(event.kv->0.key@) ==> ({
            let key = decode_utf8(event.kv->0.key@);
            &&& !("ingestion/recent"@.is_suffix_of(key))
            &&& !("ingestion/starting_block"@.is_suffix_of(key))
            &&& !("ingestion/finalized"@.is_suffix_of(key))
            &&& !("ingestion/pending"@.is_suffix_of(key))
            &&& !("ingestion/segmented"@.is_suffix_of(key))
            &&& !("ingestion/grouped"@.is_suffix_of(key))
        }),
    ensures
        watched_updates(seq![event]) == if valid_utf8(event.kv->0.key@) && valid_utf8(
            event.kv->0.value@,
        ) {
            Seq::empty()
        } else {
            seq![Err::<IngestionStateUpdate, _>(IngestionStateClientError)]
        },
{
    lemma_watched_one(event);
}

/// Law: an answer is the number that its first value writes, whatever values
/// follow. Without a value there is none, a value that is no number is a failure,
/// and a failed request stays one.
pub proof fn answers_are_read_from_the_first_value(values: Seq<Seq<u8>>, n: u64)
    ensures
        answered_number(Err(IngestionStateClientError)) is Err,
        answered_text(Err(IngestionStateClientError)) is Err,
        values.len() == 0 ==> answered_number(Ok(values)) == Ok::<_, IngestionStateClientError>(
            None::<u64>,
        ),
        values.len() == 0 ==> answered_text(Ok(values)) == Ok::<_, IngestionStateClientError>(
            None::<Seq<char>>,
        ),
        values.len() > 0 && values[0] == number_value(n) ==> answered_number(Ok(values)) == Ok::<
            _,
            IngestionStateClientError,
        >(Some(n)),
        values.len() > 0 && (!valid_utf8(values[0]) || crate::text::parsed_u64(
            decode_utf8(values[0]),
        ) is None) ==> answered_number(Ok(values)) is Err,
        values.len() > 0 && valid_utf8(values[0]) && crate::text::parsed_u64(
            decode_utf8(values[0]),
        ) == Some(n) ==> answered_number(Ok(values)) == Ok::<_, IngestionStateClientError>(Some(n)),
        values.len() > 0 && valid_utf8(values[0]) ==> answered_text(Ok(values)) == Ok::<
            _,
            IngestionStateClientError,
        >(Some(decode_utf8(values[0]))),
        values.len() > 0 && !valid_utf8(values[0]) ==> answered_text(Ok(values)) is Err,
{
    lemma_number_value(n);
}

/// Law: the values of an answer are those of its keys, one for each and in the
/// same order, and a failed request has none.
pub proof fn answers_hold_every_value(
    response: Result<Vec<KeyValue>, IngestionStateClientError>,
    i: int,
)
    ensures
        response is Err <==> answer_values(response) is Err,
        response matches Ok(kvs) ==> answer_values(response)->Ok_0.len() == kvs@.len(),
        response matches Ok(kvs) ==> (0 <= i < kvs@.len() ==> answer_values(response)->Ok_0[i]
            == kvs@[i].value@),
{
}

/// Law: a request that reads a key, and one that writes a value under it, are
/// just that.
pub proof fn requests_are_for_their_key(request: KvRequest, k: Seq<char>, v: Seq<u8>)
    ensures
        request.reads(k) <==> (request matches KvRequest::Get { key } && key@ == k),
        request.writes(k, v) <==> (request matches KvRequest::Put { key, value } && key@ == k
            && value@ == v),
{
}

/// Law: a number is stored as its decimal digits, a byte each.
pub proof fn numbers_are_stored_in_decimal(n: u64)
    ensures
        number_value(n).len() == crate::text::decimal(n as nat).len(),
        forall|i: int|
            0 <= i < number_value(n).len() ==> #[trigger] number_value(n)[i]
                == crate::text::decimal(n as nat)[i] as u8 && 48 <= number_value(n)[i] <= 57,
{
    let digits = crate::text::decimal(n as nat);
    crate::text::lemma_decimal_digits(n as nat);
    assert forall|i: int| 0 <= i < digits.len() implies '\0' <= #[trigger] digits[i]
        <= '\u{7f}' by {
        assert(crate::text::is_digit(digits[i]));
        crate::text::lemma_digit(digits[i]);
    }
    assert(is_ascii_chars(digits));
    is_ascii_chars_encode_utf8(digits);
    assert forall|i: int| 0 <= i < number_value(n).len() implies #[trigger] number_value(n)[i]
        == digits[i] as u8 && 48 <= number_value(n)[i] <= 57 by {
        assert(crate::text::is_digit(digits[i]));
        crate::text::lemma_digit(digits[i]);
    }
}

/// Law: an update is shown by its name, with what it holds in parentheses.
pub proof fn updates_are_shown_by_name(n: u64, pointer: RecentSegmentPointer)
    ensures
        update_text(IngestionStateUpdate::Recent(pointer)) == "Recent { key: "@
            + crate::text::debug_text(pointer.key@) + ", version: "@ + crate::text::debug_text(
            pointer.version@,
        ) + ", first_block: "@ + crate::text::decimal(pointer.first_block as nat)
            + ", last_block: "@ + crate::text::decimal(pointer.last_block as nat) + " }"@,
        update_text(IngestionStateUpdate::StartingBlock(n)) == "StartingBlock("@
            + crate::text::decimal(n as nat) + ")"@,
        update_text(IngestionStateUpdate::Finalized(n)) == "Finalized("@ + crate::text::decimal(
            n as nat,
        ) + ")"@,
        update_text(IngestionStateUpdate::Segmented(n)) == "Segmented("@ + crate::text::decimal(
            n as nat,
        ) + ")"@,
        update_text(IngestionStateUpdate::Grouped(n)) == "Grouped("@ + crate::text::decimal(
            n as nat,
        ) + ")"@,
        update_text(IngestionStateUpdate::Pending(Some(n))) == "Pending(Some("@
            + crate::text::decimal(n as nat) + "))"@,
        update_text(IngestionStateUpdate::Pending(None)) == "Pending(None)"@,
{
}

/// Law: these are the names under which the states are stored, and the prefix
/// that is watched: ingesters and consumers share them.
pub proof fn states_are_stored_under_their_names()
    ensures
        INGESTION_PREFIX_KEY@ == "ingestion/"@,
        RECENT_KEY@ == "ingestion/recent"@,
        LEGACY_INGESTED_KEY@ == "ingestion/ingested"@,
        PENDING_KEY@ == "ingestion/pending"@,
        STARTING_BLOCK_KEY@ == "ingestion/starting_block"@,
        FINALIZED_KEY@ == "ingestion/finalized"@,
        SEGMENTED_KEY@ == "ingestion/segmented"@,
        GROUPED_KEY@ == "ingestion/grouped"@,
        PRUNED_KEY@ == "compaction/pruned"@,
{
}

/// One event gives what it adds.
proof fn lemma_watched_one(event: WatchEvent)
    ensures
        watched_updates(seq![event]) == watched_update(event),
{
    let events = seq![event];
    assert(events.drop_last() =~= Seq::<WatchEvent>::empty());
    assert(watched_updates(events.drop_last()) =~= Seq::empty());
    assert(watched_updates(events) =~= watched_update(event));
}

}
