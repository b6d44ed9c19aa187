//! Keeping the chain view in step with the ingestion state.
//!
//! The service first waits until the ingester has started, builds the view
//! from what it reads, and publishes it. From then on it follows the changes
//! of the ingestion state, applies each of them to the view and publishes the
//! result.
//!
//! All of the reading, waiting and publishing happens outside: the service is
//! told what came back ([`SyncEvent`]) and answers with what to do next
//! ([`SyncAction`]).

use vstd::prelude::*;

use crate::ingestion::state_client::{
    IngestionStateClientError, IngestionStateUpdate, RecentSegmentPointer,
};
use crate::text::same_text;

verus! {

/// How long to wait for the ingester to start, in seconds.
pub const STARTUP_WAIT_SECS: u64 = 10;

/// How long to wait before the state is followed again, in seconds.
pub const RETRY_WAIT_SECS: u64 = 5;

/// The chain view cannot be kept.
#[derive(Clone, Copy, Debug, PartialEq, Eq, Structural)]
pub struct ChainViewError;

/// What the chain view is made of, with a canonical chain of type `C`.
pub struct ViewParts<C> {
    pub finalized: u64,
    pub segmented: Option<u64>,
    pub grouped: Option<u64>,
    pub segment_size: u64,
    pub group_size: u64,
    pub canonical_chain: C,
}

/// What to do next. Chain segments are of type `S`, canonical chains of type
/// `C`.
pub enum SyncAction<S, C> {
    /// Look whether the service was cancelled: [`SyncEvent::Cancelled`].
    CheckCancelled,
    /// Wait some seconds: [`SyncEvent::Slept`].
    Sleep(u64),
    /// Read the starting block: [`SyncEvent::Block`].
    GetStartingBlock,
    /// Read the finalized block: [`SyncEvent::Block`].
    GetFinalized,
    /// Read the segmented block: [`SyncEvent::Block`].
    GetSegmented,
    /// Read the grouped block: [`SyncEvent::Block`].
    GetGrouped,
    /// Read the pointer to the recent segment: [`SyncEvent::Pointer`].
    GetRecent,
    /// Read it without disturbing the watch: [`SyncEvent::Pointer`].
    GetCurrentRecent,
    /// Load the segment that a pointer points to: [`SyncEvent::Segment`].
    GetRecentSnapshot(RecentSegmentPointer),
    /// Read the legacy key: [`SyncEvent::Legacy`].
    GetLegacyIngested,
    /// Load the legacy recent segment: [`SyncEvent::Segment`].
    GetLegacyRecent,
    /// Read how large chain segments are: [`SyncEvent::Size`].
    GetChainSegmentSize,
    /// Build the canonical chain: [`SyncEvent::Chain`].
    InitializeChain { starting_block: u64, chain_segment_size: usize, recent: S },
    /// Read how large segments are: [`SyncEvent::Size`].
    GetSegmentSize,
    /// Read how large groups are: [`SyncEvent::Size`].
    GetGroupSize,
    /// Create the view and record its metrics: [`SyncEvent::Done`].
    CreateView(ViewParts<C>),
    /// Publish the view: [`SyncEvent::Done`].
    Publish,
    /// Start following the ingestion state: [`SyncEvent::Watching`].
    WatchChanges,
    /// Record that the view is up: [`SyncEvent::Done`].
    RecordIsUp,
    /// Wait for the next update: [`SyncEvent::Update`].
    NextUpdate,
    /// Change the view: [`SyncEvent::Done`].
    SetFinalizedBlock(u64),
    /// Change the view: [`SyncEvent::Done`].
    SetSegmentedBlock(u64),
    /// Change the view: [`SyncEvent::Done`].
    SetGroupedBlock(u64),
    /// Change the view: [`SyncEvent::Done`].
    SetPendingGeneration(Option<u64>),
    /// Change the view: [`SyncEvent::Done`].
    SetRecent(S),
    /// Record that the view is down: [`SyncEvent::Done`].
    RecordIsDown,
    /// The service has ended with this result.
    Return(Result<(), ChainViewError>),
}

/// What came back from an action.
pub enum SyncEvent<S, C> {
    Cancelled(bool),
    Slept,
    Block(Result<Option<u64>, IngestionStateClientError>),
    Pointer(Result<Option<RecentSegmentPointer>, IngestionStateClientError>),
    Legacy(Result<Option<String>, IngestionStateClientError>),
    Segment(Result<Option<S>, ChainViewError>),
    Size(Result<Option<usize>, ChainViewError>),
    Chain(Result<C, ChainViewError>),
    Done(Result<(), ChainViewError>),
    Watching(Result<(), IngestionStateClientError>),
    Update(Result<Option<IngestionStateUpdate>, IngestionStateClientError>),
}

/// The ingestion state that was read before the view exists.
#[derive(Clone, Copy, PartialEq, Eq, Structural)]
pub struct IngestionState {
    pub starting_block: u64,
    pub finalized: u64,
    pub segmented: Option<u64>,
    pub grouped: Option<u64>,
}

/// What the service waits for, and what it has read so far.
pub enum SyncState<S, C> {
    CheckStartingBlock,
    ReadStartingBlock,
    SleepStartingBlock,
    CheckFinalized { starting_block: u64 },
    ReadFinalized { starting_block: u64 },
    SleepFinalized { starting_block: u64 },
    ReadSegmented { starting_block: u64, finalized: u64 },
    ReadGrouped { starting_block: u64, finalized: u64, segmented: Option<u64> },
    CheckRecent { read: IngestionState },
    ReadRecent { read: IngestionState },
    ReadSnapshot { read: IngestionState },
    ReadLegacyIngested { read: IngestionState },
    ReadLegacyRecent { read: IngestionState },
    SleepRecent { read: IngestionState },
    CheckInitialize { read: IngestionState, recent: S },
    ReadChainSegmentSize { read: IngestionState, recent: S },
    Initialize { read: IngestionState },
    ReadSegmentSize { read: IngestionState, canonical_chain: C },
    ReadGroupSize { read: IngestionState, canonical_chain: C, segment_size: usize },
    CreateView,
    FirstPublish,
    CheckWatch,
    Watch,
    RecordUp,
    NextUpdate,
    Apply,
    ReadUpdateSnapshot { pointer: RecentSegmentPointer },
    ReadCurrentPointer { pointer: RecentSegmentPointer },
    ReadCurrentSnapshot,
    Publish,
    CheckRetry,
    RecordDown,
    SleepRetry,
    Returned,
}

/// The service has ended without an error.
pub open spec fn stopped<S, C>() -> (SyncState<S, C>, SyncAction<S, C>) {
    (SyncState::Returned, SyncAction::Return(Ok(())))
}

/// The service has ended with an error.
pub open spec fn failed<S, C>() -> (SyncState<S, C>, SyncAction<S, C>) {
    (SyncState::Returned, SyncAction::Return(Err(ChainViewError)))
}

/// The state is no longer followed: the service retries, unless it was
/// cancelled.
pub open spec fn watch_ended<S, C>() -> (SyncState<S, C>, SyncAction<S, C>) {
    (SyncState::CheckRetry, SyncAction::CheckCancelled)
}

/// The recent segment that startup waited for, or another wait.
pub open spec fn after_recent<S, C>(
    read: IngestionState,
    segment: Result<Option<S>, ChainViewError>,
) -> (SyncState<S, C>, SyncAction<S, C>) {
    match segment {
        Err(_) => failed(),
        Ok(Some(recent)) => (
            SyncState::CheckInitialize { read, recent },
            SyncAction::CheckCancelled,
        ),
        Ok(None) => (SyncState::SleepRecent { read }, SyncAction::Sleep(STARTUP_WAIT_SECS)),
    }
}

/// What follows once the pointer to the recent segment was read: the segment
/// it points to, or the legacy layout when there is no pointer.
pub open spec fn after_recent_pointer<S, C>(
    read: IngestionState,
    pointer: Result<Option<RecentSegmentPointer>, IngestionStateClientError>,
) -> (SyncState<S, C>, SyncAction<S, C>) {
    match pointer {
        Err(_) => failed(),
        Ok(Some(pointer)) => (
            SyncState::ReadSnapshot { read },
            SyncAction::GetRecentSnapshot(pointer),
        ),
        Ok(None) => (SyncState::ReadLegacyIngested { read }, SyncAction::GetLegacyIngested),
    }
}

/// What follows once the legacy key was read: the legacy segment where the key
/// is set, another wait where it is not.
pub open spec fn after_legacy_ingested<S, C>(
    read: IngestionState,
    legacy: Result<Option<String>, IngestionStateClientError>,
) -> (SyncState<S, C>, SyncAction<S, C>) {
    match legacy {
        Err(_) => failed(),
        Ok(Some(_)) => (SyncState::ReadLegacyRecent { read }, SyncAction::GetLegacyRecent),
        Ok(None) => (SyncState::SleepRecent { read }, SyncAction::Sleep(STARTUP_WAIT_SECS)),
    }
}

/// The startup of the service, from the first check up to the created view.
pub open spec fn startup_next<S, C>(state: SyncState<S, C>, event: SyncEvent<S, C>) -> (
    SyncState<S, C>,
    SyncAction<S, C>,
) {
    match (state, event) {
        (SyncState::CheckStartingBlock, SyncEvent::Cancelled(false)) => (
            SyncState::ReadStartingBlock,
            SyncAction::GetStartingBlock,
        ),
        (SyncState::ReadStartingBlock, SyncEvent::Block(Ok(Some(starting_block)))) => (
            SyncState::CheckFinalized { starting_block },
            SyncAction::CheckCancelled,
        ),
        (SyncState::ReadStartingBlock, SyncEvent::Block(Ok(None))) => (
            SyncState::SleepStartingBlock,
            SyncAction::Sleep(STARTUP_WAIT_SECS),
        ),
        (SyncState::SleepStartingBlock, SyncEvent::Slept) => (
            SyncState::CheckStartingBlock,
            SyncAction::CheckCancelled,
        ),
        (SyncState::CheckFinalized { starting_block }, SyncEvent::Cancelled(false)) => (
            SyncState::ReadFinalized { starting_block },
            SyncAction::GetFinalized,
        ),
        (SyncState::ReadFinalized { starting_block }, SyncEvent::Block(Ok(Some(finalized)))) => (
            SyncState::ReadSegmented { starting_block, finalized },
            SyncAction::GetSegmented,
        ),
        (SyncState::ReadFinalized { starting_block }, SyncEvent::Block(Ok(None))) => (
            SyncState::SleepFinalized { starting_block },
            SyncAction::Sleep(STARTUP_WAIT_SECS),
        ),
        (SyncState::SleepFinalized { starting_block }, SyncEvent::Slept) => (
            SyncState::CheckFinalized { starting_block },
            SyncAction::CheckCancelled,
        ),
        (
            SyncState::ReadSegmented { starting_block, finalized },
            SyncEvent::Block(Ok(segmented)),
        ) => (
            SyncState::ReadGrouped { starting_block, finalized, segmented },
            SyncAction::GetGrouped,
        ),
        (
            SyncState::ReadGrouped { starting_block, finalized, segmented },
            SyncEvent::Block(Ok(grouped)),
        ) => (
            SyncState::CheckRecent {
                read: IngestionState { starting_block, finalized, segmented, grouped },
            },
            SyncAction::CheckCancelled,
        ),
        (SyncState::CheckRecent { read }, SyncEvent::Cancelled(false)) => (
            SyncState::ReadRecent { read },
            SyncAction::GetRecent,
        ),
        (SyncState::ReadRecent { read }, SyncEvent::Pointer(pointer)) => after_recent_pointer(
            read,
            pointer,
        ),
        (SyncState::ReadSnapshot { read }, SyncEvent::Segment(segment)) => after_recent(
            read,
            segment,
        ),
        (SyncState::ReadLegacyIngested { read }, SyncEvent::Legacy(legacy)) =>
            after_legacy_ingested(read, legacy),
        (SyncState::ReadLegacyRecent { read }, SyncEvent::Segment(segment)) => after_recent(
            read,
            segment,
        ),
        (SyncState::SleepRecent { read }, SyncEvent::Slept) => (
            SyncState::CheckRecent { read },
            SyncAction::CheckCancelled,
        ),
        (SyncState::CheckInitialize { read, recent }, SyncEvent::Cancelled(false)) => (
            SyncState::ReadChainSegmentSize { read, recent },
            SyncAction::GetChainSegmentSize,
        ),
        (SyncState::ReadChainSegmentSize { read, recent }, SyncEvent::Size(Ok(Some(size)))) => (
            SyncState::Initialize { read },
            SyncAction::InitializeChain {
                starting_block: read.starting_block,
                chain_segment_size: size,
                recent,
            },
        ),
        (SyncState::Initialize { read }, SyncEvent::Chain(Ok(canonical_chain))) => (
            SyncState::ReadSegmentSize { read, canonical_chain },
            SyncAction::GetSegmentSize,
        ),
        (
            SyncState::ReadSegmentSize { read, canonical_chain },
            SyncEvent::Size(Ok(Some(segment_size))),
        ) => (
            SyncState::ReadGroupSize { read, canonical_chain, segment_size },
            SyncAction::GetGroupSize,
        ),
        (
            SyncState::ReadGroupSize { read, canonical_chain, segment_size },
            SyncEvent::Size(Ok(Some(group_size))),
        ) => (
            SyncState::CreateView,
            SyncAction::CreateView(
                ViewParts {
                    finalized: read.finalized,
                    segmented: read.segmented,
                    grouped: read.grouped,
                    segment_size: segment_size as u64,
                    group_size: group_size as u64,
                    canonical_chain,
                },
            ),
        ),
        _ => failed(),
    }
}

/// How the view is changed by an update. An update of the starting block
/// changes nothing: it should never happen.
pub open spec fn after_update<S, C>(update: IngestionStateUpdate) -> (
    SyncState<S, C>,
    SyncAction<S, C>,
) {
    match update {
        IngestionStateUpdate::StartingBlock(_) => (SyncState::Publish, SyncAction::Publish),
        IngestionStateUpdate::Finalized(block) => (
            SyncState::Apply,
            SyncAction::SetFinalizedBlock(block),
        ),
        IngestionStateUpdate::Segmented(block) => (
            SyncState::Apply,
            SyncAction::SetSegmentedBlock(block),
        ),
        IngestionStateUpdate::Grouped(block) => (
            SyncState::Apply,
            SyncAction::SetGroupedBlock(block),
        ),
        IngestionStateUpdate::Pending(generation) => (
            SyncState::Apply,
            SyncAction::SetPendingGeneration(generation),
        ),
        IngestionStateUpdate::Recent(pointer) => (
            SyncState::ReadUpdateSnapshot { pointer },
            SyncAction::GetRecentSnapshot(pointer),
        ),
    }
}

/// Following the state, from the created view on.
pub open spec fn watch_next<S, C>(state: SyncState<S, C>, event: SyncEvent<S, C>) -> (
    SyncState<S, C>,
    SyncAction<S, C>,
) {
    match (state, event) {
        (SyncState::CreateView, SyncEvent::Done(Ok(_))) => (
            SyncState::FirstPublish,
            SyncAction::Publish,
        ),
        (SyncState::FirstPublish, SyncEvent::Done(Ok(_))) => (
            SyncState::CheckWatch,
            SyncAction::CheckCancelled,
        ),
        (SyncState::CheckWatch, SyncEvent::Cancelled(false)) => (
            SyncState::Watch,
            SyncAction::WatchChanges,
        ),
        (SyncState::Watch, SyncEvent::Watching(Ok(_))) => (
            SyncState::RecordUp,
            SyncAction::RecordIsUp,
        ),
        (SyncState::RecordUp, SyncEvent::Done(Ok(_))) => (
            SyncState::NextUpdate,
            SyncAction::NextUpdate,
        ),
        (SyncState::NextUpdate, SyncEvent::Update(Ok(Some(update)))) => after_update(update),
        (SyncState::Apply, SyncEvent::Done(Ok(_))) => (SyncState::Publish, SyncAction::Publish),
        (SyncState::ReadUpdateSnapshot { .. }, SyncEvent::Segment(Ok(Some(recent)))) => (
            SyncState::Apply,
            SyncAction::SetRecent(recent),
        ),
        (SyncState::ReadUpdateSnapshot { pointer }, SyncEvent::Segment(Ok(None))) => (
            SyncState::ReadCurrentPointer { pointer },
            SyncAction::GetCurrentRecent,
        ),
        (SyncState::ReadCurrentPointer { pointer }, SyncEvent::Pointer(Ok(current))) =>
            match current {
                Some(current) if current.key@ != pointer.key@ => (
                    SyncState::ReadCurrentSnapshot,
                    SyncAction::GetRecentSnapshot(current),
                ),
                _ => (SyncState::NextUpdate, SyncAction::NextUpdate),
            },
        (SyncState::ReadCurrentSnapshot, SyncEvent::Segment(Ok(Some(recent)))) => (
            SyncState::Apply,
            SyncAction::SetRecent(recent),
        ),
        (SyncState::ReadCurrentSnapshot, SyncEvent::Segment(Ok(None))) => (
            SyncState::NextUpdate,
            SyncAction::NextUpdate,
        ),
        (SyncState::Publish, SyncEvent::Done(Ok(_))) => (
            SyncState::NextUpdate,
            SyncAction::NextUpdate,
        ),
        (SyncState::CheckRetry, SyncEvent::Cancelled(false)) => (
            SyncState::RecordDown,
            SyncAction::RecordIsDown,
        ),
        (SyncState::RecordDown, SyncEvent::Done(Ok(_))) => (
            SyncState::SleepRetry,
            SyncAction::Sleep(RETRY_WAIT_SECS),
        ),
        (SyncState::SleepRetry, SyncEvent::Slept) => (SyncState::Watch, SyncAction::WatchChanges),
        _ => if state.follows() {
            watch_ended()
        } else {
            failed()
        },
    }
}

impl<S, C> SyncState<S, C> {
    /// Whether the view does not exist yet.
    pub open spec fn starting(self) -> bool {
        match self {
            SyncState::CheckStartingBlock
            | SyncState::ReadStartingBlock
            | SyncState::SleepStartingBlock
            | SyncState::CheckFinalized { .. }
            | SyncState::ReadFinalized { .. }
            | SyncState::SleepFinalized { .. }
            | SyncState::ReadSegmented { .. }
            | SyncState::ReadGrouped { .. }
            | SyncState::CheckRecent { .. }
            | SyncState::ReadRecent { .. }
            | SyncState::ReadSnapshot { .. }
            | SyncState::ReadLegacyIngested { .. }
            | SyncState::ReadLegacyRecent { .. }
            | SyncState::SleepRecent { .. }
            | SyncState::CheckInitialize { .. }
            | SyncState::ReadChainSegmentSize { .. }
            | SyncState::Initialize { .. }
            | SyncState::ReadSegmentSize { .. }
            | SyncState::ReadGroupSize { .. } => true,
            _ => false,
        }
    }

    /// Whether the ingestion state is followed, so that a failure is retried.
    pub open spec fn follows(self) -> bool {
        match self {
            SyncState::Watch
            | SyncState::RecordUp
            | SyncState::NextUpdate
            | SyncState::Apply
            | SyncState::ReadUpdateSnapshot { .. }
            | SyncState::ReadCurrentPointer { .. }
            | SyncState::ReadCurrentSnapshot
            | SyncState::Publish => true,
            _ => false,
        }
    }

    /// Whether an event answers the action that the service asked for.
    pub open spec fn expects(self, event: SyncEvent<S, C>) -> bool {
        match self {
            SyncState::CheckStartingBlock
            | SyncState::CheckFinalized { .. }
            | SyncState::CheckRecent { .. }
            | SyncState::CheckInitialize { .. }
            | SyncState::CheckWatch
            | SyncState::CheckRetry => event is Cancelled,
            SyncState::SleepStartingBlock
            | SyncState::SleepFinalized { .. }
            | SyncState::SleepRecent { .. }
            | SyncState::SleepRetry => event is Slept,
            SyncState::ReadStartingBlock
            | SyncState::ReadFinalized { .. }
            | SyncState::ReadSegmented { .. }
            | SyncState::ReadGrouped { .. } => event is Block,
            SyncState::ReadRecent { .. }
            | SyncState::ReadCurrentPointer { .. } => event is Pointer,
            SyncState::ReadLegacyIngested { .. } => event is Legacy,
            SyncState::ReadSnapshot { .. }
            | SyncState::ReadLegacyRecent { .. }
            | SyncState::ReadUpdateSnapshot { .. }
            | SyncState::ReadCurrentSnapshot => event is Segment,
            SyncState::ReadChainSegmentSize { .. }
            | SyncState::ReadSegmentSize { .. }
            | SyncState::ReadGroupSize { .. } => event is Size,
            SyncState::Initialize { .. } => event is Chain,
            SyncState::CreateView
            | SyncState::FirstPublish
            | SyncState::RecordUp
            | SyncState::Apply
            | SyncState::Publish
            | SyncState::RecordDown => event is Done,
            SyncState::Watch => event is Watching,
            SyncState::NextUpdate => event is Update,
            SyncState::Returned => false,
        }
    }

    /// What follows on an event. Cancellation ends the service wherever it is
    /// looked at.
    pub open spec fn next(self, event: SyncEvent<S, C>) -> (SyncState<S, C>, SyncAction<S, C>) {
        if event is Cancelled && event->Cancelled_0 && self.expects(event) {
            stopped()
        } else if self.starting() {
            startup_next(self, event)
        } else {
            watch_next(self, event)
        }
    }
}

/// Ends the service with an error.
fn fail<S, C>() -> (r: (SyncState<S, C>, SyncAction<S, C>))
    ensures
        r == failed::<S, C>(),
{
    (SyncState::Returned, SyncAction::Return(Err(ChainViewError)))
}

/// Goes on to a retry, unless the service was cancelled.
fn end_watch<S, C>() -> (r: (SyncState<S, C>, SyncAction<S, C>))
    ensures
        r == watch_ended::<S, C>(),
{
    (SyncState::CheckRetry, SyncAction::CheckCancelled)
}

/// Takes the recent segment that startup waited for.
fn use_recent<S, C>(read: IngestionState, segment: Result<Option<S>, ChainViewError>) -> (r: (
    SyncState<S, C>,
    SyncAction<S, C>,
))
    ensures
        r == after_recent::<S, C>(read, segment),
{
    match segment {
        Err(_) => fail(),
        Ok(Some(recent)) => (
            SyncState::CheckInitialize { read, recent },
            SyncAction::CheckCancelled,
        ),
        Ok(None) => (SyncState::SleepRecent { read }, SyncAction::Sleep(STARTUP_WAIT_SECS)),
    }
}

/// Takes a step of the startup.
fn startup_step<S, C>(state: SyncState<S, C>, event: SyncEvent<S, C>) -> (r: (
    SyncState<S, C>,
    SyncAction<S, C>,
))
    ensures
        r == startup_next(state, event),
{
    match (state, event) {
        (SyncState::CheckStartingBlock, SyncEvent::Cancelled(false)) => (
            SyncState::ReadStartingBlock,
            SyncAction::GetStartingBlock,
        ),
        (SyncState::ReadStartingBlock, SyncEvent::Block(Ok(Some(starting_block)))) => (
            SyncState::CheckFinalized { starting_block },
            SyncAction::CheckCancelled,
        ),
        (SyncState::ReadStartingBlock, SyncEvent::Block(Ok(None))) => (
            SyncState::SleepStartingBlock,
            SyncAction::Sleep(STARTUP_WAIT_SECS),
        ),
        (SyncState::SleepStartingBlock, SyncEvent::Slept) => (
            SyncState::CheckStartingBlock,
            SyncAction::CheckCancelled,
        ),
        (SyncState::CheckFinalized { starting_block }, SyncEvent::Cancelled(false)) => (
            SyncState::ReadFinalized { starting_block },
            SyncAction::GetFinalized,
        ),
        (SyncState::ReadFinalized { starting_block }, SyncEvent::Block(Ok(Some(finalized)))) => (
            SyncState::ReadSegmented { starting_block, finalized },
            SyncAction::GetSegmented,
        ),
        (SyncState::ReadFinalized { starting_block }, SyncEvent::Block(Ok(None))) => (
            SyncState::SleepFinalized { starting_block },
            SyncAction::Sleep(STARTUP_WAIT_SECS),
        ),
        (SyncState::SleepFinalized { starting_block }, SyncEvent::Slept) => (
            SyncState::CheckFinalized { starting_block },
            SyncAction::CheckCancelled,
        ),
        (
            SyncState::ReadSegmented { starting_block, finalized },
            SyncEvent::Block(Ok(segmented)),
        ) => (
            SyncState::ReadGrouped { starting_block, finalized, segmented },
            SyncAction::GetGrouped,
        ),
        (
            SyncState::ReadGrouped { starting_block, finalized, segmented },
            SyncEvent::Block(Ok(grouped)),
        ) => (
            SyncState::CheckRecent {
                read: IngestionState { starting_block, finalized, segmented, grouped },
            },
            SyncAction::CheckCancelled,
        ),
        (SyncState::CheckRecent { read }, SyncEvent::Cancelled(false)) => (
            SyncState::ReadRecent { read },
            SyncAction::GetRecent,
        ),
        (SyncState::ReadRecent { read }, SyncEvent::Pointer(pointer)) => ChainViewSyncService::get_recent(
            read,
            pointer,
        ),
        (SyncState::ReadSnapshot { read }, SyncEvent::Segment(segment)) => use_recent(
            read,
            segment,
        ),
        (SyncState::ReadLegacyIngested { read }, SyncEvent::Legacy(legacy)) =>
            ChainViewSyncService::get_legacy_recent(read, legacy),
        (SyncState::ReadLegacyRecent { read }, SyncEvent::Segment(segment)) => use_recent(
            read,
            segment,
        ),
        (SyncState::SleepRecent { read }, SyncEvent::Slept) => (
            SyncState::CheckRecent { read },
            SyncAction::CheckCancelled,
        ),
        (SyncState::CheckInitialize { read, recent }, SyncEvent::Cancelled(false)) => (
            SyncState::ReadChainSegmentSize { read, recent },
            SyncAction::GetChainSegmentSize,
        ),
        (SyncState::ReadChainSegmentSize { read, recent }, SyncEvent::Size(Ok(Some(size)))) => (
            SyncState::Initialize { read },
            SyncAction::InitializeChain {
                starting_block: read.starting_block,
                chain_segment_size: size,
                recent,
            },
        ),
        (SyncState::Initialize { read }, SyncEvent::Chain(Ok(canonical_chain))) => (
            SyncState::ReadSegmentSize { read, canonical_chain },
            SyncAction::GetSegmentSize,
        ),
        (
            SyncState::ReadSegmentSize { read, canonical_chain },
            SyncEvent::Size(Ok(Some(segment_size))),
        ) => (
            SyncState::ReadGroupSize { read, canonical_chain, segment_size },
            SyncAction::GetGroupSize,
        ),
        (
            SyncState::ReadGroupSize { read, canonical_chain, segment_size },
            SyncEvent::Size(Ok(Some(group_size))),
        ) => (
            SyncState::CreateView,
            SyncAction::CreateView(
                ViewParts {
                    finalized: read.finalized,
                    segmented: read.segmented,
                    grouped: read.grouped,
                    segment_size: segment_size as u64,
                    group_size: group_size as u64,
                    canonical_chain,
                },
            ),
        ),
        _ => fail(),
    }
}

/// Changes the view by an update.
fn apply_update<S, C>(update: IngestionStateUpdate) -> (r: (SyncState<S, C>, SyncAction<S, C>))
    ensures
        r == after_update::<S, C>(update),
{
    match update {
        IngestionStateUpdate::StartingBlock(_) => (SyncState::Publish, SyncAction::Publish),
        IngestionStateUpdate::Finalized(block) => (
            SyncState::Apply,
            SyncAction::SetFinalizedBlock(block),
        ),
        IngestionStateUpdate::Segmented(block) => (
            SyncState::Apply,
            SyncAction::SetSegmentedBlock(block),
        ),
        IngestionStateUpdate::Grouped(block) => (
            SyncState::Apply,
            SyncAction::SetGroupedBlock(block),
        ),
        IngestionStateUpdate::Pending(generation) => (
            SyncState::Apply,
            SyncAction::SetPendingGeneration(generation),
        ),
        IngestionStateUpdate::Recent(pointer) => (
            SyncState::ReadUpdateSnapshot { pointer: pointer.clone() },
            SyncAction::GetRecentSnapshot(pointer),
        ),
    }
}

/// Takes a step of following the state.
fn watch_step<S, C>(state: SyncState<S, C>, event: SyncEvent<S, C>) -> (r: (
    SyncState<S, C>,
    SyncAction<S, C>,
))
    ensures
        r == watch_next(state, event),
{
    let follows: bool = state.is_following();
    match (state, event) {
        (SyncState::CreateView, SyncEvent::Done(Ok(_))) => (
            SyncState::FirstPublish,
            SyncAction::Publish,
        ),
        (SyncState::FirstPublish, SyncEvent::Done(Ok(_))) => (
            SyncState::CheckWatch,
            SyncAction::CheckCancelled,
        ),
        (SyncState::CheckWatch, SyncEvent::Cancelled(false)) => (
            SyncState::Watch,
            SyncAction::WatchChanges,
        ),
        (SyncState::Watch, SyncEvent::Watching(Ok(_))) => (
            SyncState::RecordUp,
            SyncAction::RecordIsUp,
        ),
        (SyncState::RecordUp, SyncEvent::Done(Ok(_))) => (
            SyncState::NextUpdate,
            SyncAction::NextUpdate,
        ),
        (SyncState::NextUpdate, SyncEvent::Update(Ok(Some(update)))) => apply_update(update),
        (SyncState::Apply, SyncEvent::Done(Ok(_))) => (SyncState::Publish, SyncAction::Publish),
        (SyncState::ReadUpdateSnapshot { .. }, SyncEvent::Segment(Ok(Some(recent)))) => (
            SyncState::Apply,
            SyncAction::SetRecent(recent),
        ),
        (SyncState::ReadUpdateSnapshot { pointer }, SyncEvent::Segment(Ok(None))) => (
            SyncState::ReadCurrentPointer { pointer },
            SyncAction::GetCurrentRecent,
        ),
        (SyncState::ReadCurrentPointer { pointer }, SyncEvent::Pointer(Ok(current))) =>
            match current {
                Some(current) if !same_text(current.key.as_str(), pointer.key.as_str()) => (
                    SyncState::ReadCurrentSnapshot,
                    SyncAction::GetRecentSnapshot(current),
                ),
                _ => (SyncState::NextUpdate, SyncAction::NextUpdate),
            },
        (SyncState::ReadCurrentSnapshot, SyncEvent::Segment(Ok(Some(recent)))) => (
            SyncState::Apply,
            SyncAction::SetRecent(recent),
        ),
        (SyncState::ReadCurrentSnapshot, SyncEvent::Segment(Ok(None))) => (
            SyncState::NextUpdate,
            SyncAction::NextUpdate,
        ),
        (SyncState::Publish, SyncEvent::Done(Ok(_))) => (
            SyncState::NextUpdate,
            SyncAction::NextUpdate,
        ),
        (SyncState::CheckRetry, SyncEvent::Cancelled(false)) => (
            SyncState::RecordDown,
            SyncAction::RecordIsDown,
        ),
        (SyncState::RecordDown, SyncEvent::Done(Ok(_))) => (
            SyncState::SleepRetry,
            SyncAction::Sleep(RETRY_WAIT_SECS),
        ),
        (SyncState::SleepRetry, SyncEvent::Slept) => (SyncState::Watch, SyncAction::WatchChanges),
        _ => if follows {
            end_watch()
        } else {
            fail()
        },
    }
}

impl<S, C> SyncState<S, C> {
    /// Whether the view does not exist yet.
    fn is_starting(&self) -> (r: bool)
        ensures
            r == self.starting(),
    {
        match self {
            SyncState::CheckStartingBlock
            | SyncState::ReadStartingBlock
            | SyncState::SleepStartingBlock
            | SyncState::CheckFinalized { .. }
            | SyncState::ReadFinalized { .. }
            | SyncState::SleepFinalized { .. }
            | SyncState::ReadSegmented { .. }
            | SyncState::ReadGrouped { .. }
            | SyncState::CheckRecent { .. }
            | SyncState::ReadRecent { .. }
            | SyncState::ReadSnapshot { .. }
            | SyncState::ReadLegacyIngested { .. }
            | SyncState::ReadLegacyRecent { .. }
            | SyncState::SleepRecent { .. }
            | SyncState::CheckInitialize { .. }
            | SyncState::ReadChainSegmentSize { .. }
            | SyncState::Initialize { .. }
            | SyncState::ReadSegmentSize { .. }
            | SyncState::ReadGroupSize { .. } => true,
            _ => false,
        }
    }

    /// Whether the ingestion state is followed.
    fn is_following(&self) -> (r: bool)
        ensures
            r == self.follows(),
    {
        match self {
            SyncState::Watch
            | SyncState::RecordUp
            | SyncState::NextUpdate
            | SyncState::Apply
            | SyncState::ReadUpdateSnapshot { .. }
            | SyncState::ReadCurrentPointer { .. }
            | SyncState::ReadCurrentSnapshot
            | SyncState::Publish => true,
            _ => false,
        }
    }

    /// Whether the service waits to hear if it was cancelled.
    fn checks_cancelled(&self) -> (r: bool)
        ensures
            r == self.expects(SyncEvent::Cancelled(true)),
    {
        match self {
            SyncState::CheckStartingBlock
            | SyncState::CheckFinalized { .. }
            | SyncState::CheckRecent { .. }
            | SyncState::CheckInitialize { .. }
            | SyncState::CheckWatch
            | SyncState::CheckRetry => true,
            _ => false,
        }
    }
}

/// The service that keeps the chain view.
pub struct ChainViewSyncService<S, C> {
    /// What the service waits for.
    pub state: SyncState<S, C>,
    /// Whether a view was published: before, consumers see none.
    pub published: bool,
}

impl<S, C> ChainViewSyncService<S, C> {
    /// The service before it has done anything.
    pub open spec fn initial() -> Self {
        ChainViewSyncService { state: SyncState::CheckStartingBlock, published: false }
    }

    /// The service after an event.
    pub open spec fn after(self, event: SyncEvent<S, C>) -> Self {
        ChainViewSyncService {
            state: self.state.next(event).0,
            published: self.published || (event is Done && event->Done_0 is Ok && (
            self.state is FirstPublish || self.state is Publish)),
        }
    }

    fn new() -> (r: Self)
        ensures
            r == Self::initial(),
    {
        ChainViewSyncService { state: SyncState::CheckStartingBlock, published: false }
    }

    /// Goes on from the pointer to the recent segment that the ingester has
    /// published.
    ///
    /// Without a pointer the legacy layout is tried. A pointer whose object is
    /// gone was superseded and cleaned up, so that the next try finds its
    /// successor.
    pub fn get_recent(
        read: IngestionState,
        pointer: Result<Option<RecentSegmentPointer>, IngestionStateClientError>,
    ) -> (r: (SyncState<S, C>, SyncAction<S, C>))
        ensures
            r == after_recent_pointer::<S, C>(read, pointer),
    {
        match pointer {
            Err(_) => fail(),
            Ok(Some(pointer)) => (
                SyncState::ReadSnapshot { read },
                SyncAction::GetRecentSnapshot(pointer),
            ),
            Ok(None) => (SyncState::ReadLegacyIngested { read }, SyncAction::GetLegacyIngested),
        }
    }

    /// Goes on from the legacy key, which ingesters that predate the pointer
    /// set.
    pub fn get_legacy_recent(
        read: IngestionState,
        legacy: Result<Option<String>, IngestionStateClientError>,
    ) -> (r: (SyncState<S, C>, SyncAction<S, C>))
        ensures
            r == after_legacy_ingested::<S, C>(read, legacy),
    {
        match legacy {
            Err(_) => fail(),
            Ok(Some(_)) => (SyncState::ReadLegacyRecent { read }, SyncAction::GetLegacyRecent),
            Ok(None) => (SyncState::SleepRecent { read }, SyncAction::Sleep(STARTUP_WAIT_SECS)),
        }
    }

    /// Starts the service from the beginning, with its first action.
    pub fn start(self) -> (r: (Self, SyncAction<S, C>))
        ensures
            r.0.state == SyncState::<S, C>::CheckStartingBlock,
            r.0.published == self.published,
            r.1 == SyncAction::<S, C>::CheckCancelled,
    {
        (
            ChainViewSyncService {
                state: SyncState::CheckStartingBlock,
                published: self.published,
            },
            SyncAction::CheckCancelled,
        )
    }

    /// Takes an event and says what to do next.
    ///
    /// The event is to answer the last action. One that does not counts as a
    /// failure of that action.
    pub fn step(&mut self, event: SyncEvent<S, C>) -> (r: SyncAction<S, C>)
        ensures
            *final(self) == old(self).after(event),
            r == old(self).state.next(event).1,
    {
        let mut state: SyncState<S, C> = SyncState::Returned;
        std::mem::swap(&mut state, &mut self.state);
        let publishing: bool = matches!(state, SyncState::FirstPublish)
            || matches!(state, SyncState::Publish);
        if publishing && matches!(event, SyncEvent::Done(Ok(_))) {
            self.published = true;
        }
        if matches!(event, SyncEvent::Cancelled(true)) && state.checks_cancelled() {
            return SyncAction::Return(Ok(()));
        }
        let next: (SyncState<S, C>, SyncAction<S, C>) = if state.is_starting() {
            startup_step(state, event)
        } else {
            watch_step(state, event)
        };
        self.state = next.0;
        next.1
    }
}

/// Creates the service. Nothing is published yet.
pub fn chain_view_sync_loop<S, C>() -> (r: Result<ChainViewSyncService<S, C>, ChainViewError>)
    ensures
        r == Ok::<ChainViewSyncService<S, C>, ChainViewError>(
            ChainViewSyncService::<S, C>::initial(),
        ),
{
    Ok(ChainViewSyncService::new())
}

impl<S, C> SyncEvent<S, C> {
    /// Whether an event says that the action failed. The end of the updates
    /// counts as a failure, and so does an option that is not set.
    pub open spec fn fails(self) -> bool {
        match self {
            SyncEvent::Cancelled(_) | SyncEvent::Slept => false,
            SyncEvent::Block(answer) => answer is Err,
            SyncEvent::Pointer(answer) => answer is Err,
            SyncEvent::Legacy(answer) => answer is Err,
            SyncEvent::Segment(answer) => answer is Err,
            SyncEvent::Size(answer) => answer is Err || answer->Ok_0 is None,
            SyncEvent::Chain(answer) => answer is Err,
            SyncEvent::Done(answer) => answer is Err,
            SyncEvent::Watching(answer) => answer is Err,
            SyncEvent::Update(answer) => answer is Err || answer->Ok_0 is None,
        }
    }
}

/// Law: the service ends without an error exactly when it hears that it was
/// cancelled.
pub proof fn ends_cleanly_exactly_on_cancellation<S, C>(
    state: SyncState<S, C>,
    event: SyncEvent<S, C>,
)
    requires
        state.expects(event),
    ensures
        (state.next(event).1 is Return && state.next(event).1->Return_0 is Ok) <==> (
        event is Cancelled && event->Cancelled_0),
{
}

/// Law: until the first view is published, a failure ends the service.
pub proof fn startup_failure_ends_the_service<S, C>(
    state: SyncState<S, C>,
    event: SyncEvent<S, C>,
)
    requires
        state.starting() || state is CreateView || state is FirstPublish,
        state.expects(event),
        event.fails(),
    ensures
        state.next(event) == failed::<S, C>(),
{
}

/// Law: while the state is followed, any failure leads to another try: unless
/// the service was cancelled it records that the view is down, waits, and
/// follows the state anew.
pub proof fn watch_failure_is_retried<S, C>(state: SyncState<S, C>, event: SyncEvent<S, C>)
    requires
        state.follows(),
        state.expects(event),
        event.fails(),
    ensures
        state.next(event) == watch_ended::<S, C>(),
        state.next(event).0.next(SyncEvent::Cancelled(true)) == stopped::<S, C>(),
        state.next(event).0.next(SyncEvent::Cancelled(false)) == (
            SyncState::<S, C>::RecordDown,
            SyncAction::<S, C>::RecordIsDown,
        ),
        SyncState::<S, C>::RecordDown.next(SyncEvent::Done(Ok(()))) == (
            SyncState::<S, C>::SleepRetry,
            SyncAction::<S, C>::Sleep(RETRY_WAIT_SECS),
        ),
        SyncState::<S, C>::SleepRetry.next(SyncEvent::Slept) == (
            SyncState::<S, C>::Watch,
            SyncAction::<S, C>::WatchChanges,
        ),
{
}

/// Law: once a view is published, the service fails only when it cannot even
/// record that the view is down.
pub proof fn published_view_is_kept<S, C>(state: SyncState<S, C>, event: SyncEvent<S, C>)
    requires
        !state.starting() && !(state is CreateView) && !(state is FirstPublish),
        state.expects(event),
        state.next(event).1 is Return,
        state.next(event).1->Return_0 is Err,
    ensures
        state is RecordDown,
        event is Done,
        event->Done_0 is Err,
{
}

/// Law: an ingester that has not started is waited for. The service sleeps,
/// looks whether it was cancelled, and asks again for the same thing with what
/// it knows unchanged.
pub proof fn missing_state_is_waited_for<S, C>(starting_block: u64, read: IngestionState)
    ensures
        ({
            let asleep = SyncState::<S, C>::ReadStartingBlock.next(SyncEvent::Block(Ok(None)));
            let checking = asleep.0.next(SyncEvent::Slept);
            &&& asleep.1 == SyncAction::<S, C>::Sleep(STARTUP_WAIT_SECS)
            &&& checking.1 == SyncAction::<S, C>::CheckCancelled
            &&& checking.0.next(SyncEvent::Cancelled(false)) == (
                SyncState::<S, C>::ReadStartingBlock,
                SyncAction::<S, C>::GetStartingBlock,
            )
        }),
        ({
            let reading = SyncState::<S, C>::ReadFinalized { starting_block };
            let asleep = reading.next(SyncEvent::Block(Ok(None)));
            let checking = asleep.0.next(SyncEvent::Slept);
            &&& asleep.1 == SyncAction::<S, C>::Sleep(STARTUP_WAIT_SECS)
            &&& checking.1 == SyncAction::<S, C>::CheckCancelled
            &&& checking.0.next(SyncEvent::Cancelled(false)) == (
                reading,
                SyncAction::<S, C>::GetFinalized,
            )
        }),
        ({
            let reading = SyncState::<S, C>::ReadLegacyIngested { read };
            let asleep = reading.next(SyncEvent::Legacy(Ok(None)));
            let checking = asleep.0.next(SyncEvent::Slept);
            &&& asleep.1 == SyncAction::<S, C>::Sleep(STARTUP_WAIT_SECS)
            &&& checking.1 == SyncAction::<S, C>::CheckCancelled
            &&& checking.0.next(SyncEvent::Cancelled(false)) == (
                SyncState::<S, C>::ReadRecent { read },
                SyncAction::<S, C>::GetRecent,
            )
        }),
{
}

/// Law: a pointer whose object is gone does not fail the startup. The service
/// waits, and reads the pointer anew.
pub proof fn stale_pointer_is_read_again_at_startup<S, C>(read: IngestionState)
    ensures
        ({
            let asleep = SyncState::<S, C>::ReadSnapshot { read }.next(SyncEvent::Segment(Ok(None)));
            let checking = asleep.0.next(SyncEvent::Slept);
            &&& asleep.1 == SyncAction::<S, C>::Sleep(STARTUP_WAIT_SECS)
            &&& checking.1 == SyncAction::<S, C>::CheckCancelled
            &&& checking.0.next(SyncEvent::Cancelled(false)) == (
                SyncState::<S, C>::ReadRecent { read },
                SyncAction::<S, C>::GetRecent,
            )
        }),
{
}

/// Law: an update of a recent segment whose object is gone does not end the
/// watch. The current pointer is read; where it is the same one, or there is
/// none, the update is skipped and nothing is published. Where it is another
/// one, the segment it points to takes the place of the missing one, or the
/// update is skipped when that is gone too.
pub proof fn missing_snapshot_is_recovered_or_skipped<S, C>(
    pointer: RecentSegmentPointer,
    current: Option<RecentSegmentPointer>,
    recent: S,
)
    ensures
        ({
            let updated = SyncState::<S, C>::NextUpdate.next(
                SyncEvent::Update(Ok(Some(IngestionStateUpdate::Recent(pointer)))),
            );
            let missing = updated.0.next(SyncEvent::Segment(Ok(None)));
            let reread = missing.0.next(SyncEvent::Pointer(Ok(current)));
            &&& updated.1 == SyncAction::<S, C>::GetRecentSnapshot(pointer)
            &&& missing.1 == SyncAction::<S, C>::GetCurrentRecent
            &&& if current matches Some(other) && other.key@ != pointer.key@ {
                &&& reread.1 == SyncAction::<S, C>::GetRecentSnapshot(current->0)
                &&& reread.0.next(SyncEvent::Segment(Ok(Some(recent)))) == (
                    SyncState::<S, C>::Apply,
                    SyncAction::<S, C>::SetRecent(recent),
                )
                &&& reread.0.next(SyncEvent::Segment(Ok(None))) == (
                    SyncState::<S, C>::NextUpdate,
                    SyncAction::<S, C>::NextUpdate,
                )
            } else {
                reread == (SyncState::<S, C>::NextUpdate, SyncAction::<S, C>::NextUpdate)
            }
        }),
{
}

/// Law: an update of the recent segment whose object is there changes the view,
/// the view is published, and the next update is waited for.
pub proof fn recent_update_is_applied_and_published<S, C>(
    pointer: RecentSegmentPointer,
    recent: S,
)
    ensures
        ({
            let updated = SyncState::<S, C>::NextUpdate.next(
                SyncEvent::Update(Ok(Some(IngestionStateUpdate::Recent(pointer)))),
            );
            let loaded = updated.0.next(SyncEvent::Segment(Ok(Some(recent))));
            let applied = loaded.0.next(SyncEvent::Done(Ok(())));
            &&& updated.1 == SyncAction::<S, C>::GetRecentSnapshot(pointer)
            &&& loaded.1 == SyncAction::<S, C>::SetRecent(recent)
            &&& applied.1 == SyncAction::<S, C>::Publish
            &&& applied.0.next(SyncEvent::Done(Ok(()))) == (
                SyncState::<S, C>::NextUpdate,
                SyncAction::<S, C>::NextUpdate,
            )
        }),
{
}

/// Law: any other update changes the view, the view is published, and the next
/// update is waited for. An update of the starting block changes nothing, and
/// the view is published all the same.
pub proof fn update_is_applied_and_published<S, C>(update: IngestionStateUpdate)
    requires
        !(update is Recent),
    ensures
        ({
            let updated = SyncState::<S, C>::NextUpdate.next(SyncEvent::Update(Ok(Some(update))));
            &&& updated.1 == match update {
                IngestionStateUpdate::Finalized(block) => SyncAction::<S, C>::SetFinalizedBlock(
                    block,
                ),
                IngestionStateUpdate::Segmented(block) => SyncAction::SetSegmentedBlock(block),
                IngestionStateUpdate::Grouped(block) => SyncAction::SetGroupedBlock(block),
                IngestionStateUpdate::Pending(generation) => SyncAction::SetPendingGeneration(
                    generation,
                ),
                _ => SyncAction::Publish,
            }
            &&& !(update is StartingBlock) ==> updated.0.next(SyncEvent::Done(Ok(()))) == (
                SyncState::<S, C>::Publish,
                SyncAction::<S, C>::Publish,
            )
        }),
        SyncState::<S, C>::Publish.next(SyncEvent::Done(Ok(()))) == (
            SyncState::<S, C>::NextUpdate,
            SyncAction::<S, C>::NextUpdate,
        ),
{
}

/// Law: a startup goes on with every answer that is there. From the first
/// check on, each answer leads to the next question, and the view is created of
/// just these answers: blocks that were never segmented or grouped are none,
/// and take nothing away. The view is published, and the state is followed.
pub proof fn startup_leads_to_a_published_view<S, C>(
    read: IngestionState,
    pointer: RecentSegmentPointer,
    recent: S,
    chain_segment_size: usize,
    canonical_chain: C,
    segment_size: usize,
    group_size: usize,
)
    ensures
        ({
            let asked_start = ChainViewSyncService::<S, C>::initial().state.next(
                SyncEvent::Cancelled(false),
            );
            let started = asked_start.0.next(SyncEvent::Block(Ok(Some(read.starting_block))));
            let asked_finalized = started.0.next(SyncEvent::Cancelled(false));
            let asked_segmented = asked_finalized.0.next(
                SyncEvent::Block(Ok(Some(read.finalized))),
            );
            let asked_grouped = asked_segmented.0.next(SyncEvent::Block(Ok(read.segmented)));
            let known = asked_grouped.0.next(SyncEvent::Block(Ok(read.grouped)));
            let asked_recent = known.0.next(SyncEvent::Cancelled(false));
            let asked_snapshot = asked_recent.0.next(SyncEvent::Pointer(Ok(Some(pointer))));
            let loaded = asked_snapshot.0.next(SyncEvent::Segment(Ok(Some(recent))));
            let asked_chain_size = loaded.0.next(SyncEvent::Cancelled(false));
            let building = asked_chain_size.0.next(SyncEvent::Size(Ok(Some(chain_segment_size))));
            let built = building.0.next(SyncEvent::Chain(Ok(canonical_chain)));
            let asked_group_size = built.0.next(SyncEvent::Size(Ok(Some(segment_size))));
            let creating = asked_group_size.0.next(SyncEvent::Size(Ok(Some(group_size))));
            let created = creating.0.next(SyncEvent::Done(Ok(())));
            let published = created.0.next(SyncEvent::Done(Ok(())));
            let watching = published.0.next(SyncEvent::Cancelled(false));
            let watched = watching.0.next(SyncEvent::Watching(Ok(())));
            let up = watched.0.next(SyncEvent::Done(Ok(())));
            &&& asked_start.1 == SyncAction::<S, C>::GetStartingBlock
            &&& started.1 == SyncAction::<S, C>::CheckCancelled
            &&& asked_finalized.1 == SyncAction::<S, C>::GetFinalized
            &&& asked_segmented.1 == SyncAction::<S, C>::GetSegmented
            &&& asked_grouped.1 == SyncAction::<S, C>::GetGrouped
            &&& known == (SyncState::<S, C>::CheckRecent { read }, SyncAction::<S, C>::CheckCancelled)
            &&& asked_recent.1 == SyncAction::<S, C>::GetRecent
            &&& asked_snapshot.1 == SyncAction::<S, C>::GetRecentSnapshot(pointer)
            &&& loaded.1 == SyncAction::<S, C>::CheckCancelled
            &&& asked_chain_size.1 == SyncAction::<S, C>::GetChainSegmentSize
            &&& building.1 == (SyncAction::<S, C>::InitializeChain {
                starting_block: read.starting_block,
                chain_segment_size,
                recent,
            })
            &&& built.1 == SyncAction::<S, C>::GetSegmentSize
            &&& asked_group_size.1 == SyncAction::<S, C>::GetGroupSize
            &&& creating.1 matches SyncAction::CreateView(parts)
            &&& parts.finalized == read.finalized
            &&& parts.segmented == read.segmented
            &&& parts.grouped == read.grouped
            &&& parts.segment_size == segment_size
            &&& parts.group_size == group_size
            &&& parts.canonical_chain == canonical_chain
            &&& created.1 == SyncAction::<S, C>::Publish
            &&& published.1 == SyncAction::<S, C>::CheckCancelled
            &&& watching.1 == SyncAction::<S, C>::WatchChanges
            &&& watched.1 == SyncAction::<S, C>::RecordIsUp
            &&& up == (SyncState::<S, C>::NextUpdate, SyncAction::<S, C>::NextUpdate)
        }),
{
}

/// Law: the legacy layout leads to the same place as the pointer. Where there
/// is no pointer and the legacy key is set, whatever its value, the legacy
/// segment takes the place of the one that a pointer points to.
pub proof fn legacy_layout_serves_as_well<S, C>(
    read: IngestionState,
    pointer: RecentSegmentPointer,
    legacy: String,
    recent: S,
)
    ensures
        ({
            let asked = SyncState::<S, C>::CheckRecent { read }.next(SyncEvent::Cancelled(false)).0;
            let snapshot = asked.next(SyncEvent::Pointer(Ok(Some(pointer)))).0.next(
                SyncEvent::Segment(Ok(Some(recent))),
            );
            let no_pointer = asked.next(SyncEvent::Pointer(Ok(None)));
            let keyed = no_pointer.0.next(SyncEvent::Legacy(Ok(Some(legacy))));
            &&& no_pointer.1 == SyncAction::<S, C>::GetLegacyIngested
            &&& keyed.1 == SyncAction::<S, C>::GetLegacyRecent
            &&& keyed.0.next(SyncEvent::Segment(Ok(Some(recent)))) == snapshot
        }),
{
}

/// Law: going on from the pointer, and from the legacy key, is what the service
/// itself does once it has read them.
pub proof fn service_goes_on_from_what_it_reads<S, C>(
    read: IngestionState,
    pointer: Result<Option<RecentSegmentPointer>, IngestionStateClientError>,
    legacy: Result<Option<String>, IngestionStateClientError>,
)
    ensures
        ({
            let asked = SyncState::<S, C>::CheckRecent { read }.next(SyncEvent::Cancelled(false)).0;
            after_recent_pointer::<S, C>(read, pointer) == asked.next(SyncEvent::Pointer(pointer))
        }),
        after_legacy_ingested::<S, C>(read, legacy) == after_recent_pointer::<S, C>(
            read,
            Ok(None),
        ).0.next(SyncEvent::Legacy(legacy)),
{
}

/// Law: wherever something that the startup needs is not there yet, the service
/// waits ten seconds, looks whether it was cancelled, and is then back at the
/// same question, as if it had just asked it for the first time.
pub proof fn waiting_leads_back_to_the_question<S, C>(
    starting_block: u64,
    read: IngestionState,
    pointer: RecentSegmentPointer,
    legacy: String,
)
    ensures
        ({
            let asked_start = SyncState::<S, C>::CheckStartingBlock.next(
                SyncEvent::Cancelled(false),
            );
            let asked_finalized = asked_start.0.next(
                SyncEvent::Block(Ok(Some(starting_block))),
            ).0.next(SyncEvent::Cancelled(false));
            let asked_recent = SyncState::<S, C>::CheckRecent { read }.next(
                SyncEvent::Cancelled(false),
            );
            let no_pointer = asked_recent.0.next(SyncEvent::Pointer(Ok(None))).0;
            let no_start = asked_start.0.next(SyncEvent::Block(Ok(None)));
            let no_finalized = asked_finalized.0.next(SyncEvent::Block(Ok(None)));
            let no_snapshot = asked_recent.0.next(SyncEvent::Pointer(Ok(Some(pointer)))).0.next(
                SyncEvent::Segment(Ok(None)),
            );
            let no_legacy = no_pointer.next(SyncEvent::Legacy(Ok(None)));
            let no_legacy_recent = no_pointer.next(SyncEvent::Legacy(Ok(Some(legacy)))).0.next(
                SyncEvent::Segment(Ok(None)),
            );
            &&& waits_for(no_start, 10, asked_start)
            &&& waits_for(no_finalized, 10, asked_finalized)
            &&& waits_for(no_snapshot, 10, asked_recent)
            &&& waits_for(no_legacy, 10, asked_recent)
            &&& waits_for(no_legacy_recent, 10, asked_recent)
        }),
{
}

/// Whether the service waits some seconds and then, unless it was cancelled
/// meanwhile, is at another place.
pub open spec fn waits_for<S, C>(
    place: (SyncState<S, C>, SyncAction<S, C>),
    seconds: u64,
    other: (SyncState<S, C>, SyncAction<S, C>),
) -> bool {
    let woken = place.0.next(SyncEvent::Slept);
    &&& place.1 == SyncAction::<S, C>::Sleep(seconds)
    &&& woken.1 == SyncAction::<S, C>::CheckCancelled
    &&& woken.0.next(SyncEvent::Cancelled(false)) == other
    &&& woken.0.next(SyncEvent::Cancelled(true)).1 == SyncAction::<S, C>::Return(Ok(()))
}

/// Law: each action is answered by the one kind of event that it asks for, and
/// once the service has returned nothing is asked any more.
pub proof fn every_action_has_its_answer<S, C>(
    state: SyncState<S, C>,
    event: SyncEvent<S, C>,
    answer: SyncEvent<S, C>,
)
    ensures
        state.next(event).0.expects(answer) <==> match state.next(event).1 {
            SyncAction::CheckCancelled => answer is Cancelled,
            SyncAction::Sleep(_) => answer is Slept,
            SyncAction::GetStartingBlock
            | SyncAction::GetFinalized
            | SyncAction::GetSegmented
            | SyncAction::GetGrouped => answer is Block,
            SyncAction::GetRecent | SyncAction::GetCurrentRecent => answer is Pointer,
            SyncAction::GetLegacyIngested => answer is Legacy,
            SyncAction::GetRecentSnapshot(_) | SyncAction::GetLegacyRecent => answer is Segment,
            SyncAction::GetChainSegmentSize
            | SyncAction::GetSegmentSize
            | SyncAction::GetGroupSize => answer is Size,
            SyncAction::InitializeChain { .. } => answer is Chain,
            SyncAction::CreateView(_)
            | SyncAction::Publish
            | SyncAction::RecordIsUp
            | SyncAction::SetFinalizedBlock(_)
            | SyncAction::SetSegmentedBlock(_)
            | SyncAction::SetGroupedBlock(_)
            | SyncAction::SetPendingGeneration(_)
            | SyncAction::SetRecent(_)
            | SyncAction::RecordIsDown => answer is Done,
            SyncAction::WatchChanges => answer is Watching,
            SyncAction::NextUpdate => answer is Update,
            SyncAction::Return(_) => false,
        },
        state.next(event).1 is Return <==> state.next(event).0 is Returned,
{
}

/// Law: no answer that is good news ends the service or the watch: with every
/// answer that is no failure, unless it is that the service was cancelled, the
/// service goes on to another question.
pub proof fn good_answers_never_end_the_service<S, C>(
    state: SyncState<S, C>,
    event: SyncEvent<S, C>,
)
    requires
        state.expects(event),
        match event {
            SyncEvent::Cancelled(cancelled) => !cancelled,
            SyncEvent::Slept => true,
            SyncEvent::Block(answer) => answer is Ok,
            SyncEvent::Pointer(answer) => answer is Ok,
            SyncEvent::Legacy(answer) => answer is Ok,
            SyncEvent::Segment(answer) => answer is Ok,
            SyncEvent::Size(answer) => answer is Ok && answer->Ok_0 is Some,
            SyncEvent::Chain(answer) => answer is Ok,
            SyncEvent::Done(answer) => answer is Ok,
            SyncEvent::Watching(answer) => answer is Ok,
            SyncEvent::Update(answer) => answer is Ok && answer->Ok_0 is Some,
        },
    ensures
        !(state.next(event).1 is Return),
        !(state.next(event).0 is CheckRetry),
{
}

/// Law: anything else than a good answer, an event that answers another
/// question among them, counts as a failure. While the state is followed, the
/// service then looks whether it was cancelled before it retries; anywhere else
/// it ends with an error. Hearing that it was cancelled, it ends without one.
pub proof fn bad_answers_end_the_service_or_the_watch<S, C>(
    state: SyncState<S, C>,
    event: SyncEvent<S, C>,
)
    requires
        !state.expects(event) || match event {
            SyncEvent::Cancelled(cancelled) => cancelled,
            SyncEvent::Slept => false,
            SyncEvent::Block(answer) => answer is Err,
            SyncEvent::Pointer(answer) => answer is Err,
            SyncEvent::Legacy(answer) => answer is Err,
            SyncEvent::Segment(answer) => answer is Err,
            SyncEvent::Size(answer) => answer is Err || answer->Ok_0 is None,
            SyncEvent::Chain(answer) => answer is Err,
            SyncEvent::Done(answer) => answer is Err,
            SyncEvent::Watching(answer) => answer is Err,
            SyncEvent::Update(answer) => answer is Err || answer->Ok_0 is None,
        },
    ensures
        state.next(event).1 == if state.expects(event) && event is Cancelled {
            SyncAction::<S, C>::Return(Ok(()))
        } else {
            match state {
                SyncState::Watch
                | SyncState::RecordUp
                | SyncState::NextUpdate
                | SyncState::Apply
                | SyncState::ReadUpdateSnapshot { .. }
                | SyncState::ReadCurrentPointer { .. }
                | SyncState::ReadCurrentSnapshot
                | SyncState::Publish => SyncAction::<S, C>::CheckCancelled,
                _ => SyncAction::<S, C>::Return(Err(ChainViewError)),
            }
        },
        state.next(event).1 is CheckCancelled ==> ({
            let down = state.next(event).0.next(SyncEvent::Cancelled(false));
            let asleep = down.0.next(SyncEvent::Done(Ok(())));
            let again = asleep.0.next(SyncEvent::Slept);
            &&& state.next(event).0.next(SyncEvent::Cancelled(true)).1
                == SyncAction::<S, C>::Return(Ok(()))
            &&& down.1 == SyncAction::<S, C>::RecordIsDown
            &&& asleep.1 == SyncAction::<S, C>::Sleep(5)
            &&& again.1 == SyncAction::<S, C>::WatchChanges
            &&& again.0.next(SyncEvent::Watching(Ok(()))).1 == SyncAction::<S, C>::RecordIsUp
            &&& again.0.next(SyncEvent::Watching(Ok(()))).0.next(SyncEvent::Done(Ok(()))) == (
                SyncState::<S, C>::NextUpdate,
                SyncAction::<S, C>::NextUpdate,
            )
        }),
{
}

/// Law: in every run, consumers see a view exactly when a publication was
/// answered with success.
pub proof fn view_is_seen_exactly_when_published<S, C>(events: Seq<SyncEvent<S, C>>)
    ensures
        run(events).0.published <==> answered(
            events,
            SyncAction::Publish,
            SyncEvent::Done(Ok(())),
        ),
        run(events).1 is Publish <==> run(events).0.state is FirstPublish || run(
            events,
        ).0.state is Publish,
    decreases events.len(),
{
    if events.len() == 0 {
        reveal(answered);
    } else {
        let before = events.drop_last();
        let (action, event) = (SyncAction::<S, C>::Publish, SyncEvent::<S, C>::Done(Ok(())));
        view_is_seen_exactly_when_published(before);
        lemma_answered_grows(events);
        if events.last() is Done && events.last()->Done_0 is Ok {
            assert(events.last()->Done_0->Ok_0 == ());
            assert(events.last() == event);
        }
        assert(run(before).1 is Publish ==> run(before).1 == action);
        if answered(events, action, event) && !answered(before, action, event) {
            reveal(answered);
            let i = choose|i: int|
                0 <= i < events.len() && #[trigger] run(events.take(i)).1 == action && events[i]
                    == event;
            if i < before.len() {
                assert(events.take(i) =~= before.take(i));
                assert(run(before.take(i)).1 == action && before[i] == event);
            }
            assert(events.take(i) =~= before);
        }
    }
}

/// The service after a run of events, and its last action.
pub open spec fn run<S, C>(events: Seq<SyncEvent<S, C>>) -> (
    ChainViewSyncService<S, C>,
    SyncAction<S, C>,
)
    decreases events.len(),
{
    if events.len() == 0 {
        (ChainViewSyncService::initial(), SyncAction::CheckCancelled)
    } else {
        let before = run(events.drop_last()).0;
        (before.after(events.last()), before.state.next(events.last()).1)
    }
}

/// Whether each event of a run answers the action before it.
pub open spec fn answers<S, C>(events: Seq<SyncEvent<S, C>>) -> bool
    decreases events.len(),
{
    events.len() == 0 || (answers(events.drop_last()) && run(
        events.drop_last(),
    ).0.state.expects(events.last()))
}

/// Whether an action was answered by an event in the course of a run.
#[verifier::opaque]
pub open spec fn answered<S, C>(
    events: Seq<SyncEvent<S, C>>,
    action: SyncAction<S, C>,
    event: SyncEvent<S, C>,
) -> bool {
    exists|i: int|
        0 <= i < events.len() && #[trigger] run(events.take(i)).1 == action && events[i] == event
}

/// Law: in every run, consumers see a view exactly from the first publication
/// on: not before, and from then on for good.
pub proof fn view_is_published_once_created<S, C>(events: Seq<SyncEvent<S, C>>)
    requires
        answers(events),
    ensures
        ({
            let service = run(events).0;
            &&& service.state.starting() || service.state is CreateView
                || service.state is FirstPublish ==> !service.published
            &&& service.state.follows() || service.state is CheckWatch
                || service.state is CheckRetry || service.state is RecordDown
                || service.state is SleepRetry ==> service.published
        }),
        events.len() > 0 && run(events.drop_last()).0.published ==> run(events).0.published,
    decreases events.len(),
{
    if events.len() > 0 {
        view_is_published_once_created(events.drop_last());
    }
}

/// Whether a segment was loaded in the course of a run.
pub open spec fn segment_loaded<S, C>(events: Seq<SyncEvent<S, C>>, segment: S) -> bool {
    ||| answered(events, SyncAction::GetLegacyRecent, SyncEvent::Segment(Ok(Some(segment))))
    ||| exists|pointer: RecentSegmentPointer| #[trigger]
        answered(
            events,
            SyncAction::GetRecentSnapshot(pointer),
            SyncEvent::Segment(Ok(Some(segment))),
        ) && answered(events, SyncAction::GetRecent, SyncEvent::Pointer(Ok(Some(pointer))))
}

/// Whether the ingestion state was read like this in the course of a run.
pub open spec fn state_read<S, C>(events: Seq<SyncEvent<S, C>>, read: IngestionState) -> bool {
    &&& answered(
        events,
        SyncAction::GetStartingBlock,
        SyncEvent::Block(Ok(Some(read.starting_block))),
    )
    &&& answered(events, SyncAction::GetFinalized, SyncEvent::Block(Ok(Some(read.finalized))))
    &&& answered(events, SyncAction::GetSegmented, SyncEvent::Block(Ok(read.segmented)))
    &&& answered(events, SyncAction::GetGrouped, SyncEvent::Block(Ok(read.grouped)))
}

/// Whether a canonical chain was built in the course of a run, from a segment
/// and a size that were read.
pub open spec fn chain_built<S, C>(
    events: Seq<SyncEvent<S, C>>,
    starting_block: u64,
    canonical_chain: C,
) -> bool {
    exists|chain_segment_size: usize, recent: S|
        {
            &&& #[trigger] answered(
                events,
                (SyncAction::InitializeChain { starting_block, chain_segment_size, recent }),
                SyncEvent::Chain(Ok(canonical_chain)),
            )
            &&& answered(
                events,
                SyncAction::GetChainSegmentSize,
                SyncEvent::Size(Ok(Some(chain_segment_size))),
            )
            &&& segment_loaded(events, recent)
        }
}

/// Law: in every run, however often the service had to wait, the view is made
/// of what was read: each part is the answer to the question for it, and the
/// canonical chain was built from the starting block, the chain segment size
/// and a recent segment that were read.
pub proof fn view_is_made_of_what_was_read<S, C>(
    events: Seq<SyncEvent<S, C>>,
    parts: ViewParts<C>,
)
    requires
        answers(events),
        run(events).1 == SyncAction::<S, C>::CreateView(parts),
    ensures
        exists|read: IngestionState| #[trigger]
            state_read(events, read) && parts.finalized == read.finalized && parts.segmented
                == read.segmented && parts.grouped == read.grouped && chain_built(
                events,
                read.starting_block,
                parts.canonical_chain,
            ),
        exists|size: usize|
            size as u64 == parts.segment_size && #[trigger] answered(
                events,
                SyncAction::GetSegmentSize,
                SyncEvent::Size(Ok(Some(size))),
            ),
        exists|size: usize|
            size as u64 == parts.group_size && #[trigger] answered(
                events,
                SyncAction::GetGroupSize,
                SyncEvent::Size(Ok(Some(size))),
            ),
{
    let before = events.drop_last();
    lemma_reads_are_answers(before);
    lemma_answered_grows(events);
    let state = run(before).0.state;
    assert(state is ReadGroupSize);
    if let SyncState::ReadGroupSize { read, canonical_chain, segment_size } = state {
        lemma_reads_grow(events, read, canonical_chain);
        assert(state_read(events, read));
        assert(answered(
            events,
            SyncAction::GetSegmentSize,
            SyncEvent::Size(Ok(Some(segment_size))),
        ));
        let size = events.last()->Size_0->Ok_0->0;
        assert(answered(events, SyncAction::GetGroupSize, SyncEvent::Size(Ok(Some(size)))));
    }
}

/// Whether what a state has read are answers that came in the run.
spec fn reads_are_answers<S, C>(events: Seq<SyncEvent<S, C>>, state: SyncState<S, C>) -> bool {
    match state {
        SyncState::CheckFinalized { starting_block }
        | SyncState::ReadFinalized { starting_block }
        | SyncState::SleepFinalized { starting_block } => answered(
            events,
            SyncAction::GetStartingBlock,
            SyncEvent::Block(Ok(Some(starting_block))),
        ),
        SyncState::ReadSegmented { starting_block, finalized } => answered(
            events,
            SyncAction::GetStartingBlock,
            SyncEvent::Block(Ok(Some(starting_block))),
        ) && answered(events, SyncAction::GetFinalized, SyncEvent::Block(Ok(Some(finalized)))),
        SyncState::ReadGrouped { starting_block, finalized, segmented } => answered(
            events,
            SyncAction::GetStartingBlock,
            SyncEvent::Block(Ok(Some(starting_block))),
        ) && answered(events, SyncAction::GetFinalized, SyncEvent::Block(Ok(Some(finalized))))
            && answered(events, SyncAction::GetSegmented, SyncEvent::Block(Ok(segmented))),
        SyncState::CheckRecent { read }
        | SyncState::ReadRecent { read }
        | SyncState::ReadSnapshot { read }
        | SyncState::ReadLegacyIngested { read }
        | SyncState::ReadLegacyRecent { read }
        | SyncState::SleepRecent { read }
        | SyncState::Initialize { read } => state_read(events, read),
        SyncState::CheckInitialize { read, recent }
        | SyncState::ReadChainSegmentSize { read, recent } => state_read(events, read)
            && segment_loaded(events, recent),
        SyncState::ReadSegmentSize { read, canonical_chain } => state_read(events, read)
            && chain_built(events, read.starting_block, canonical_chain),
        SyncState::ReadGroupSize { read, canonical_chain, segment_size } => state_read(events, read)
            && chain_built(events, read.starting_block, canonical_chain) && answered(
            events,
            SyncAction::GetSegmentSize,
            SyncEvent::Size(Ok(Some(segment_size))),
        ),
        _ => true,
    }
}

/// Which action a reading state waits for, in a run.
spec fn asks<S, C>(
    events: Seq<SyncEvent<S, C>>,
    state: SyncState<S, C>,
    action: SyncAction<S, C>,
) -> bool {
    match state {
        SyncState::ReadStartingBlock => action == SyncAction::<S, C>::GetStartingBlock,
        SyncState::ReadFinalized { .. } => action == SyncAction::<S, C>::GetFinalized,
        SyncState::ReadSegmented { .. } => action == SyncAction::<S, C>::GetSegmented,
        SyncState::ReadGrouped { .. } => action == SyncAction::<S, C>::GetGrouped,
        SyncState::ReadRecent { .. } => action == SyncAction::<S, C>::GetRecent,
        SyncState::ReadSnapshot { .. } => action is GetRecentSnapshot && answered(
            events,
            SyncAction::GetRecent,
            SyncEvent::Pointer(Ok(Some(action->GetRecentSnapshot_0))),
        ),
        SyncState::ReadLegacyRecent { .. } => action == SyncAction::<S, C>::GetLegacyRecent,
        SyncState::ReadChainSegmentSize { .. } => action
            == SyncAction::<S, C>::GetChainSegmentSize,
        SyncState::Initialize { read } => action is InitializeChain && action->starting_block
            == read.starting_block && answered(
            events,
            SyncAction::GetChainSegmentSize,
            SyncEvent::Size(Ok(Some(action->chain_segment_size))),
        ) && segment_loaded(events, action->InitializeChain_recent),
        SyncState::ReadSegmentSize { .. } => action == SyncAction::<S, C>::GetSegmentSize,
        SyncState::ReadGroupSize { .. } => action == SyncAction::<S, C>::GetGroupSize,
        _ => true,
    }
}

/// An answer that came stays one, and the last event is one.
proof fn lemma_answered_grows<S, C>(events: Seq<SyncEvent<S, C>>)
    requires
        events.len() > 0,
    ensures
        forall|action: SyncAction<S, C>, event: SyncEvent<S, C>| #[trigger]
            answered(events.drop_last(), action, event) ==> answered(events, action, event),
        answered(events, run(events.drop_last()).1, events.last()),
{
    reveal(answered);
    let before = events.drop_last();
    assert forall|action: SyncAction<S, C>, event: SyncEvent<S, C>| #[trigger]
        answered(before, action, event) implies answered(events, action, event) by {
        let i = choose|i: int|
            0 <= i < before.len() && #[trigger] run(before.take(i)).1 == action && before[i]
                == event;
        assert(events.take(i) =~= before.take(i));
        assert(run(events.take(i)).1 == action && events[i] == event);
    }
    let n = events.len() - 1;
    assert(events.take(n) =~= before);
    assert(run(events.take(n)).1 == run(before).1 && events[n] == events.last());
}

/// A segment that was loaded stays loaded.
proof fn lemma_segment_stays_loaded<S, C>(events: Seq<SyncEvent<S, C>>, segment: S)
    requires
        events.len() > 0,
        segment_loaded(events.drop_last(), segment),
    ensures
        segment_loaded(events, segment),
{
    let before = events.drop_last();
    lemma_answered_grows(events);
    if !answered(before, SyncAction::GetLegacyRecent, SyncEvent::Segment(Ok(Some(segment)))) {
        let pointer = choose|pointer: RecentSegmentPointer| #[trigger]
            answered(
                before,
                SyncAction::GetRecentSnapshot(pointer),
                SyncEvent::Segment(Ok(Some(segment))),
            ) && answered(before, SyncAction::GetRecent, SyncEvent::Pointer(Ok(Some(pointer))));
        assert(answered(
            events,
            SyncAction::GetRecentSnapshot(pointer),
            SyncEvent::Segment(Ok(Some(segment))),
        ));
    }
}

/// What was read stays read, and a chain that was built stays built.
proof fn lemma_reads_grow<S, C>(
    events: Seq<SyncEvent<S, C>>,
    read: IngestionState,
    canonical_chain: C,
)
    requires
        events.len() > 0,
        state_read(events.drop_last(), read),
    ensures
        state_read(events, read),
        chain_built(events.drop_last(), read.starting_block, canonical_chain) ==> chain_built(
            events,
            read.starting_block,
            canonical_chain,
        ),
{
    let before = events.drop_last();
    let starting_block = read.starting_block;
    lemma_answered_grows(events);
    if chain_built(before, starting_block, canonical_chain) {
        let (chain_segment_size, recent): (usize, S) = choose|chain_segment_size: usize, recent: S|
            {
                &&& #[trigger] answered(
                    before,
                    (SyncAction::InitializeChain { starting_block, chain_segment_size, recent }),
                    SyncEvent::Chain(Ok(canonical_chain)),
                )
                &&& answered(
                    before,
                    SyncAction::GetChainSegmentSize,
                    SyncEvent::Size(Ok(Some(chain_segment_size))),
                )
                &&& segment_loaded(before, recent)
            };
        lemma_segment_stays_loaded(events, recent);
        assert(answered(
            events,
            (SyncAction::InitializeChain { starting_block, chain_segment_size, recent }),
            SyncEvent::Chain(Ok(canonical_chain)),
        ));
    }
}

/// In every run, what the state has read are answers that came.
proof fn lemma_reads_are_answers<S, C>(events: Seq<SyncEvent<S, C>>)
    requires
        answers(events),
    ensures
        reads_are_answers(events, run(events).0.state),
        asks(events, run(events).0.state, run(events).1),
    decreases events.len(),
{
    if events.len() > 0 {
        let before = events.drop_last();
        lemma_reads_are_answers(before);
        lemma_answered_grows(events);
        let state = run(before).0.state;
        let event = events.last();
        match (state, event) {
            (SyncState::ReadSegmentSize { read, canonical_chain }, _)
            | (SyncState::ReadGroupSize { read, canonical_chain, .. }, _) => {
                lemma_reads_grow(events, read, canonical_chain);
            },
            (SyncState::ReadSnapshot { .. }, SyncEvent::Segment(Ok(Some(recent)))) => {
                let pointer = run(before).1->GetRecentSnapshot_0;
                assert(answered(
                    events,
                    SyncAction::GetRecentSnapshot(pointer),
                    SyncEvent::Segment(Ok(Some(recent))),
                ));
                assert(segment_loaded(events, recent));
            },
            (SyncState::Initialize { read }, SyncEvent::Chain(Ok(chain))) => {
                let action = run(before).1;
                lemma_segment_stays_loaded(events, action->InitializeChain_recent);
                assert(action == SyncAction::<S, C>::InitializeChain {
                    starting_block: read.starting_block,
                    chain_segment_size: action->chain_segment_size,
                    recent: action->InitializeChain_recent,
                });
                assert(chain_built(events, read.starting_block, chain));
            },
            (SyncState::CheckInitialize { read, recent }, _)
            | (SyncState::ReadChainSegmentSize { read, recent }, _) => {
                lemma_segment_stays_loaded(events, recent);
            },
            _ => {},
        }
    }
}

}
