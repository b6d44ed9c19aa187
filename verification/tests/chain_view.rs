//! Keeping the chain view in step with the ingestion state.

use starkstream_dna::chain_view::sync::{
    chain_view_sync_loop, ChainViewError, ChainViewSyncService, SyncAction, SyncEvent,
};
use starkstream_dna::ingestion::state_client::{
    IngestionStateClientError, IngestionStateUpdate, RecentSegmentPointer,
};

type Service = ChainViewSyncService<&'static str, &'static str>;
type Action = SyncAction<&'static str, &'static str>;
type Event = SyncEvent<&'static str, &'static str>;

fn pointer(key: &str) -> RecentSegmentPointer {
    RecentSegmentPointer {
        key: key.to_string(),
        version: "v".to_string(),
        first_block: 0,
        last_block: 10,
    }
}

/// A short name of an action, with what it carries.
fn shown(action: &Action) -> String {
    match action {
        SyncAction::CheckCancelled => "check".to_string(),
        SyncAction::Sleep(secs) => format!("sleep {secs}"),
        SyncAction::GetStartingBlock => "starting_block".to_string(),
        SyncAction::GetFinalized => "finalized".to_string(),
        SyncAction::GetSegmented => "segmented".to_string(),
        SyncAction::GetGrouped => "grouped".to_string(),
        SyncAction::GetRecent => "recent".to_string(),
        SyncAction::GetCurrentRecent => "current recent".to_string(),
        SyncAction::GetRecentSnapshot(pointer) => format!("snapshot {}", pointer.key),
        SyncAction::GetLegacyIngested => "legacy ingested".to_string(),
        SyncAction::GetLegacyRecent => "legacy recent".to_string(),
        SyncAction::GetChainSegmentSize => "chain segment size".to_string(),
        SyncAction::InitializeChain { starting_block, chain_segment_size, recent } => {
            format!("initialize {starting_block} {chain_segment_size} {recent}")
        }
        SyncAction::GetSegmentSize => "segment size".to_string(),
        SyncAction::GetGroupSize => "group size".to_string(),
        SyncAction::CreateView(parts) => format!(
            "view {} {:?} {:?} {} {} {}",
            parts.finalized,
            parts.segmented,
            parts.grouped,
            parts.segment_size,
            parts.group_size,
            parts.canonical_chain
        ),
        SyncAction::Publish => "publish".to_string(),
        SyncAction::WatchChanges => "watch".to_string(),
        SyncAction::RecordIsUp => "up".to_string(),
        SyncAction::NextUpdate => "next".to_string(),
        SyncAction::SetFinalizedBlock(block) => format!("set finalized {block}"),
        SyncAction::SetSegmentedBlock(block) => format!("set segmented {block}"),
        SyncAction::SetGroupedBlock(block) => format!("set grouped {block}"),
        SyncAction::SetPendingGeneration(generation) => format!("set pending {generation:?}"),
        SyncAction::SetRecent(recent) => format!("set recent {recent}"),
        SyncAction::RecordIsDown => "down".to_string(),
        SyncAction::Return(result) => format!("return {result:?}"),
    }
}

/// Feeds events to a service and checks what it asks for after each.
fn drive(service: &mut Service, script: Vec<(Event, &str)>) {
    for (event, expected) in script {
        let action = service.step(event);
        assert_eq!(shown(&action), expected);
    }
}

fn created() -> Service {
    let service: Service = chain_view_sync_loop().unwrap();
    let (service, action) = service.start();
    assert_eq!(shown(&action), "check");
    assert!(!service.published);
    service
}

fn up_to_grouped() -> Service {
    let mut service = created();
    drive(
        &mut service,
        vec![
            (SyncEvent::Cancelled(false), "starting_block"),
            (SyncEvent::Block(Ok(Some(100))), "check"),
            (SyncEvent::Cancelled(false), "finalized"),
            (SyncEvent::Block(Ok(Some(190))), "segmented"),
            (SyncEvent::Block(Ok(Some(150))), "grouped"),
        ],
    );
    service
}

fn up_to_recent() -> Service {
    let mut service = up_to_grouped();
    drive(
        &mut service,
        vec![
            (SyncEvent::Block(Ok(None)), "check"),
            (SyncEvent::Cancelled(false), "recent"),
        ],
    );
    service
}

fn up_to_view() -> Service {
    let mut service = up_to_recent();
    drive(
        &mut service,
        vec![
            (SyncEvent::Pointer(Ok(Some(pointer("a")))), "snapshot a"),
            (SyncEvent::Segment(Ok(Some("segment"))), "check"),
            (SyncEvent::Cancelled(false), "chain segment size"),
            (SyncEvent::Size(Ok(Some(1000))), "initialize 100 1000 segment"),
            (SyncEvent::Chain(Ok("chain")), "segment size"),
            (SyncEvent::Size(Ok(Some(20))), "group size"),
            (SyncEvent::Size(Ok(Some(30))), "view 190 Some(150) None 20 30 chain"),
        ],
    );
    assert!(!service.published);
    service
}

fn up_to_updates() -> Service {
    let mut service = up_to_view();
    drive(&mut service, vec![(SyncEvent::Done(Ok(())), "publish")]);
    assert!(!service.published);
    drive(
        &mut service,
        vec![
            (SyncEvent::Done(Ok(())), "check"),
            (SyncEvent::Cancelled(false), "watch"),
            (SyncEvent::Watching(Ok(())), "up"),
            (SyncEvent::Done(Ok(())), "next"),
        ],
    );
    assert!(service.published);
    service
}

#[test]
fn view_is_built_from_what_is_read() {
    up_to_updates();
}

#[test]
fn missing_blocks_are_waited_for() {
    let mut service = created();
    drive(
        &mut service,
        vec![
            (SyncEvent::Cancelled(false), "starting_block"),
            (SyncEvent::Block(Ok(None)), "sleep 10"),
            (SyncEvent::Slept, "check"),
            (SyncEvent::Cancelled(false), "starting_block"),
            (SyncEvent::Block(Ok(Some(0))), "check"),
            (SyncEvent::Cancelled(false), "finalized"),
            (SyncEvent::Block(Ok(None)), "sleep 10"),
            (SyncEvent::Slept, "check"),
            (SyncEvent::Cancelled(false), "finalized"),
            (SyncEvent::Block(Ok(Some(5))), "segmented"),
        ],
    );
}

#[test]
fn missing_recent_segment_is_waited_for() {
    let mut service = up_to_recent();
    drive(
        &mut service,
        vec![
            (SyncEvent::Pointer(Ok(None)), "legacy ingested"),
            (SyncEvent::Legacy(Ok(None)), "sleep 10"),
            (SyncEvent::Slept, "check"),
            (SyncEvent::Cancelled(false), "recent"),
            (SyncEvent::Pointer(Ok(Some(pointer("gone")))), "snapshot gone"),
            (SyncEvent::Segment(Ok(None)), "sleep 10"),
            (SyncEvent::Slept, "check"),
            (SyncEvent::Cancelled(false), "recent"),
            (SyncEvent::Pointer(Ok(None)), "legacy ingested"),
            (SyncEvent::Legacy(Ok(Some("legacy-version".to_string()))), "legacy recent"),
            (SyncEvent::Segment(Ok(None)), "sleep 10"),
            (SyncEvent::Slept, "check"),
            (SyncEvent::Cancelled(false), "recent"),
            (SyncEvent::Pointer(Ok(None)), "legacy ingested"),
            (SyncEvent::Legacy(Ok(Some("legacy-version".to_string()))), "legacy recent"),
            (SyncEvent::Segment(Ok(Some("legacy"))), "check"),
            (SyncEvent::Cancelled(false), "chain segment size"),
            (SyncEvent::Size(Ok(Some(7))), "initialize 100 7 legacy"),
        ],
    );
}

#[test]
fn cancellation_ends_the_service_wherever_it_is_looked_at() {
    let services = vec![
        created(),
        {
            let mut service = created();
            drive(
                &mut service,
                vec![
                    (SyncEvent::Cancelled(false), "starting_block"),
                    (SyncEvent::Block(Ok(Some(1))), "check"),
                ],
            );
            service
        },
        {
            let mut service = up_to_grouped();
            drive(&mut service, vec![(SyncEvent::Block(Ok(None)), "check")]);
            service
        },
        {
            let mut service = up_to_recent();
            drive(
                &mut service,
                vec![
                    (SyncEvent::Pointer(Ok(Some(pointer("a")))), "snapshot a"),
                    (SyncEvent::Segment(Ok(Some("segment"))), "check"),
                ],
            );
            service
        },
        {
            let mut service = up_to_view();
            drive(
                &mut service,
                vec![
                    (SyncEvent::Done(Ok(())), "publish"),
                    (SyncEvent::Done(Ok(())), "check"),
                ],
            );
            service
        },
        {
            let mut service = up_to_updates();
            drive(&mut service, vec![(SyncEvent::Update(Ok(None)), "check")]);
            service
        },
    ];
    for mut service in services {
        drive(&mut service, vec![(SyncEvent::Cancelled(true), "return Ok(())")]);
    }
}

#[test]
fn startup_failures_end_the_service() {
    let failed = "return Err(ChainViewError)";
    let mut service = created();
    drive(
        &mut service,
        vec![
            (SyncEvent::Cancelled(false), "starting_block"),
            (SyncEvent::Block(Err(IngestionStateClientError)), failed),
        ],
    );
    let mut service = up_to_grouped();
    drive(&mut service, vec![(SyncEvent::Block(Err(IngestionStateClientError)), failed)]);
    let mut service = up_to_recent();
    drive(&mut service, vec![(SyncEvent::Pointer(Err(IngestionStateClientError)), failed)]);
    let mut service = up_to_recent();
    drive(
        &mut service,
        vec![
            (SyncEvent::Pointer(Ok(None)), "legacy ingested"),
            (SyncEvent::Legacy(Err(IngestionStateClientError)), failed),
        ],
    );
    let mut service = up_to_recent();
    drive(
        &mut service,
        vec![
            (SyncEvent::Pointer(Ok(Some(pointer("a")))), "snapshot a"),
            (SyncEvent::Segment(Err(ChainViewError)), failed),
        ],
    );
    for missing in [Ok(None), Err(ChainViewError)] {
        let mut service = up_to_recent();
        drive(
            &mut service,
            vec![
                (SyncEvent::Pointer(Ok(Some(pointer("a")))), "snapshot a"),
                (SyncEvent::Segment(Ok(Some("segment"))), "check"),
                (SyncEvent::Cancelled(false), "chain segment size"),
                (SyncEvent::Size(missing), failed),
            ],
        );
    }
    let mut service = up_to_view();
    drive(&mut service, vec![(SyncEvent::Done(Err(ChainViewError)), failed)]);
    let mut service = up_to_view();
    drive(
        &mut service,
        vec![
            (SyncEvent::Done(Ok(())), "publish"),
            (SyncEvent::Done(Err(ChainViewError)), failed),
        ],
    );
    assert!(!service.published);
}

#[test]
fn updates_are_applied_and_published() {
    let mut service = up_to_updates();
    let update = |update: IngestionStateUpdate| SyncEvent::Update(Ok(Some(update)));
    drive(
        &mut service,
        vec![
            (update(IngestionStateUpdate::Finalized(191)), "set finalized 191"),
            (SyncEvent::Done(Ok(())), "publish"),
            (SyncEvent::Done(Ok(())), "next"),
            (update(IngestionStateUpdate::Segmented(160)), "set segmented 160"),
            (SyncEvent::Done(Ok(())), "publish"),
            (SyncEvent::Done(Ok(())), "next"),
            (update(IngestionStateUpdate::Grouped(150)), "set grouped 150"),
            (SyncEvent::Done(Ok(())), "publish"),
            (SyncEvent::Done(Ok(())), "next"),
            (update(IngestionStateUpdate::Pending(Some(3))), "set pending Some(3)"),
            (SyncEvent::Done(Ok(())), "publish"),
            (SyncEvent::Done(Ok(())), "next"),
            (update(IngestionStateUpdate::StartingBlock(1)), "publish"),
            (SyncEvent::Done(Ok(())), "next"),
            (update(IngestionStateUpdate::Recent(pointer("b"))), "snapshot b"),
            (SyncEvent::Segment(Ok(Some("newer"))), "set recent newer"),
            (SyncEvent::Done(Ok(())), "publish"),
            (SyncEvent::Done(Ok(())), "next"),
        ],
    );
}

#[test]
fn missing_snapshot_is_recovered_or_skipped() {
    let mut service = up_to_updates();
    let recent = || SyncEvent::Update(Ok(Some(IngestionStateUpdate::Recent(pointer("b")))));
    drive(
        &mut service,
        vec![
            (recent(), "snapshot b"),
            (SyncEvent::Segment(Ok(None)), "current recent"),
            (SyncEvent::Pointer(Ok(Some(pointer("c")))), "snapshot c"),
            (SyncEvent::Segment(Ok(Some("newest"))), "set recent newest"),
            (SyncEvent::Done(Ok(())), "publish"),
            (SyncEvent::Done(Ok(())), "next"),
            (recent(), "snapshot b"),
            (SyncEvent::Segment(Ok(None)), "current recent"),
            (SyncEvent::Pointer(Ok(Some(pointer("b")))), "next"),
            (recent(), "snapshot b"),
            (SyncEvent::Segment(Ok(None)), "current recent"),
            (SyncEvent::Pointer(Ok(None)), "next"),
            (recent(), "snapshot b"),
            (SyncEvent::Segment(Ok(None)), "current recent"),
            (SyncEvent::Pointer(Ok(Some(pointer("c")))), "snapshot c"),
            (SyncEvent::Segment(Ok(None)), "next"),
        ],
    );
}

#[test]
fn watch_failures_are_retried() {
    let mut service = up_to_updates();
    drive(
        &mut service,
        vec![
            (SyncEvent::Update(Err(IngestionStateClientError)), "check"),
            (SyncEvent::Cancelled(false), "down"),
            (SyncEvent::Done(Ok(())), "sleep 5"),
            (SyncEvent::Slept, "watch"),
            (SyncEvent::Watching(Err(IngestionStateClientError)), "check"),
            (SyncEvent::Cancelled(false), "down"),
            (SyncEvent::Done(Ok(())), "sleep 5"),
            (SyncEvent::Slept, "watch"),
            (SyncEvent::Watching(Ok(())), "up"),
            (SyncEvent::Done(Err(ChainViewError)), "check"),
            (SyncEvent::Cancelled(false), "down"),
            (SyncEvent::Done(Err(ChainViewError)), "return Err(ChainViewError)"),
        ],
    );
    assert!(service.published);
}

#[test]
fn wrong_answer_counts_as_a_failure() {
    let mut service = created();
    drive(&mut service, vec![(SyncEvent::Slept, "return Err(ChainViewError)")]);
    let mut service = up_to_updates();
    drive(&mut service, vec![(SyncEvent::Cancelled(true), "check")]);
}
