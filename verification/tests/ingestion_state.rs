//! Reading, writing and watching the ingestion state.

use starkstream_dna::ingestion::state_client::{
    IngestionStateClient, IngestionStateClientError, IngestionStateUpdate, KeyValue, KvRequest,
    RecentSegmentPointer, WatchEvent, FINALIZED_KEY, GROUPED_KEY, INGESTION_PREFIX_KEY,
    LEGACY_INGESTED_KEY, PENDING_KEY, PRUNED_KEY, RECENT_KEY, SEGMENTED_KEY, STARTING_BLOCK_KEY,
};
use starkstream_dna::ingestion::testing::{etcd_server_container, local_endpoint};
use starkstream_dna::text::{parse_u64, u64_text};

fn pointer() -> RecentSegmentPointer {
    RecentSegmentPointer {
        key: "canon/recent/z-0000000001-0000000042-01718123456789123456-000001".to_string(),
        version: "123456789".to_string(),
        first_block: 1,
        last_block: 42,
    }
}

fn kv(key: &str, value: &[u8]) -> KeyValue {
    KeyValue { key: key.as_bytes().to_vec(), value: value.to_vec() }
}

fn no_pointer() -> Result<RecentSegmentPointer, IngestionStateClientError> {
    Err(IngestionStateClientError)
}

fn update(key: &str, value: &[u8]) -> Result<Option<IngestionStateUpdate>, IngestionStateClientError> {
    IngestionStateUpdate::from_kv(&kv(key, value), no_pointer())
}

fn answer(value: &[u8]) -> Result<Vec<KeyValue>, IngestionStateClientError> {
    Ok(vec![kv("ignored", value), kv("ignored", b"77")])
}

#[test]
fn keys_are_the_deployed_ones() {
    assert_eq!(INGESTION_PREFIX_KEY, "ingestion/");
    assert_eq!(RECENT_KEY, "ingestion/recent");
    assert_eq!(LEGACY_INGESTED_KEY, "ingestion/ingested");
    assert_eq!(PENDING_KEY, "ingestion/pending");
    assert_eq!(STARTING_BLOCK_KEY, "ingestion/starting_block");
    assert_eq!(FINALIZED_KEY, "ingestion/finalized");
    assert_eq!(SEGMENTED_KEY, "ingestion/segmented");
    assert_eq!(GROUPED_KEY, "ingestion/grouped");
    assert_eq!(PRUNED_KEY, "compaction/pruned");
}

#[test]
fn each_state_has_its_key() {
    let client = IngestionStateClient::new();
    let get = |key: &str| KvRequest::Get { key: key.to_string() };
    let put = |key: &str, value: &str| KvRequest::Put {
        key: key.to_string(),
        value: value.as_bytes().to_vec(),
    };
    assert_eq!(client.starting_block_request(), get("ingestion/starting_block"));
    assert_eq!(client.finalized_request(), get("ingestion/finalized"));
    assert_eq!(client.recent_request(), get("ingestion/recent"));
    assert_eq!(client.legacy_ingested_request(), get("ingestion/ingested"));
    assert_eq!(client.segmented_request(), get("ingestion/segmented"));
    assert_eq!(client.grouped_request(), get("ingestion/grouped"));
    assert_eq!(client.pruned_request(), get("compaction/pruned"));

    assert_eq!(client.put_starting_block(0), put("ingestion/starting_block", "0"));
    assert_eq!(client.put_finalized(90), put("ingestion/finalized", "90"));
    assert_eq!(client.put_pending(7), put("ingestion/pending", "7"));
    assert_eq!(client.put_segmented(1234), put("ingestion/segmented", "1234"));
    assert_eq!(client.put_grouped(100), put("ingestion/grouped", "100"));
    assert_eq!(
        client.put_pruned(u64::MAX),
        put("compaction/pruned", "18446744073709551615")
    );

    assert_eq!(
        client.put_recent(b"{}".to_vec()),
        KvRequest::PutAndDelete {
            key: "ingestion/recent".to_string(),
            value: b"{}".to_vec(),
            deleted: "ingestion/pending".to_string(),
        }
    );
    assert_eq!(
        client.delete_legacy_ingested(),
        KvRequest::Delete { key: "ingestion/ingested".to_string() }
    );
    assert_eq!(
        client.watch_request(),
        KvRequest::WatchPrefix { prefix: "ingestion/".to_string() }
    );
}

#[test]
fn written_number_is_read_back() {
    let client = IngestionStateClient::new();
    for n in [0, 1, 9, 10, 42, 99, 100, 1_000_000, u64::MAX - 1, u64::MAX] {
        let KvRequest::Put { value, .. } = client.put_finalized(n) else {
            panic!("no put");
        };
        assert_eq!(client.get_finalized(answer(&value)), Ok(Some(n)));
        assert_eq!(client.get_starting_block(answer(&value)), Ok(Some(n)));
        assert_eq!(client.get_segmented(answer(&value)), Ok(Some(n)));
        assert_eq!(client.get_grouped(answer(&value)), Ok(Some(n)));
        assert_eq!(client.get_pruned(answer(&value)), Ok(Some(n)));
    }
}

#[test]
fn unset_state_is_none() {
    let client = IngestionStateClient::new();
    assert_eq!(client.get_starting_block(Ok(vec![])), Ok(None));
    assert_eq!(client.get_finalized(Ok(vec![])), Ok(None));
    assert_eq!(client.get_segmented(Ok(vec![])), Ok(None));
    assert_eq!(client.get_grouped(Ok(vec![])), Ok(None));
    assert_eq!(client.get_pruned(Ok(vec![])), Ok(None));
    assert_eq!(client.get_legacy_ingested(Ok(vec![])), Ok(None));
    assert_eq!(client.recent_value(Ok(vec![])), Ok(None));
    assert_eq!(client.get_recent(Ok(None)), Ok(None));
}

#[test]
fn unreadable_state_is_an_error() {
    let client = IngestionStateClient::new();
    let failed = Err(IngestionStateClientError);
    for value in [
        &b""[..],
        b"+",
        b"-1",
        b" 1",
        b"1 ",
        b"0x1",
        b"1_000",
        b"18446744073709551616",
        b"99999999999999999999999",
        b"\xff",
    ] {
        assert_eq!(client.get_finalized(answer(value)), failed);
    }
    assert_eq!(client.get_finalized(Err(IngestionStateClientError)), failed);
    assert_eq!(client.get_finalized(answer(b"+5")), Ok(Some(5)));
    assert_eq!(client.get_finalized(answer(b"000000000000000000000000005")), Ok(Some(5)));
    assert_eq!(IngestionStateClientError.message(), "ingestion state client error");
}

#[test]
fn legacy_value_is_read_as_text() {
    let client = IngestionStateClient::new();
    assert_eq!(
        client.get_legacy_ingested(answer("legacy-version é".as_bytes())),
        Ok(Some("legacy-version é".to_string()))
    );
    assert_eq!(
        client.get_legacy_ingested(answer(b"\xc3")),
        Err(IngestionStateClientError)
    );
    assert_eq!(
        client.get_legacy_ingested(Err(IngestionStateClientError)),
        Err(IngestionStateClientError)
    );
}

#[test]
fn recent_pointer_is_handed_on() {
    let client = IngestionStateClient::new();
    assert_eq!(client.recent_value(answer(b"{}")), Ok(Some(b"{}".to_vec())));
    assert_eq!(
        client.recent_value(Err(IngestionStateClientError)),
        Err(IngestionStateClientError)
    );
    assert_eq!(client.get_recent(Ok(Some(Ok(pointer())))), Ok(Some(pointer())));
    assert_eq!(
        client.get_recent(Ok(Some(Err(IngestionStateClientError)))),
        Err(IngestionStateClientError)
    );
    assert_eq!(
        client.get_recent(Err(IngestionStateClientError)),
        Err(IngestionStateClientError)
    );
}

#[test]
fn updates_are_read_behind_any_prefix() {
    for prefix in ["", "dna/", "a/ingestion/recent/"] {
        let key = |name: &str| format!("{prefix}{name}");
        assert!(
            update(&key(STARTING_BLOCK_KEY), b"1")
                == Ok(Some(IngestionStateUpdate::StartingBlock(1)))
        );
        assert!(update(&key(FINALIZED_KEY), b"2") == Ok(Some(IngestionStateUpdate::Finalized(2))));
        assert!(
            update(&key(PENDING_KEY), b"3") == Ok(Some(IngestionStateUpdate::Pending(Some(3))))
        );
        assert!(update(&key(PENDING_KEY), b"") == Ok(Some(IngestionStateUpdate::Pending(None))));
        assert!(update(&key(SEGMENTED_KEY), b"4") == Ok(Some(IngestionStateUpdate::Segmented(4))));
        assert!(update(&key(GROUPED_KEY), b"5") == Ok(Some(IngestionStateUpdate::Grouped(5))));
        assert!(update(&key(LEGACY_INGESTED_KEY), b"legacy-version") == Ok(None));
        let recent = IngestionStateUpdate::from_kv(&kv(&key(RECENT_KEY), b"\xff"), Ok(pointer()));
        assert!(recent == Ok(Some(IngestionStateUpdate::Recent(pointer()))));
    }
}

#[test]
fn unreadable_updates_are_errors() {
    for key in [STARTING_BLOCK_KEY, FINALIZED_KEY, SEGMENTED_KEY, GROUPED_KEY] {
        assert!(update(key, b"").is_err());
        assert!(update(key, b"x").is_err());
        assert!(update(key, b"\xff").is_err());
    }
    assert!(update(PENDING_KEY, b"x").is_err());
    assert!(update(RECENT_KEY, b"{}").is_err());
    assert!(update(LEGACY_INGESTED_KEY, b"\xff").is_err());
    let undecodable = KeyValue { key: vec![0xff], value: vec![] };
    assert!(IngestionStateUpdate::from_kv(&undecodable, Ok(pointer())).is_err());
    assert!(update("ingestion/unknown", b"1") == Ok(None));
    assert!(update("finalized", b"1") == Ok(None));
}

#[test]
fn watch_keeps_the_order_of_events() {
    let client = IngestionStateClient::new();
    let event = |key: &str, value: &[u8]| WatchEvent {
        kv: Some(kv(key, value)),
        pointer: no_pointer(),
    };
    let changes = client.watch_changes(Ok(vec![
        event(FINALIZED_KEY, b"10"),
        WatchEvent { kv: None, pointer: no_pointer() },
        event(LEGACY_INGESTED_KEY, b"v"),
        event(FINALIZED_KEY, b"oops"),
        WatchEvent { kv: Some(kv(RECENT_KEY, b"{}")), pointer: Ok(pointer()) },
        event(PENDING_KEY, b""),
    ]));
    assert!(
        changes
            == vec![
                Ok(IngestionStateUpdate::Finalized(10)),
                Err(IngestionStateClientError),
                Ok(IngestionStateUpdate::Recent(pointer())),
                Ok(IngestionStateUpdate::Pending(None)),
            ]
    );
    assert!(client.watch_changes(Ok(vec![])) == vec![]);
    assert!(
        client.watch_changes(Err(IngestionStateClientError))
            == vec![Err(IngestionStateClientError)]
    );
}

#[test]
fn responses_may_be_split() {
    let client = IngestionStateClient::new();
    let event = |key: &str, value: &[u8]| WatchEvent {
        kv: Some(kv(key, value)),
        pointer: no_pointer(),
    };
    let first = || event(FINALIZED_KEY, b"1");
    let second = || event(GROUPED_KEY, b"oops");
    let third = || event(SEGMENTED_KEY, b"3");
    let whole = client.watch_changes(Ok(vec![first(), second(), third()]));
    let mut parts = client.watch_changes(Ok(vec![first()]));
    parts.extend(client.watch_changes(Ok(vec![second(), third()])));
    assert!(whole == parts);
    assert_eq!(whole.len(), 3);
}

#[test]
fn watched_prefix_covers_updates() {
    for key in [
        RECENT_KEY,
        STARTING_BLOCK_KEY,
        FINALIZED_KEY,
        PENDING_KEY,
        SEGMENTED_KEY,
        GROUPED_KEY,
    ] {
        assert!(key.starts_with(INGESTION_PREFIX_KEY));
    }
    assert!(!PRUNED_KEY.starts_with(INGESTION_PREFIX_KEY));
}

#[test]
fn updates_are_shown() {
    let shown = |update: IngestionStateUpdate| update.debug();
    assert_eq!(shown(IngestionStateUpdate::StartingBlock(0)), "StartingBlock(0)");
    assert_eq!(shown(IngestionStateUpdate::Finalized(90)), "Finalized(90)");
    assert_eq!(shown(IngestionStateUpdate::Pending(None)), "Pending(None)");
    assert_eq!(shown(IngestionStateUpdate::Pending(Some(3))), "Pending(Some(3))");
    assert_eq!(shown(IngestionStateUpdate::Segmented(4)), "Segmented(4)");
    assert_eq!(shown(IngestionStateUpdate::Grouped(5)), "Grouped(5)");
    let mut quoted = pointer();
    quoted.version = "a\"b\n".to_string();
    assert_eq!(
        shown(IngestionStateUpdate::Recent(quoted)),
        "Recent { key: \"canon/recent/z-0000000001-0000000042-01718123456789123456-000001\", \
         version: \"a\\\"b\\n\", first_block: 1, last_block: 42 }"
    );
}

#[test]
fn only_pending_updates_are_pending() {
    assert!(IngestionStateUpdate::Pending(None).is_pending());
    assert!(IngestionStateUpdate::Pending(Some(1)).is_pending());
    assert!(!IngestionStateUpdate::Finalized(1).is_pending());
    assert!(!IngestionStateUpdate::Recent(pointer()).is_pending());
    assert!(IngestionStateUpdate::Recent(pointer()).clone() == IngestionStateUpdate::Recent(pointer()));
}

#[test]
fn numbers_are_written_in_decimal() {
    assert_eq!(u64_text(0), "0");
    assert_eq!(u64_text(1_020_300), "1020300");
    assert_eq!(u64_text(u64::MAX), "18446744073709551615");
    assert_eq!(parse_u64("18446744073709551615"), Some(u64::MAX));
    assert_eq!(parse_u64("18446744073709551616"), None);
    assert_eq!(parse_u64("٣"), None);
}

#[test]
fn etcd_container_is_described() {
    let image = etcd_server_container();
    assert_eq!(image.name(), "gcr.io/etcd-development/etcd");
    assert_eq!(image.tag(), "v3.5.33");
    assert_eq!(image.ready_conditions(), ["serving client traffic insecurely"]);
    assert_eq!(
        image.cmd(),
        [
            "/usr/local/bin/etcd",
            "--listen-client-urls=http://0.0.0.0:2379",
            "--advertise-client-urls=http://0.0.0.0:2379",
        ]
    );
    assert_eq!(image.expose_ports(), [2379]);
    assert_eq!(local_endpoint(32768), "http://localhost:32768");
}
