//! The log entries, from an event to the line that is written.

use serde_json::Value;
use starkstream_dna::cloud_logging::format::{
    severity, CloudLoggingFormat, CurrentSpan, EventMetadata, FieldVisitor, Level, TraceContext,
    REPORTED_ERROR_EVENT_TYPE,
};
use starkstream_dna::cloud_logging::identity::{
    service_context, service_name_from_resource_attributes, set_service_context, trace_field,
    Deployment, ProcessIdentity, ServiceContext,
};
use starkstream_dna::cloud_logging::panic_hook::{
    format_panic, format_panic_at, panic_message, PanicLocation, PanicPayload,
};

const FILE: &str = "src/ingest.rs";

fn fresh_identity() -> ProcessIdentity {
    ProcessIdentity::new(ServiceContext {
        service: "package".to_string(),
        version: "0.1.0".to_string(),
    })
}

fn deployment() -> Deployment {
    Deployment {
        service_name: None,
        resource_attributes: None,
        service_version: None,
        project: None,
    }
}

fn with_project(project: &str) -> ProcessIdentity {
    let mut identity = fresh_identity();
    let mut deployment = deployment();
    deployment.project = Some(project.to_string());
    set_service_context(&mut identity, "binary".to_string(), "1".to_string(), deployment);
    identity
}

fn metadata(level: Level) -> EventMetadata {
    EventMetadata {
        level,
        target: "dna::ingest".to_string(),
        file: Some(FILE.to_string()),
        line: Some(17),
    }
}

fn message(text: &str) -> FieldVisitor {
    let mut visitor = FieldVisitor::new();
    visitor.record_debug("message", text);
    visitor
}

/// Formats an event, checks that it is one line, and hands back the entry.
fn capture(
    identity: &mut ProcessIdentity,
    level: Level,
    span: Option<CurrentSpan>,
    visitor: FieldVisitor,
) -> Value {
    let written = CloudLoggingFormat.format_event(identity, span, visitor, metadata(level));
    assert_eq!(written.lines().count(), 1, "got: {written}");
    assert!(written.ends_with('\n'));
    serde_json::from_str(&written).expect("output is not JSON")
}

fn span(fields: &[Option<&str>], trace: Option<TraceContext>) -> Option<CurrentSpan> {
    let fields = fields.iter().map(|text| text.map(str::to_string)).collect();
    Some(CurrentSpan { fields, trace })
}

#[test]
fn info_event_is_a_plain_log_entry() {
    let mut visitor = message("ingested block");
    visitor.record_i64("block_number", 42);
    let entry = capture(&mut fresh_identity(), Level::Info, None, visitor);

    assert_eq!(entry["severity"], "INFO");
    assert_eq!(entry["message"], "ingested block");
    assert_eq!(entry["block_number"], 42);
    assert!(entry["time"].is_string());
    assert_eq!(entry["logging.googleapis.com/sourceLocation"]["file"], FILE);

    assert!(entry.get("@type").is_none());
}

#[test]
fn error_event_carries_the_reported_error_marker() {
    let visitor = message("failed to ingest block");
    let entry = capture(&mut fresh_identity(), Level::Error, None, visitor);

    assert_eq!(entry["severity"], "ERROR");
    assert_eq!(entry["@type"], REPORTED_ERROR_EVENT_TYPE);
    assert_eq!(entry["message"], "failed to ingest block");
    assert!(entry["serviceContext"]["service"].is_string());
    assert!(entry["serviceContext"]["version"].is_string());

    let location = &entry["context"]["reportLocation"];
    assert_eq!(location["filePath"], FILE);
    assert!(location["lineNumber"].as_u64().unwrap() > 0);
}

#[test]
fn warnings_are_not_reported_as_errors() {
    let visitor = message("failed to refresh the chain view");
    let entry = capture(&mut fresh_identity(), Level::Warn, None, visitor);

    assert_eq!(entry["severity"], "WARNING");
    assert!(entry.get("@type").is_none());
}

#[test]
fn span_fields_are_merged_into_the_entry() {
    let ingest = span(&[Some("{\"block_number\":7}")], None);
    let entry = capture(&mut fresh_identity(), Level::Info, ingest, message("started"));

    assert_eq!(entry["block_number"], 7);
    assert_eq!(entry["message"], "started");
}

#[test]
fn reserved_keys_survive_a_colliding_field() {
    let mut visitor = message("boom");
    visitor.record_str("severity", "DEBUG");
    let entry = capture(&mut fresh_identity(), Level::Error, None, visitor);

    assert_eq!(entry["severity"], "ERROR");
}

#[test]
fn the_trace_field_is_omitted_without_a_project() {
    let entry = capture(&mut fresh_identity(), Level::Info, None, message("no trace"));

    assert!(entry.get("logging.googleapis.com/trace").is_none());
}

#[test]
fn the_service_name_comes_from_the_resource_attributes() {
    let attributes =
        "service.name=dna-starknet-mainnet-serving,network=starknet-mainnet,role=serving"
            .to_string();
    assert_eq!(
        service_name_from_resource_attributes(Some(&attributes)).as_deref(),
        Some("dna-starknet-mainnet-serving")
    );

    let attributes = "network=starknet-mainnet".to_string();
    assert_eq!(service_name_from_resource_attributes(Some(&attributes)), None);

    let attributes = "service.name=".to_string();
    assert_eq!(service_name_from_resource_attributes(Some(&attributes)), None);

    assert_eq!(service_name_from_resource_attributes(None), None);
}

#[test]
fn attributes_are_trimmed_and_the_first_name_wins() {
    let attributes = "role, \u{2003}service.name\t= a=b \u{a0},service.name=other".to_string();
    assert_eq!(
        service_name_from_resource_attributes(Some(&attributes)).as_deref(),
        Some("a=b")
    );
    let attributes = "service.name= ,service.name=late".to_string();
    assert_eq!(service_name_from_resource_attributes(Some(&attributes)), None);
    let attributes = String::new();
    assert_eq!(service_name_from_resource_attributes(Some(&attributes)), None);
}

#[test]
fn deployment_names_the_service() {
    let mut identity = fresh_identity();
    let mut named = deployment();
    named.service_name = Some("from-name".to_string());
    named.resource_attributes = Some("service.name=from-attributes".to_string());
    named.service_version = Some("abcdef".to_string());
    set_service_context(&mut identity, "binary".to_string(), "1".to_string(), named);
    let service = service_context(&mut identity);
    assert_eq!(service.service, "from-name");
    assert_eq!(service.version, "abcdef");

    let mut identity = fresh_identity();
    let mut named = deployment();
    named.resource_attributes = Some("service.name=from-attributes".to_string());
    set_service_context(&mut identity, "binary".to_string(), "1".to_string(), named);
    let service = service_context(&mut identity);
    assert_eq!(service.service, "from-attributes");
    assert_eq!(service.version, "1");

    let mut identity = fresh_identity();
    set_service_context(&mut identity, "binary".to_string(), "1".to_string(), deployment());
    assert_eq!(service_context(&mut identity).service, "binary");
}

#[test]
fn first_identity_is_kept() {
    let mut identity = fresh_identity();
    assert_eq!(service_context(&mut identity).service, "package");
    let mut late = deployment();
    late.project = Some("project".to_string());
    set_service_context(&mut identity, "binary".to_string(), "1".to_string(), late);
    assert_eq!(service_context(&mut identity).service, "package");
    assert_eq!(
        trace_field(&identity, "abc").as_deref(),
        Some("projects/project/traces/abc")
    );

    let mut other = deployment();
    other.project = Some("other".to_string());
    set_service_context(&mut identity, "again".to_string(), "2".to_string(), other);
    assert_eq!(
        trace_field(&identity, "abc").as_deref(),
        Some("projects/project/traces/abc")
    );
}

#[test]
fn unknown_project_has_no_traces() {
    let mut identity = fresh_identity();
    assert_eq!(trace_field(&identity, "abc"), None);
    set_service_context(&mut identity, "binary".to_string(), "1".to_string(), deployment());
    assert_eq!(trace_field(&identity, "abc"), None);
}

#[test]
fn levels_have_severities() {
    assert_eq!(severity(Level::Trace), "DEBUG");
    assert_eq!(severity(Level::Debug), "DEBUG");
    assert_eq!(severity(Level::Info), "INFO");
    assert_eq!(severity(Level::Warn), "WARNING");
    assert_eq!(severity(Level::Error), "ERROR");
}

#[test]
fn whole_entry_of_an_event() {
    let mut visitor = FieldVisitor::new();
    visitor.record_str("message", "line one\nline \"two\"");
    visitor.record_bool("final", true);
    visitor.record_u64("size", 18446744073709551615);
    visitor.record_i64("offset", -5);
    let line = CloudLoggingFormat.format_event_at(
        &mut fresh_identity(),
        None,
        visitor,
        metadata(Level::Debug),
        Some("2024-01-02T03:04:05Z".to_string()),
    );
    assert_eq!(
        line,
        "{\"final\":true,\"logging.googleapis.com/sourceLocation\":{\"file\":\"src/ingest.rs\",\
         \"function\":\"dna::ingest\",\"line\":\"17\"},\"message\":\"line one\\nline \\\"two\\\"\",\
         \"offset\":-5,\"severity\":\"DEBUG\",\"size\":18446744073709551615,\
         \"target\":\"dna::ingest\",\"time\":\"2024-01-02T03:04:05Z\"}\n"
    );
}

#[test]
fn whole_entry_of_an_error() {
    let mut identity = fresh_identity();
    let line = CloudLoggingFormat.format_event_at(
        &mut identity,
        None,
        FieldVisitor::new(),
        EventMetadata {
            level: Level::Error,
            target: "t".to_string(),
            file: None,
            line: None,
        },
        None,
    );
    assert_eq!(
        line,
        format!(
            "{{\"@type\":\"{REPORTED_ERROR_EVENT_TYPE}\",\"context\":{{\"reportLocation\":\
             {{\"filePath\":\"<unknown>\",\"functionName\":\"t\",\"lineNumber\":0}}}},\
             \"message\":\"\",\"serviceContext\":{{\"service\":\"package\",\"version\":\"0.1.0\"}},\
             \"severity\":\"ERROR\",\"target\":\"t\"}}\n"
        )
    );
    let mut named = deployment();
    named.service_name = Some("late".to_string());
    set_service_context(&mut identity, "binary".to_string(), "1".to_string(), named);
    assert_eq!(service_context(&mut identity).service, "package");
}

#[test]
fn file_without_a_line_is_located() {
    let line = CloudLoggingFormat.format_event_at(
        &mut fresh_identity(),
        None,
        FieldVisitor::new(),
        EventMetadata {
            level: Level::Info,
            target: "t".to_string(),
            file: Some("f".to_string()),
            line: None,
        },
        None,
    );
    let entry: Value = serde_json::from_str(&line).unwrap();
    let location = entry["logging.googleapis.com/sourceLocation"].as_object().unwrap();
    assert_eq!(location.len(), 2);
    assert_eq!(location["file"], "f");
    assert_eq!(location["function"], "t");
    assert!(entry.get("time").is_none());
}

#[test]
fn inner_spans_and_events_win() {
    let mut visitor = message("m");
    visitor.record_str("c", "event");
    let nested = span(
        &[
            Some("{\"a\":\"outer\",\"b\":\"outer\",\"c\":\"outer\"}"),
            None,
            Some("not json"),
            Some("[1,2]"),
            Some("{\"b\":\"inner\",\"c\":\"inner\"}"),
        ],
        None,
    );
    let entry = capture(&mut fresh_identity(), Level::Info, nested, visitor);
    assert_eq!(entry["a"], "outer");
    assert_eq!(entry["b"], "inner");
    assert_eq!(entry["c"], "event");
}

#[test]
fn message_that_is_no_text_counts_as_none() {
    let mut visitor = message("lost");
    visitor.record_u64("message", 3);
    let entry = capture(&mut fresh_identity(), Level::Info, None, visitor);
    assert_eq!(entry["message"], "");

    let mut visitor = FieldVisitor::new();
    visitor.record("message", Value::from("plain"));
    visitor.record("ratio", Value::from(0.5));
    let entry = capture(&mut fresh_identity(), Level::Info, None, visitor);
    assert_eq!(entry["message"], "plain");
    assert_eq!(entry["ratio"], 0.5);
}

fn trace(trace_id: Option<&str>, span_id: Option<&str>) -> Option<TraceContext> {
    Some(TraceContext {
        trace_id: trace_id.map(str::to_string),
        span_id: span_id.map(str::to_string),
    })
}

#[test]
fn trace_is_linked_to_its_project() {
    let linked = span(&[], trace(Some("4bf92f3577b34da6a3ce929d0e0e4736"), Some("00f067aa0ba902b7")));
    let entry = capture(&mut with_project("p"), Level::Info, linked, message("m"));
    assert_eq!(
        entry["logging.googleapis.com/trace"],
        "projects/p/traces/4bf92f3577b34da6a3ce929d0e0e4736"
    );
    assert_eq!(entry["logging.googleapis.com/spanId"], "00f067aa0ba902b7");

    let spanless = span(&[], trace(Some("4bf92f3577b34da6a3ce929d0e0e4736"), None));
    let entry = capture(&mut with_project("p"), Level::Info, spanless, message("m"));
    assert!(entry.get("logging.googleapis.com/trace").is_some());
    assert!(entry.get("logging.googleapis.com/spanId").is_none());
}

#[test]
fn logged_fields_do_not_shadow_the_trace() {
    let fields = "{\"logging.googleapis.com/trace\":\"span\",\
                  \"logging.googleapis.com/spanId\":\"span\"}";
    let shadowing = || {
        let mut visitor = message("m");
        visitor.record_str("logging.googleapis.com/trace", "user");
        visitor.record_str("logging.googleapis.com/spanId", "user");
        visitor
    };
    let linked = span(&[Some(fields)], trace(Some("abc"), Some("def")));
    let entry = capture(&mut with_project("p"), Level::Info, linked, shadowing());
    assert_eq!(entry["logging.googleapis.com/trace"], "projects/p/traces/abc");
    assert_eq!(entry["logging.googleapis.com/spanId"], "def");

    let spanless = span(&[Some(fields)], trace(Some("abc"), None));
    let entry = capture(&mut with_project("p"), Level::Info, spanless, shadowing());
    assert_eq!(entry["logging.googleapis.com/trace"], "projects/p/traces/abc");
    assert_eq!(entry["logging.googleapis.com/spanId"], "user");

    let unlinked = span(&[Some(fields)], trace(Some("abc"), Some("def")));
    let entry = capture(&mut fresh_identity(), Level::Info, unlinked, shadowing());
    assert_eq!(entry["logging.googleapis.com/trace"], "user");
}

#[test]
fn logged_fields_do_not_shadow_reserved_keys() {
    let mut visitor = message("m");
    for key in [
        "severity",
        "target",
        "time",
        "logging.googleapis.com/sourceLocation",
        "@type",
        "serviceContext",
        "context",
    ] {
        visitor.record_str(key, "user");
    }
    let entry = capture(&mut fresh_identity(), Level::Error, None, visitor);
    assert_eq!(entry["severity"], "ERROR");
    assert_eq!(entry["target"], "dna::ingest");
    assert_ne!(entry["time"], "user");
    assert_eq!(entry["logging.googleapis.com/sourceLocation"]["file"], FILE);
    assert_eq!(entry["@type"], REPORTED_ERROR_EVENT_TYPE);
    assert_eq!(entry["serviceContext"]["service"], "package");
    assert_eq!(entry["context"]["reportLocation"]["filePath"], FILE);
}

#[test]
fn trace_names_are_distinct() {
    let identity = with_project("p");
    assert_ne!(trace_field(&identity, "a"), trace_field(&identity, "b"));
    assert_eq!(trace_field(&identity, "a"), trace_field(&identity, "a"));
}

#[test]
fn no_trace_is_not_linked() {
    for trace in [
        trace(Some("00000000000000000000000000000000"), Some("00f067aa0ba902b7")),
        trace(None, Some("00f067aa0ba902b7")),
        None,
    ] {
        let entry = capture(&mut with_project("p"), Level::Info, span(&[], trace), message("m"));
        assert!(entry.get("logging.googleapis.com/trace").is_none());
        assert!(entry.get("logging.googleapis.com/spanId").is_none());
    }
    let unknown = span(&[], trace(Some("4bf92f3577b34da6a3ce929d0e0e4736"), Some("1")));
    let entry = capture(&mut fresh_identity(), Level::Info, unknown, message("m"));
    assert!(entry.get("logging.googleapis.com/trace").is_none());
}

#[test]
fn panic_entry_is_a_reported_error() {
    let payload = PanicPayload::Text("the chain view is inconsistent".to_string());
    let line = format_panic(
        &mut fresh_identity(),
        &payload,
        "   0: panicking\n   1: main",
        Some(PanicLocation { file: "src/panic.rs".to_string(), line: 9 }),
    );
    assert_eq!(line.lines().count(), 1);
    let entry: Value = serde_json::from_str(&line).unwrap();
    assert_eq!(entry["severity"], "CRITICAL");
    assert_eq!(entry["@type"], REPORTED_ERROR_EVENT_TYPE);
    assert!(entry["serviceContext"]["service"].is_string());
    assert!(entry["time"].is_string());
    assert_eq!(
        entry["message"],
        "panic: the chain view is inconsistent\n   0: panicking\n   1: main"
    );
    let location = &entry["context"]["reportLocation"];
    assert_eq!(location["functionName"], "panic");
    assert_eq!(location["filePath"], "src/panic.rs");
    assert_eq!(location["lineNumber"], 9);
}

#[test]
fn opaque_panic_has_a_message() {
    assert_eq!(panic_message(&PanicPayload::Other), "Box<dyn Any>");
    let line = format_panic_at(&mut fresh_identity(), &PanicPayload::Other, "bt", None, None);
    let entry: Value = serde_json::from_str(&line).unwrap();
    assert_eq!(entry["message"], "panic: Box<dyn Any>\nbt");
    assert_eq!(entry["context"]["reportLocation"]["filePath"], "<unknown>");
    assert_eq!(entry["context"]["reportLocation"]["lineNumber"], 0);
    assert!(entry.get("time").is_none());
}
