//! The log entries.
//!
//! Field names are not arbitrary: the logging agent and the error reports both
//! read specific keys.
//!
//! - `severity`, `message`, `time`
//! - `logging.googleapis.com/sourceLocation`
//! - `logging.googleapis.com/trace` and `logging.googleapis.com/spanId`
//! - `@type`, `serviceContext` and `context` make an entry an error report
//!
//! Anything else stays under its own name.

use vstd::prelude::*;
use vstd::string::*;

use super::identity::{service_context, trace_field, Identity, ProcessIdentity, Service};
use crate::json::{
    as_string, bool_value, i64_value, into_object, json_of, json_text, members_of, new_object,
    no_members, object_value, parse_value, parsed_json, set_member, set_members, string_value,
    u64_value, value_text, Json,
};
use crate::text::{decimal, same_text, text_of, u64_text};

verus! {

/// The marker that promotes an entry from a log line to a tracked error.
/// Without it an entry needs a stack trace in a language that the error
/// reports parse.
pub const REPORTED_ERROR_EVENT_TYPE: &'static str =
    "type.googleapis.com/google.devtools.clouderrorreporting.v1beta1.ReportedErrorEvent";

/// The trace id of a span that is part of no trace.
pub const NO_TRACE_ID: &'static str = "00000000000000000000000000000000";

/// Stands for a source file that is not known.
pub const UNKNOWN_FILE: &'static str = "<unknown>";

/// How serious an event is.
#[derive(Clone, Copy, Debug, PartialEq, Eq, Structural)]
pub enum Level {
    Trace,
    Debug,
    Info,
    Warn,
    Error,
}

/// The severity that a level is logged with. There is none below `DEBUG`.
pub open spec fn severity_of(level: Level) -> Seq<char> {
    match level {
        Level::Trace | Level::Debug => "DEBUG"@,
        Level::Info => "INFO"@,
        Level::Warn => "WARNING"@,
        Level::Error => "ERROR"@,
    }
}

/// The severity that a level is logged with.
pub fn severity(level: Level) -> (r: &'static str)
    ensures
        r@ == severity_of(level),
{
    match level {
        Level::Trace | Level::Debug => "DEBUG",
        Level::Info => "INFO",
        Level::Warn => "WARNING",
        Level::Error => "ERROR",
    }
}

/// Where an event comes from.
#[derive(Debug)]
pub struct EventMetadata {
    pub level: Level,
    pub target: String,
    pub file: Option<String>,
    pub line: Option<u32>,
}

/// The trace that a span is part of.
#[derive(Debug)]
pub struct TraceContext {
    pub trace_id: Option<String>,
    pub span_id: Option<String>,
}

/// The span that an event happens in.
#[derive(Debug)]
pub struct CurrentSpan {
    /// The fields of each enclosing span from the root on, as JSON text.
    pub fields: Vec<Option<String>>,
    /// The trace of the innermost span, where traces are recorded.
    pub trace: Option<TraceContext>,
}

/// Collects the fields of an event. `message` is the text of the entry, the
/// other fields are members of it.
pub struct FieldVisitor {
    pub message: Option<String>,
    pub fields: serde_json::Map<String, serde_json::Value>,
}

/// The name of the field that holds the text of an entry.
pub const MESSAGE_FIELD: &'static str = "message";

impl FieldVisitor {
    /// A visitor that has seen no fields.
    pub fn new() -> (r: Self)
        ensures
            r.message is None,
            members_of(r.fields) == no_members(),
    {
        FieldVisitor { message: None, fields: new_object() }
    }

    /// Whether this visitor has taken a field in, after another.
    pub open spec fn took(self, before: Self, name: Seq<char>, value: Json) -> bool {
        if name == MESSAGE_FIELD@ {
            &&& text_of(self.message) == match value {
                Json::Str(text) => Some(text),
                _ => None,
            }
            &&& members_of(self.fields) == members_of(before.fields)
        } else {
            &&& text_of(self.message) == text_of(before.message)
            &&& members_of(self.fields) == members_of(before.fields).insert(name, value)
        }
    }

    /// Takes a field in. A message that is no text counts as none.
    pub fn record(&mut self, name: &str, value: serde_json::Value)
        ensures
            final(self).took(*old(self), name@, json_of(value)),
    {
        if same_text(name, MESSAGE_FIELD) {
            self.message = as_string(&value);
        } else {
            set_member(&mut self.fields, name, value);
        }
    }

    /// Takes a field in whose value is shown as the given text.
    pub fn record_debug(&mut self, name: &str, shown: &str)
        ensures
            final(self).took(*old(self), name@, Json::Str(shown@)),
    {
        self.record(name, string_value(shown));
    }

    pub fn record_str(&mut self, name: &str, value: &str)
        ensures
            final(self).took(*old(self), name@, Json::Str(value@)),
    {
        self.record(name, string_value(value));
    }

    pub fn record_bool(&mut self, name: &str, value: bool)
        ensures
            final(self).took(*old(self), name@, Json::Bool(value)),
    {
        self.record(name, bool_value(value));
    }

    pub fn record_i64(&mut self, name: &str, value: i64)
        ensures
            final(self).took(*old(self), name@, Json::Int(value as int)),
    {
        self.record(name, i64_value(value));
    }

    pub fn record_u64(&mut self, name: &str, value: u64)
        ensures
            final(self).took(*old(self), name@, Json::Int(value as int)),
    {
        self.record(name, u64_value(value));
    }
}

/// An event that is logged.
pub struct LogEvent {
    pub level: Level,
    pub target: Seq<char>,
    pub file: Option<Seq<char>>,
    pub line: Option<u32>,
    /// The fields of the enclosing spans from the root on, as JSON text.
    pub spans: Seq<Option<Seq<char>>>,
    /// The ids of the trace and of the span.
    pub trace_id: Option<Seq<char>>,
    pub span_id: Option<Seq<char>>,
    pub message: Option<Seq<char>>,
    pub fields: Map<Seq<char>, Json>,
}

/// The event that a visitor has seen in a span.
pub open spec fn log_event(
    span: Option<CurrentSpan>,
    visitor: FieldVisitor,
    meta: EventMetadata,
) -> LogEvent {
    LogEvent {
        level: meta.level,
        target: meta.target@,
        file: text_of(meta.file),
        line: meta.line,
        spans: match span {
            Some(span) => span.fields@.map_values(|fields: Option<String>| text_of(fields)),
            None => Seq::empty(),
        },
        trace_id: match span {
            Some(span) => match span.trace {
                Some(trace) => text_of(trace.trace_id),
                None => None,
            },
            None => None,
        },
        span_id: match span {
            Some(span) => match span.trace {
                Some(trace) => text_of(trace.span_id),
                None => None,
            },
            None => None,
        },
        message: text_of(visitor.message),
        fields: members_of(visitor.fields),
    }
}

/// The fields of enclosing spans, where inner ones win. Fields that are no
/// JSON object are left out.
pub open spec fn span_members(spans: Seq<Option<Seq<char>>>) -> Map<Seq<char>, Json>
    decreases spans.len(),
{
    if spans.len() == 0 {
        no_members()
    } else {
        let outer = span_members(spans.drop_last());
        match spans.last() {
            Some(text) => match parsed_json(text) {
                Some(Json::Object(members)) => outer.union_prefer_right(members),
                _ => outer,
            },
            None => outer,
        }
    }
}

/// The members that link an entry to its trace: none without a trace, or
/// without a project to find it in.
pub open spec fn trace_members(event: LogEvent, identity: Identity) -> Map<Seq<char>, Json> {
    match event.trace_id {
        Some(trace_id) if trace_id != NO_TRACE_ID@ => match identity.trace_name(trace_id) {
            Some(name) => {
                let linked = no_members().insert(
                    "logging.googleapis.com/trace"@,
                    Json::Str(name),
                );
                match event.span_id {
                    Some(span_id) => linked.insert(
                        "logging.googleapis.com/spanId"@,
                        Json::Str(span_id),
                    ),
                    None => linked,
                }
            },
            None => no_members(),
        },
        _ => no_members(),
    }
}

/// The members of an entry that users log: those of the spans and the event's
/// own fields, where the latter win.
pub open spec fn free_members(event: LogEvent) -> Map<Seq<char>, Json> {
    span_members(event.spans).union_prefer_right(event.fields)
}

/// The source location of an event. The line is a text here, and a number in
/// an error report.
pub open spec fn source_location(file: Seq<char>, line: Option<u32>, function: Seq<char>) -> Json {
    let located = no_members().insert("file"@, Json::Str(file));
    let lined = match line {
        Some(line) => located.insert("line"@, Json::Str(decimal(line as nat))),
        None => located,
    };
    Json::Object(lined.insert("function"@, Json::Str(function)))
}

/// The service of an error report.
pub open spec fn service_member(service: Service) -> Json {
    Json::Object(
        no_members().insert("service"@, Json::Str(service.name)).insert(
            "version"@,
            Json::Str(service.version),
        ),
    )
}

/// The context of an error report: where it comes from, which is what reports
/// are grouped by.
pub open spec fn context_member(
    file: Option<Seq<char>>,
    line: Option<u32>,
    function: Seq<char>,
) -> Json {
    let location = no_members().insert(
        "filePath"@,
        Json::Str(
            match file {
                Some(file) => file,
                None => UNKNOWN_FILE@,
            },
        ),
    ).insert(
        "lineNumber"@,
        Json::Int(
            match line {
                Some(line) => line as int,
                None => 0,
            },
        ),
    ).insert("functionName"@, Json::Str(function));
    Json::Object(no_members().insert("reportLocation"@, Json::Object(location)))
}

/// An entry with what makes it an error report.
pub open spec fn reported(
    entry: Map<Seq<char>, Json>,
    service: Service,
    file: Option<Seq<char>>,
    line: Option<u32>,
    function: Seq<char>,
) -> Map<Seq<char>, Json> {
    entry.insert("@type"@, Json::Str(REPORTED_ERROR_EVENT_TYPE@)).insert(
        "serviceContext"@,
        service_member(service),
    ).insert("context"@, context_member(file, line, function))
}

/// An entry with its time, where the time is known.
pub open spec fn timed(entry: Map<Seq<char>, Json>, time: Option<Seq<char>>) -> Map<
    Seq<char>,
    Json,
> {
    match time {
        Some(time) => entry.insert("time"@, Json::Str(time)),
        None => entry,
    }
}

/// The entry of an event that is logged at some time.
pub open spec fn event_entry(
    event: LogEvent,
    identity: Identity,
    time: Option<Seq<char>>,
) -> Map<Seq<char>, Json> {
    let linked = free_members(event).union_prefer_right(trace_members(event, identity));
    let named = linked.insert(
        "severity"@,
        Json::Str(severity_of(event.level)),
    ).insert(
        "message"@,
        Json::Str(
            match event.message {
                Some(message) => message,
                None => Seq::empty(),
            },
        ),
    ).insert("target"@, Json::Str(event.target));
    let stamped = timed(named, time);
    let located = match event.file {
        Some(file) => stamped.insert(
            "logging.googleapis.com/sourceLocation"@,
            source_location(file, event.line, event.target),
        ),
        None => stamped,
    };
    if event.level == Level::Error {
        reported(located, identity.reported(), event.file, event.line, event.target)
    } else {
        located
    }
}

/// The line that an entry is written as.
pub open spec fn entry_line(entry: Map<Seq<char>, Json>) -> Seq<char> {
    json_text(Json::Object(entry)).push('\n')
}

/// Whether a text is one line.
pub open spec fn one_line(text: Seq<char>) -> bool {
    text.len() > 0 && text.last() == '\n' && !text.drop_last().contains('\n')
}

/// Sets a member to a text.
fn set_text(object: &mut serde_json::Map<String, serde_json::Value>, name: &str, text: &str)
    ensures
        members_of(*final(object)) == members_of(*old(object)).insert(name@, Json::Str(text@)),
{
    set_member(object, name, string_value(text));
}

/// Adds what makes an entry an error report, and settles the service that it
/// is reported for.
pub fn decorate_as_reported_error(
    identity: &mut ProcessIdentity,
    entry: &mut serde_json::Map<String, serde_json::Value>,
    file: Option<&String>,
    line: Option<u32>,
    function: &str,
)
    ensures
        members_of(*final(entry)) == reported(
            members_of(*old(entry)),
            old(identity)@.reported(),
            (match file {
                Some(file) => Some(file@),
                None => None,
            }),
            line,
            function@,
        ),
        final(identity)@ == old(identity)@.settled(),
{
    let service = service_context(identity);
    set_text(entry, "@type", REPORTED_ERROR_EVENT_TYPE);
    let mut context = new_object();
    set_text(&mut context, "service", service.service.as_str());
    set_text(&mut context, "version", service.version.as_str());
    set_member(entry, "serviceContext", object_value(context));
    let mut location = new_object();
    match file {
        Some(file) => set_text(&mut location, "filePath", file.as_str()),
        None => set_text(&mut location, "filePath", UNKNOWN_FILE),
    }
    let line: u64 = match line {
        Some(line) => line as u64,
        None => 0,
    };
    set_member(&mut location, "lineNumber", u64_value(line));
    set_text(&mut location, "functionName", function);
    let mut error_context = new_object();
    set_member(&mut error_context, "reportLocation", object_value(location));
    set_member(entry, "context", object_value(error_context));
}

/// The current time as RFC 3339 writes it, by `OffsetDateTime::now_utc` and
/// `OffsetDateTime::format` of `time`, or none where it cannot be written.
/// Nothing is promised of a clock.
#[verifier::external_body]
pub(crate) fn current_time() -> (r: Option<String>) {
    time::OffsetDateTime::now_utc().format(&time::format_description::well_known::Rfc3339).ok()
}

/// Writes an entry as a line.
pub(crate) fn write_entry(entry: serde_json::Map<String, serde_json::Value>) -> (r: String)
    ensures
        r@ == entry_line(members_of(entry)),
        one_line(r@),
{
    let mut line: String = value_text(&object_value(entry));
    let ghost text = line@;
    line.append("\n");
    proof {
        reveal_strlit("\n");
        assert(line@ =~= text.push('\n'));
        assert(line@.drop_last() =~= text);
    }
    line
}

/// The fields of enclosing spans.
fn merge_spans(spans: &Vec<Option<String>>) -> (r: serde_json::Map<String, serde_json::Value>)
    ensures
        members_of(r) == span_members(
            spans@.map_values(|fields: Option<String>| text_of(fields)),
        ),
{
    let ghost texts = spans@.map_values(|fields: Option<String>| text_of(fields));
    let mut entry = new_object();
    let mut i: usize = 0;
    while i < spans.len()
        invariant
            i <= spans.len(),
            texts == spans@.map_values(|fields: Option<String>| text_of(fields)),
            members_of(entry) == span_members(texts.take(i as int)),
        decreases spans.len() - i,
    {
        proof {
            assert(texts.take(i + 1).drop_last() =~= texts.take(i as int));
        }
        if let Some(text) = &spans[i] {
            if let Some(value) = parse_value(text.as_str()) {
                if let Some(fields) = into_object(value) {
                    set_members(&mut entry, fields);
                }
            }
        }
        i += 1;
    }
    assert(texts.take(texts.len() as int) =~= texts);
    entry
}

/// Links an entry to the trace of a span.
fn link_trace(
    identity: &ProcessIdentity,
    entry: &mut serde_json::Map<String, serde_json::Value>,
    trace: &TraceContext,
    event: Ghost<LogEvent>,
)
    requires
        event@.trace_id == text_of(trace.trace_id),
        event@.span_id == text_of(trace.span_id),
    ensures
        members_of(*final(entry)) == members_of(*old(entry)).union_prefer_right(
            trace_members(event@, identity@),
        ),
{
    let ghost before = members_of(*entry);
    if let Some(trace_id) = &trace.trace_id {
        if !same_text(trace_id.as_str(), NO_TRACE_ID) {
            if let Some(name) = trace_field(identity, trace_id.as_str()) {
                set_text(entry, "logging.googleapis.com/trace", name.as_str());
                if let Some(span_id) = &trace.span_id {
                    set_text(entry, "logging.googleapis.com/spanId", span_id.as_str());
                }
            }
        }
    }
    assert(members_of(*entry) =~= before.union_prefer_right(trace_members(event@, identity@)));
}

/// The format of the log entries.
#[derive(Clone, Copy, Debug, PartialEq, Eq, Structural)]
pub struct CloudLoggingFormat;

impl CloudLoggingFormat {
    /// Writes the entry of an event as one line, with the current time.
    pub fn format_event(
        &self,
        identity: &mut ProcessIdentity,
        span: Option<CurrentSpan>,
        visitor: FieldVisitor,
        meta: EventMetadata,
    ) -> (r: String)
        ensures
            exists|time: Option<Seq<char>>|
                r@ == entry_line(
                    #[trigger] event_entry(log_event(span, visitor, meta), old(identity)@, time),
                ),
            one_line(r@),
            final(identity)@ == (if meta.level == Level::Error {
                old(identity)@.settled()
            } else {
                old(identity)@
            }),
    {
        let time: Option<String> = current_time();
        self.format_event_at(identity, span, visitor, meta, time)
    }

    /// Writes the entry of an event as one line.
    ///
    /// Fields of the enclosing spans come first, then the event's own, then
    /// the reserved keys, those of the trace among them. Later ones win, so that a field named like a
    /// reserved key is shadowed. An entry without a time is stamped by the
    /// logging agent.
    pub fn format_event_at(
        &self,
        identity: &mut ProcessIdentity,
        span: Option<CurrentSpan>,
        visitor: FieldVisitor,
        meta: EventMetadata,
        time: Option<String>,
    ) -> (r: String)
        ensures
            r@ == entry_line(
                event_entry(log_event(span, visitor, meta), old(identity)@, text_of(time)),
            ),
            one_line(r@),
            final(identity)@ == (if meta.level == Level::Error {
                old(identity)@.settled()
            } else {
                old(identity)@
            }),
    {
        let ghost event = log_event(span, visitor, meta);
        let mut entry = new_object();
        if let Some(span) = &span {
            entry = merge_spans(&span.fields);
        }
        assert(span_members(Seq::<Option<Seq<char>>>::empty()) == no_members());
        set_members(&mut entry, visitor.fields);
        assert(members_of(entry) == free_members(event));
        if let Some(span) = &span {
            if let Some(trace) = &span.trace {
                link_trace(identity, &mut entry, trace, Ghost(event));
            }
        }
        assert(members_of(entry) =~= free_members(event).union_prefer_right(
            trace_members(event, identity@),
        ));
        set_text(&mut entry, "severity", severity(meta.level));
        match &visitor.message {
            Some(message) => set_text(&mut entry, "message", message.as_str()),
            None => {
                proof {
                    reveal_strlit("");
                    assert(""@ =~= Seq::<char>::empty());
                }
                set_text(&mut entry, "message", "");
            },
        }
        set_text(&mut entry, "target", meta.target.as_str());
        if let Some(time) = &time {
            set_text(&mut entry, "time", time.as_str());
        }
        if let Some(file) = &meta.file {
            let mut location = new_object();
            set_text(&mut location, "file", file.as_str());
            if let Some(line) = meta.line {
                set_text(&mut location, "line", u64_text(line as u64).as_str());
            }
            set_text(&mut location, "function", meta.target.as_str());
            set_member(
                &mut entry,
                "logging.googleapis.com/sourceLocation",
                object_value(location),
            );
        }
        if meta.level == Level::Error {
            decorate_as_reported_error(
                identity,
                &mut entry,
                meta.file.as_ref(),
                meta.line,
                meta.target.as_str(),
            );
        }
        write_entry(entry)
    }
}

/// The keys of an entry that it says itself.
pub open spec fn reserved_keys() -> Set<Seq<char>> {
    set![
        "severity"@,
        "message"@,
        "target"@,
        "time"@,
        "logging.googleapis.com/sourceLocation"@,
        "@type"@,
        "serviceContext"@,
        "context"@,
        "logging.googleapis.com/trace"@,
        "logging.googleapis.com/spanId"@,
    ]
}

/// No two of the keys that are read are the same.
pub(crate) proof fn reserved_keys_are_distinct()
    ensures
        "severity"@ != "message"@
            && "severity"@ != "target"@
            && "severity"@ != "time"@
            && "severity"@ != "logging.googleapis.com/sourceLocation"@
            && "severity"@ != "@type"@
            && "severity"@ != "serviceContext"@
            && "severity"@ != "context"@
            && "severity"@ != "logging.googleapis.com/trace"@
            && "severity"@ != "logging.googleapis.com/spanId"@,
        "message"@ != "target"@
            && "message"@ != "time"@
            && "message"@ != "logging.googleapis.com/sourceLocation"@
            && "message"@ != "@type"@
            && "message"@ != "serviceContext"@
            && "message"@ != "context"@
            && "message"@ != "logging.googleapis.com/trace"@
            && "message"@ != "logging.googleapis.com/spanId"@,
        "target"@ != "time"@
            && "target"@ != "logging.googleapis.com/sourceLocation"@
            && "target"@ != "@type"@
            && "target"@ != "serviceContext"@
            && "target"@ != "context"@
            && "target"@ != "logging.googleapis.com/trace"@
            && "target"@ != "logging.googleapis.com/spanId"@,
        "time"@ != "logging.googleapis.com/sourceLocation"@
            && "time"@ != "@type"@
            && "time"@ != "serviceContext"@
            && "time"@ != "context"@
            && "time"@ != "logging.googleapis.com/trace"@
            && "time"@ != "logging.googleapis.com/spanId"@,
        "logging.googleapis.com/sourceLocation"@ != "@type"@
            && "logging.googleapis.com/sourceLocation"@ != "serviceContext"@
            && "logging.googleapis.com/sourceLocation"@ != "context"@
            && "logging.googleapis.com/sourceLocation"@ != "logging.googleapis.com/trace"@
            && "logging.googleapis.com/sourceLocation"@ != "logging.googleapis.com/spanId"@,
        "@type"@ != "serviceContext"@
            && "@type"@ != "context"@
            && "@type"@ != "logging.googleapis.com/trace"@
            && "@type"@ != "logging.googleapis.com/spanId"@,
        "serviceContext"@ != "context"@
            && "serviceContext"@ != "logging.googleapis.com/trace"@
            && "serviceContext"@ != "logging.googleapis.com/spanId"@,
        "context"@ != "logging.googleapis.com/trace"@
            && "context"@ != "logging.googleapis.com/spanId"@,
        "logging.googleapis.com/trace"@ != "logging.googleapis.com/spanId"@,
{
    reveal_strlit("severity");
    reveal_strlit("message");
    reveal_strlit("target");
    reveal_strlit("time");
    reveal_strlit("logging.googleapis.com/sourceLocation");
    reveal_strlit("@type");
    reveal_strlit("serviceContext");
    reveal_strlit("context");
    reveal_strlit("logging.googleapis.com/trace");
    reveal_strlit("logging.googleapis.com/spanId");
    assert("severity"@.len() == 8);
    assert("message"@.len() == 7);
    assert("target"@.len() == 6);
    assert("time"@.len() == 4);
    assert("logging.googleapis.com/sourceLocation"@.len() == 37);
    assert("@type"@.len() == 5);
    assert("serviceContext"@.len() == 14);
    assert("context"@.len() == 7);
    assert("logging.googleapis.com/trace"@.len() == 28);
    assert("logging.googleapis.com/spanId"@.len() == 29);
    assert("message"@[0] != "context"@[0]);
}

/// Law: nothing that an event or a span carries shadows what the entry says
/// itself: its severity, message and target, its time and source location
/// where there are any, the trace and span that it is linked to, and what makes
/// it an error report.
pub proof fn reserved_keys_cannot_be_shadowed(
    event: LogEvent,
    identity: Identity,
    time: Option<Seq<char>>,
)
    ensures
        ({
            let entry = event_entry(event, identity, time);
            &&& entry.contains_key("severity"@) && entry["severity"@] == Json::Str(
                severity_of(event.level),
            )
            &&& entry.contains_key("message"@) && entry["message"@] == Json::Str(
                match event.message {
                    Some(message) => message,
                    None => Seq::empty(),
                },
            )
            &&& entry.contains_key("target"@) && entry["target"@] == Json::Str(event.target)
            &&& time matches Some(t) ==> entry.contains_key("time"@) && entry["time"@]
                == Json::Str(t)
            &&& event.file matches Some(file) ==> entry.contains_key(
                "logging.googleapis.com/sourceLocation"@,
            ) && entry["logging.googleapis.com/sourceLocation"@] == source_location(
                file,
                event.line,
                event.target,
            )
            &&& trace_members(event, identity).contains_key("logging.googleapis.com/trace"@)
                ==> entry.contains_key("logging.googleapis.com/trace"@)
                && entry["logging.googleapis.com/trace"@] == trace_members(
                event,
                identity,
            )["logging.googleapis.com/trace"@]
            &&& trace_members(event, identity).contains_key("logging.googleapis.com/spanId"@)
                ==> entry.contains_key("logging.googleapis.com/spanId"@)
                && entry["logging.googleapis.com/spanId"@] == trace_members(
                event,
                identity,
            )["logging.googleapis.com/spanId"@]
            &&& event.level == Level::Error ==> entry.contains_key("@type"@) && entry["@type"@]
                == Json::Str(REPORTED_ERROR_EVENT_TYPE@) && entry.contains_key("serviceContext"@)
                && entry["serviceContext"@] == service_member(identity.reported())
                && entry.contains_key("context"@) && entry["context"@] == context_member(
                event.file,
                event.line,
                event.target,
            )
        }),
{
    reserved_keys_are_distinct();
}

/// Law: only errors are reported. Below that an entry carries the marker only
/// where a field of that name was logged.
pub proof fn only_errors_are_reported(
    event: LogEvent,
    identity: Identity,
    time: Option<Seq<char>>,
)
    requires
        event.level != Level::Error,
        !free_members(event).contains_key("@type"@),
    ensures
        !event_entry(event, identity, time).contains_key("@type"@),
{
    reserved_keys_are_distinct();
}

/// Law: a member under any other name is kept as it is, and none is added.
pub proof fn other_members_are_kept(
    event: LogEvent,
    identity: Identity,
    time: Option<Seq<char>>,
    key: Seq<char>,
)
    requires
        !reserved_keys().contains(key),
    ensures
        event_entry(event, identity, time).contains_key(key) <==> free_members(event).contains_key(
            key,
        ),
        free_members(event).contains_key(key) ==> event_entry(event, identity, time)[key]
            == free_members(event)[key],
{
}

/// Law: a field of the event wins over one of a span with the same name.
pub proof fn event_fields_win(event: LogEvent, key: Seq<char>)
    requires
        event.fields.contains_key(key),
    ensures
        free_members(event).contains_key(key),
        free_members(event)[key] == event.fields[key],
{
}

/// Law: a field of a span is kept, unless the event has one of the same name.
pub proof fn span_fields_are_merged(event: LogEvent, key: Seq<char>)
    requires
        span_members(event.spans).contains_key(key),
        !event.fields.contains_key(key),
    ensures
        free_members(event).contains_key(key),
        free_members(event)[key] == span_members(event.spans)[key],
{
}

/// Law: an inner span wins over the outer ones, and what it does not name
/// comes from them.
pub proof fn inner_spans_win(
    outer: Seq<Option<Seq<char>>>,
    text: Seq<char>,
    members: Map<Seq<char>, Json>,
    key: Seq<char>,
)
    requires
        parsed_json(text) == Some(Json::Object(members)),
    ensures
        members.contains_key(key) ==> span_members(outer.push(Some(text))).contains_key(key)
            && span_members(outer.push(Some(text)))[key] == members[key],
        !members.contains_key(key) ==> (span_members(outer.push(Some(text))).contains_key(key)
            <==> span_members(outer).contains_key(key)),
        !members.contains_key(key) && span_members(outer).contains_key(key) ==> span_members(
            outer.push(Some(text)),
        )[key] == span_members(outer)[key],
{
    assert(outer.push(Some(text)).drop_last() =~= outer);
}

/// Law: without a project, without a trace or with the id of no trace, the
/// entry names a trace or a span of one only where a field of that name was
/// logged.
pub proof fn trace_is_omitted_without_a_project(
    event: LogEvent,
    identity: Identity,
    time: Option<Seq<char>>,
)
    requires
        identity.known_project() is None || event.trace_id is None || event.trace_id == Some(
            NO_TRACE_ID@,
        ),
    ensures
        event_entry(event, identity, time).contains_key("logging.googleapis.com/trace"@)
            <==> free_members(event).contains_key("logging.googleapis.com/trace"@),
        event_entry(event, identity, time).contains_key("logging.googleapis.com/spanId"@)
            <==> free_members(event).contains_key("logging.googleapis.com/spanId"@),
{
    reserved_keys_are_distinct();
}

/// Law: with a project and a trace the entry is linked to the trace, and to its
/// span where that is known, whatever fields were logged.
pub proof fn trace_is_linked(event: LogEvent, identity: Identity, time: Option<Seq<char>>)
    requires
        identity.known_project() is Some,
        event.trace_id is Some,
        event.trace_id->0 != NO_TRACE_ID@,
    ensures
        event_entry(event, identity, time).contains_key("logging.googleapis.com/trace"@),
        event_entry(event, identity, time)["logging.googleapis.com/trace"@] == Json::Str(
            identity.trace_name(event.trace_id->0)->0,
        ),
        event.span_id matches Some(span_id) ==> event_entry(event, identity, time).contains_key(
            "logging.googleapis.com/spanId"@,
        ) && event_entry(event, identity, time)["logging.googleapis.com/spanId"@] == Json::Str(
            span_id,
        ),
{
    reserved_keys_are_distinct();
}

/// Law: an entry says how serious the event is in the words that the logging
/// agent reads. Nothing is below `DEBUG`.
pub proof fn severity_follows_the_level(
    event: LogEvent,
    identity: Identity,
    time: Option<Seq<char>>,
)
    ensures
        ({
            let severity = event_entry(event, identity, time)["severity"@];
            &&& event.level == Level::Error <==> severity == Json::Str("ERROR"@)
            &&& event.level == Level::Warn <==> severity == Json::Str("WARNING"@)
            &&& event.level == Level::Info <==> severity == Json::Str("INFO"@)
            &&& event.level == Level::Debug || event.level == Level::Trace <==> severity
                == Json::Str("DEBUG"@)
        }),
        severity_of(event.level) == event_entry(event, identity, time)["severity"@]->Str_0,
{
    reserved_keys_are_distinct();
    reveal_strlit("ERROR");
    reveal_strlit("WARNING");
    reveal_strlit("INFO");
    reveal_strlit("DEBUG");
    assert("ERROR"@.len() == 5 && "WARNING"@.len() == 7 && "INFO"@.len() == 4 && "DEBUG"@.len()
        == 5);
    assert("ERROR"@[0] != "DEBUG"@[0]);
}

/// Law: an entry has a time and a source location exactly where they are known,
/// or where a field of that name was logged. The location names the file and the
/// target, and the line as decimal text where that is known.
pub proof fn time_and_place_are_told(event: LogEvent, identity: Identity, time: Option<Seq<char>>)
    ensures
        ({
            let entry = event_entry(event, identity, time);
            let location = "logging.googleapis.com/sourceLocation"@;
            &&& time is None ==> (entry.contains_key("time"@) <==> free_members(
                event,
            ).contains_key("time"@))
            &&& time is None && free_members(event).contains_key("time"@) ==> entry["time"@]
                == free_members(event)["time"@]
            &&& event.file is None ==> (entry.contains_key(location) <==> free_members(
                event,
            ).contains_key(location))
            &&& event.file is None && free_members(event).contains_key(location)
                ==> entry[location] == free_members(event)[location]
            &&& event.file matches Some(file) ==> {
                &&& entry.contains_key(location)
                &&& entry[location] matches Json::Object(place)
                &&& place.contains_key("file"@) && place["file"@] == Json::Str(file)
                &&& place.contains_key("function"@) && place["function"@] == Json::Str(event.target)
                &&& event.line is Some <==> place.contains_key("line"@)
                &&& event.line matches Some(line) ==> place["line"@] == Json::Str(
                    decimal(line as nat),
                )
                &&& forall|key: Seq<char>| #[trigger]
                    place.contains_key(key) ==> key == "file"@ || key == "line"@ || key
                        == "function"@
            }
        }),
{
    reserved_keys_are_distinct();
    lemma_location_keys();
}

/// Law: an error carries what the error reports read: the marker, the service
/// and version of the process, and where it comes from, with stand-ins for a file
/// and a line that are not known. Anything less serious carries none of these,
/// but for fields of those names.
pub proof fn errors_carry_their_report(
    event: LogEvent,
    identity: Identity,
    time: Option<Seq<char>>,
    key: Seq<char>,
)
    requires
        key == "@type"@ || key == "serviceContext"@ || key == "context"@,
    ensures
        event.level == Level::Error ==> is_reported(
            event_entry(event, identity, time),
            identity.reported(),
            event.file,
            event.line,
            event.target,
        ),
        event.level != Level::Error ==> (event_entry(event, identity, time).contains_key(key)
            <==> free_members(event).contains_key(key)),
        event.level != Level::Error && free_members(event).contains_key(key) ==> event_entry(
            event,
            identity,
            time,
        )[key] == free_members(event)[key],
{
    reserved_keys_are_distinct();
    lemma_location_keys();
}

/// Whether an entry is an error report of a service, from a place in its code.
pub open spec fn is_reported(
    entry: Map<Seq<char>, Json>,
    service: Service,
    file: Option<Seq<char>>,
    line: Option<u32>,
    function: Seq<char>,
) -> bool {
    &&& entry.contains_key("@type"@) && entry["@type"@] == Json::Str(
        "type.googleapis.com/google.devtools.clouderrorreporting.v1beta1.ReportedErrorEvent"@,
    )
    &&& entry.contains_key("serviceContext"@)
    &&& entry["serviceContext"@] matches Json::Object(context)
    &&& context.dom() =~= set!["service"@, "version"@]
    &&& context["service"@] == Json::Str(service.name)
    &&& context["version"@] == Json::Str(service.version)
    &&& entry.contains_key("context"@)
    &&& entry["context"@] matches Json::Object(whole)
    &&& whole.dom() =~= set!["reportLocation"@]
    &&& whole["reportLocation"@] matches Json::Object(place)
    &&& place.dom() =~= set!["filePath"@, "lineNumber"@, "functionName"@]
    &&& file matches Some(file) ==> place["filePath"@] == Json::Str(file)
    &&& file is None ==> place["filePath"@] == Json::Str("<unknown>"@)
    &&& line matches Some(line) ==> place["lineNumber"@] == Json::Int(line as int)
    &&& line is None ==> place["lineNumber"@] == Json::Int(0)
    &&& place["functionName"@] == Json::Str(function)
}

/// Law: decorating an entry makes it an error report, and leaves every other
/// member as it was.
pub proof fn decorating_adds_the_report_alone(
    entry: Map<Seq<char>, Json>,
    service: Service,
    file: Option<Seq<char>>,
    line: Option<u32>,
    function: Seq<char>,
    key: Seq<char>,
)
    ensures
        is_reported(reported(entry, service, file, line, function), service, file, line, function),
        key != "@type"@ && key != "serviceContext"@ && key != "context"@ ==> (reported(
            entry,
            service,
            file,
            line,
            function,
        ).contains_key(key) <==> entry.contains_key(key)),
        key != "@type"@ && key != "serviceContext"@ && key != "context"@ && entry.contains_key(key)
            ==> reported(entry, service, file, line, function)[key] == entry[key],
{
    reserved_keys_are_distinct();
    lemma_location_keys();
}

/// Law: a trace is named within the project of the process, and a span by its
/// id, exactly where there is a project and an id of a trace. An id of zeros is
/// that of no trace.
pub proof fn trace_is_linked_within_its_project(
    event: LogEvent,
    identity: Identity,
    time: Option<Seq<char>>,
)
    ensures
        ({
            let entry = event_entry(event, identity, time);
            let free = free_members(event);
            let (trace, span) = (
                "logging.googleapis.com/trace"@,
                "logging.googleapis.com/spanId"@,
            );
            match (identity.project, event.trace_id) {
                (Some(Some(project)), Some(id)) if id != "00000000000000000000000000000000"@ => {
                    &&& entry.contains_key(trace) && entry[trace] == Json::Str(
                        "projects/"@ + project + "/traces/"@ + id,
                    )
                    &&& event.span_id matches Some(span_id) ==> entry.contains_key(span)
                        && entry[span] == Json::Str(span_id)
                    &&& event.span_id is None ==> (entry.contains_key(span)
                        <==> free.contains_key(span))
                    &&& event.span_id is None && free.contains_key(span) ==> entry[span]
                        == free[span]
                },
                _ => {
                    &&& entry.contains_key(trace) <==> free.contains_key(trace)
                    &&& free.contains_key(trace) ==> entry[trace] == free[trace]
                    &&& entry.contains_key(span) <==> free.contains_key(span)
                    &&& free.contains_key(span) ==> entry[span] == free[span]
                },
            }
        }),
{
    reserved_keys_are_distinct();
}

/// Law: what users log comes from the event and from its spans, and from nowhere
/// else. Without a span there are the fields of the event alone, and a span
/// whose fields are no JSON object adds nothing.
pub proof fn members_come_from_the_event_and_its_spans(
    event: LogEvent,
    key: Seq<char>,
    outer: Seq<Option<Seq<char>>>,
    fields: Option<Seq<char>>,
)
    ensures
        free_members(event).contains_key(key) <==> event.fields.contains_key(key) || span_members(
            event.spans,
        ).contains_key(key),
        event.spans.len() == 0 ==> free_members(event) == event.fields,
        fields is None || parsed_json(fields->0) is None || !(parsed_json(fields->0)->0 is Object)
            ==> span_members(outer.push(fields)) == span_members(outer),
{
    assert(outer.push(fields).drop_last() =~= outer);
    if event.spans.len() == 0 {
        assert(free_members(event) =~= event.fields);
    }
}

/// Law: the event that is logged has the level, target, file and line of its
/// metadata, the message and fields that were recorded, and the spans and trace
/// that it happens in.
pub proof fn event_is_what_was_recorded(
    span: Option<CurrentSpan>,
    visitor: FieldVisitor,
    meta: EventMetadata,
)
    ensures
        ({
            let event = log_event(span, visitor, meta);
            &&& event.level == meta.level
            &&& event.target == meta.target@
            &&& event.line == meta.line
            &&& meta.file is None <==> event.file is None
            &&& meta.file matches Some(file) ==> event.file == Some(file@)
            &&& visitor.message is None <==> event.message is None
            &&& visitor.message matches Some(message) ==> event.message == Some(message@)
            &&& event.fields == members_of(visitor.fields)
            &&& span is None ==> event.spans.len() == 0 && event.trace_id is None
                && event.span_id is None
            &&& span matches Some(within) ==> {
                &&& event.spans.len() == within.fields@.len()
                &&& forall|i: int|
                    0 <= i < event.spans.len() ==> #[trigger] event.spans[i]
                        == match within.fields@[i] {
                        Some(fields) => Some(fields@),
                        None => None,
                    }
                &&& within.trace is None ==> event.trace_id is None && event.span_id is None
                &&& within.trace matches Some(trace) ==> {
                    &&& trace.trace_id is None <==> event.trace_id is None
                    &&& trace.trace_id matches Some(id) ==> event.trace_id == Some(id@)
                    &&& trace.span_id is None <==> event.span_id is None
                    &&& trace.span_id matches Some(id) ==> event.span_id == Some(id@)
                }
            }
        }),
{
}

/// Law: a field named `message` is the text of the entry, and none where it is
/// no text; it leaves the other fields alone. Any other field is a member under
/// its name, in place of an earlier one; it leaves the message and every other
/// field alone.
pub proof fn fields_are_taken_in(
    before: FieldVisitor,
    after: FieldVisitor,
    name: Seq<char>,
    value: Json,
    other: Seq<char>,
)
    requires
        after.took(before, name, value),
    ensures
        name == "message"@ ==> match value {
            Json::Str(text) => after.message matches Some(message) && message@ == text,
            _ => after.message is None,
        },
        name == "message"@ ==> members_of(after.fields) == members_of(before.fields),
        name != "message"@ ==> members_of(after.fields).contains_key(name) && members_of(
            after.fields,
        )[name] == value,
        name != "message"@ ==> match before.message {
            Some(message) => after.message matches Some(kept) && kept@ == message@,
            None => after.message is None,
        },
        other != name ==> (members_of(after.fields).contains_key(other) <==> members_of(
            before.fields,
        ).contains_key(other)),
        other != name && members_of(before.fields).contains_key(other) ==> members_of(
            after.fields,
        )[other] == members_of(before.fields)[other],
{
}

/// Law: an entry is written as one JSON object with all of its members, and a
/// line break behind it.
pub proof fn entry_is_written_whole(entry: Map<Seq<char>, Json>)
    ensures
        entry_line(entry).len() == json_text(Json::Object(entry)).len() + 1,
        entry_line(entry).drop_last() == json_text(Json::Object(entry)),
        entry_line(entry).last() == '\n',
{
    assert(entry_line(entry).drop_last() =~= json_text(Json::Object(entry)));
}

/// No two keys of a location or a service are the same.
pub(crate) proof fn lemma_location_keys()
    ensures
        "file"@ != "line"@ && "file"@ != "function"@ && "line"@ != "function"@,
        "service"@ != "version"@,
        "filePath"@ != "lineNumber"@ && "filePath"@ != "functionName"@ && "lineNumber"@
            != "functionName"@,
{
    reveal_strlit("file");
    reveal_strlit("line");
    reveal_strlit("function");
    reveal_strlit("service");
    reveal_strlit("version");
    reveal_strlit("filePath");
    reveal_strlit("lineNumber");
    reveal_strlit("functionName");
    assert("file"@[0] != "line"@[0]);
    assert("function"@.len() == 8 && "file"@.len() == 4 && "line"@.len() == 4);
    assert("service"@[0] != "version"@[0]);
    assert("filePath"@.len() == 8 && "lineNumber"@.len() == 10 && "functionName"@.len() == 12);
}

}
