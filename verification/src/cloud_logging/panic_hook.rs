//! The entry that a panic is reported with.
//!
//! It is one JSON object like any other entry, marked as an error report. It
//! carries the backtrace in its message, where the error reports show it.

use vstd::prelude::*;
use vstd::string::*;

use super::format::{
    current_time, decorate_as_reported_error, entry_line, one_line, reported, timed, write_entry,
};
use super::identity::{Identity, ProcessIdentity};
use crate::json::{members_of, new_object, no_members, set_member, string_value, Json};
use crate::text::text_of;

verus! {

/// What a panic was raised with.
#[derive(Debug, PartialEq, Eq)]
pub enum PanicPayload {
    /// A formatted or a literal text: what `panic!` raises.
    Text(String),
    /// Any other value.
    Other,
}

/// Where a panic was raised.
#[derive(Debug, PartialEq, Eq)]
pub struct PanicLocation {
    pub file: String,
    pub line: u32,
}

/// The message of a panic.
pub open spec fn message_of(payload: PanicPayload) -> Seq<char> {
    match payload {
        PanicPayload::Text(text) => text@,
        PanicPayload::Other => "Box<dyn Any>"@,
    }
}

/// The message of a panic.
pub fn panic_message(payload: &PanicPayload) -> (r: String)
    ensures
        r@ == message_of(*payload),
{
    match payload {
        PanicPayload::Text(text) => text.clone(),
        PanicPayload::Other => "Box<dyn Any>".to_owned(),
    }
}

/// The entry of a panic that happens at some time.
pub open spec fn panic_entry(
    payload: PanicPayload,
    backtrace: Seq<char>,
    location: Option<PanicLocation>,
    identity: Identity,
    time: Option<Seq<char>>,
) -> Map<Seq<char>, Json> {
    let named = no_members().insert("severity"@, Json::Str("CRITICAL"@)).insert(
        "message"@,
        Json::Str("panic: "@ + message_of(payload) + "\n"@ + backtrace),
    );
    reported(
        timed(named, time),
        identity.reported(),
        match location {
            Some(location) => Some(location.file@),
            None => None,
        },
        match location {
            Some(location) => Some(location.line),
            None => None,
        },
        "panic"@,
    )
}

/// Writes the entry of a panic as one line, with the current time.
pub fn format_panic(
    identity: &mut ProcessIdentity,
    payload: &PanicPayload,
    backtrace: &str,
    location: Option<PanicLocation>,
) -> (r: String)
    ensures
        exists|time: Option<Seq<char>>|
            r@ == entry_line(
                #[trigger] panic_entry(*payload, backtrace@, location, old(identity)@, time),
            ),
        one_line(r@),
        final(identity)@ == old(identity)@.settled(),
{
    let time: Option<String> = current_time();
    format_panic_at(identity, payload, backtrace, location, time)
}

/// Writes the entry of a panic as one line.
pub fn format_panic_at(
    identity: &mut ProcessIdentity,
    payload: &PanicPayload,
    backtrace: &str,
    location: Option<PanicLocation>,
    time: Option<String>,
) -> (r: String)
    ensures
        r@ == entry_line(
            panic_entry(*payload, backtrace@, location, old(identity)@, text_of(time)),
        ),
        one_line(r@),
        final(identity)@ == old(identity)@.settled(),
{
    let mut entry = new_object();
    set_member(&mut entry, "severity", string_value("CRITICAL"));
    let mut message: String = "panic: ".to_owned();
    message.append(panic_message(payload).as_str());
    message.append("\n");
    message.append(backtrace);
    set_member(&mut entry, "message", string_value(message.as_str()));
    if let Some(time) = &time {
        set_member(&mut entry, "time", string_value(time.as_str()));
    }
    match &location {
        Some(location) => decorate_as_reported_error(
            identity,
            &mut entry,
            Some(&location.file),
            Some(location.line),
            "panic",
        ),
        None => decorate_as_reported_error(identity, &mut entry, None, None, "panic"),
    }
    write_entry(entry)
}

/// Law: a panic is always reported as a critical error, with its backtrace in
/// the message, whatever the panic was raised with.
pub proof fn panic_is_a_reported_error(
    payload: PanicPayload,
    backtrace: Seq<char>,
    location: Option<PanicLocation>,
    identity: Identity,
    time: Option<Seq<char>>,
)
    ensures
        ({
            let entry = panic_entry(payload, backtrace, location, identity, time);
            &&& entry.contains_key("severity"@) && entry["severity"@] == Json::Str("CRITICAL"@)
            &&& entry.contains_key("@type"@) && entry["@type"@] == Json::Str(
                super::format::REPORTED_ERROR_EVENT_TYPE@,
            )
            &&& entry.contains_key("serviceContext"@) && entry["serviceContext"@]
                == super::format::service_member(identity.reported())
            &&& entry.contains_key("message"@)
            &&& entry["message"@] == Json::Str(
                "panic: "@ + message_of(payload) + "\n"@ + backtrace,
            )
            &&& backtrace.is_suffix_of("panic: "@ + message_of(payload) + "\n"@ + backtrace)
        }),
{
    super::format::reserved_keys_are_distinct();
    let before = "panic: "@ + message_of(payload) + "\n"@;
    let message = before + backtrace;
    assert(message.subrange(message.len() - backtrace.len(), message.len() as int) =~= backtrace);
}

/// Law: the entry of a panic says what the panic was raised with and where, and
/// nothing else: its members are its severity, message, time where that is known,
/// and what makes it an error report of the process.
pub proof fn panic_tells_its_message_and_place(
    payload: PanicPayload,
    backtrace: Seq<char>,
    location: Option<PanicLocation>,
    identity: Identity,
    time: Option<Seq<char>>,
    key: Seq<char>,
)
    ensures
        ({
            let entry = panic_entry(payload, backtrace, location, identity, time);
            &&& payload matches PanicPayload::Text(text) ==> entry["message"@] == Json::Str(
                "panic: "@ + text@ + "\n"@ + backtrace,
            )
            &&& payload is Other ==> entry["message"@] == Json::Str(
                "panic: "@ + "Box<dyn Any>"@ + "\n"@ + backtrace,
            )
            &&& entry["severity"@] == Json::Str("CRITICAL"@)
            &&& time matches Some(t) ==> entry.contains_key("time"@) && entry["time"@]
                == Json::Str(t)
            &&& location matches Some(place) ==> super::format::is_reported(
                entry,
                identity.reported(),
                Some(place.file@),
                Some(place.line),
                "panic"@,
            )
            &&& location is None ==> super::format::is_reported(
                entry,
                identity.reported(),
                None,
                None,
                "panic"@,
            )
            &&& entry.contains_key(key) <==> key == "severity"@ || key == "message"@ || key
                == "@type"@ || key == "serviceContext"@ || key == "context"@ || (key == "time"@
                && time is Some)
        }),
{
    super::format::reserved_keys_are_distinct();
    super::format::lemma_location_keys();
}

}
