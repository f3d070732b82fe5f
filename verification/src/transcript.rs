//! The transcript: one readable record for every forwarded message, kept
//! in one stream per role.
use vstd::prelude::*;
use vstd::string::*;
use crate::clock::timestamp_now;
use crate::json::{json_reindented, reindent};
use crate::relay::{Payload, PayloadView};
use crate::role::{Role, PRIMARY_ID};
use crate::text::{append_decimal, binary_description, decimal, describe_binary};

verus! {

/// The tag of every record that the upstream connection gives rise to.
pub open spec fn server_prefix() -> Seq<char> {
    "[server]"@
}

/// The tag of the records of a connection: a fixed word for the upstream
/// connection, the identity in square brackets for a downstream one.
pub open spec fn prefix_of(identity: u32) -> Seq<char> {
    if identity == PRIMARY_ID {
        server_prefix()
    } else {
        "[id: "@ + decimal(identity as nat) + "]"@
    }
}

/// The name of the stream that holds the records of a role.
pub open spec fn stream_of(role: Role) -> Seq<char> {
    match role {
        Role::Upstream => "ws-debug.server.log"@,
        Role::Downstream => "ws-debug.client.log"@,
    }
}

/// The body of a text message, given the indented form of the document
/// that the text denotes: that form where there is one, else the text as
/// it came.
pub open spec fn text_body(raw: Seq<char>, reindented: Option<Seq<char>>) -> Seq<char> {
    match reindented {
        Some(indented) => indented,
        None => raw,
    }
}

/// The body of the record of a message. A binary message is described by
/// its bytes. A text message stands as it came, unless documents are to be
/// indented and the text denotes one.
pub open spec fn transcript_body(message: PayloadView, prettify_json: bool) -> Seq<char> {
    match message {
        PayloadView::Binary(bytes) => binary_description(bytes),
        PayloadView::Text(raw) => if prettify_json {
            text_body(raw, json_reindented(raw))
        } else {
            raw
        },
    }
}

/// A record: the time, the tag and the body, with one space between them.
pub open spec fn record_text(timestamp: Seq<char>, prefix: Seq<char>, body: Seq<char>) -> Seq<
    char,
> {
    timestamp + " "@ + prefix + " "@ + body
}

/// The line that notes a new connection in the stream of its role.
pub open spec fn connection_note_text(
    timestamp: Seq<char>,
    identity: u32,
    server_label: Seq<char>,
) -> Seq<char> {
    if identity == PRIMARY_ID {
        timestamp + " Proxy connected to the server at "@ + server_label + "\n"@
    } else {
        timestamp + " Client connected to the proxy with id "@ + decimal(identity as nat) + "\n"@
    }
}

/// The name of the stream that holds the records of a role.
pub fn stream_name(role: Role) -> (name: &'static str)
    ensures
        name@ == stream_of(role),
{
    match role {
        Role::Upstream => "ws-debug.server.log",
        Role::Downstream => "ws-debug.client.log",
    }
}

/// The tag of the records of the connection with `identity`.
pub fn prefix_for(identity: u32) -> (prefix: String)
    ensures
        prefix@ == prefix_of(identity),
{
    if identity == PRIMARY_ID {
        String::from_str("[server]")
    } else {
        let mut prefix = String::from_str("[id: ");
        append_decimal(&mut prefix, identity);
        prefix.append("]");
        prefix
    }
}

/// Picks the body of a text message once the attempt to indent it is over.
pub fn choose_text_body(raw: String, reindented: Option<String>) -> (body: String)
    ensures
        body@ == text_body(
            raw@,
            match reindented {
                Some(indented) => Some(indented@),
                None => None,
            },
        ),
{
    match reindented {
        Some(indented) => indented,
        None => raw,
    }
}

/// The body of the record of a message.
pub fn pretty_print(message: Payload, prettify_json: bool) -> (body: String)
    ensures
        body@ == transcript_body(message@, prettify_json),
{
    match message {
        Payload::Binary(bytes) => describe_binary(&bytes),
        Payload::Text(raw) => {
            if prettify_json {
                let reindented = reindent(raw.as_str());
                choose_text_body(raw, reindented)
            } else {
                raw
            }
        },
    }
}

/// Puts a record together from its three parts.
pub fn format_record(timestamp: &str, prefix: &str, body: &str) -> (record: String)
    ensures
        record@ == record_text(timestamp@, prefix@, body@),
{
    let mut record = String::from_str(timestamp);
    record.append(" ");
    record.append(prefix);
    record.append(" ");
    record.append(body);
    record
}

/// The record of a message that arrived on the connection with `identity`,
/// made at the given time.
pub fn record_at(timestamp: &str, identity: u32, message: Payload, prettify_json: bool) -> (record:
    String)
    ensures
        record@ == record_text(
            timestamp@,
            prefix_of(identity),
            transcript_body(message@, prettify_json),
        ),
{
    let prefix = prefix_for(identity);
    let body = pretty_print(message, prettify_json);
    format_record(timestamp, prefix.as_str(), body.as_str())
}

/// The record of a message that arrived on the connection with `identity`,
/// stamped with the present time. Tag and body are fixed by the arguments;
/// the time is whatever the clock says.
pub fn log_record(identity: u32, message: Payload, prettify_json: bool) -> (record: String)
    ensures
        exists|timestamp: Seq<char>|
            record@ == #[trigger] record_text(
                timestamp,
                prefix_of(identity),
                transcript_body(message@, prettify_json),
            ),
{
    let timestamp = timestamp_now();
    record_at(timestamp.as_str(), identity, message, prettify_json)
}

/// The line that notes a new connection, made at the given time. For the
/// upstream connection it names the server; for a downstream connection it
/// names the identity.
pub fn connection_note_at(timestamp: &str, identity: u32, server_label: &str) -> (note: String)
    ensures
        note@ == connection_note_text(timestamp@, identity, server_label@),
{
    let mut note = String::from_str(timestamp);
    if identity == PRIMARY_ID {
        note.append(" Proxy connected to the server at ");
        note.append(server_label);
    } else {
        note.append(" Client connected to the proxy with id ");
        append_decimal(&mut note, identity);
    }
    note.append("\n");
    note
}

/// The line that notes a new connection, stamped with the present time.
pub fn connection_note(identity: u32, server_label: &str) -> (note: String)
    ensures
        exists|timestamp: Seq<char>|
            note@ == #[trigger] connection_note_text(timestamp, identity, server_label@),
{
    let timestamp = timestamp_now();
    connection_note_at(timestamp.as_str(), identity, server_label)
}

} // verus!
