//! Decoding one line of the build tool's event stream into a build event.

use vstd::prelude::*;

use crate::events::BuildEvent;
use crate::events::EventModel;

verus! {

/// `serde_json::Error`, the decoder's error type; opaque here, rendered to
/// text before it is kept.
#[verifier::external_type_specification]
#[verifier::external_body]
pub struct ExSerdeJsonError(serde_json::Error);

/// The build event that the build tool's JSON schema gives to one stream
/// line, or `None` where the line does not decode as an event. A line's
/// decoding depends on its characters alone.
pub uninterp spec fn decoded_event(line: Seq<char>) -> Option<EventModel>;

/// Relies on `serde_json::from_str` with `cargo_metadata::Message`'s
/// `Deserialize`: decoding a line is a pure function of its text; the event's
/// kind and the fields the pipeline reads move over one to one, and every
/// recognized kind that the pipeline ignores becomes `Other`.
#[verifier::external_body]
fn decode_line(line: &str) -> (r: Result<BuildEvent, serde_json::Error>)
    ensures
        match r {
            Ok(ev) => decoded_event(line@) == Some(ev@),
            Err(_) => decoded_event(line@) is None,
        },
{
    match serde_json::from_str::<cargo_metadata::Message>(line) {
        Ok(cargo_metadata::Message::CompilerMessage(m)) => Ok(BuildEvent::CompilerMessage {
            rendered: m.message.rendered,
            message: m.message.message,
        }),
        Ok(cargo_metadata::Message::CompilerArtifact(a)) => Ok(BuildEvent::CompilerArtifact {
            executable: a.executable.map(|p| p.into_string()),
        }),
        Ok(_) => Ok(BuildEvent::Other),
        Err(e) => Err(e),
    }
}

/// Relies on `serde_json::Error`'s `Display` through `ToString::to_string`:
/// renders the decoder's error as text.
#[verifier::external_body]
fn decode_error_text(e: &serde_json::Error) -> (r: String) {
    e.to_string()
}

/// Decodes one line of the event stream. A line that decodes is the event the
/// schema gives it; a malformed line is a `Decode` error carrying the
/// decoder's message, never silently skipped.
pub fn parse_event(line: &str) -> (r: Result<BuildEvent, crate::errors::PipelineError>)
    ensures
        r matches Ok(ev) ==> decoded_event(line@) == Some(ev@),
        r is Ok <==> decoded_event(line@) is Some,
        r matches Err(e) ==> e is Decode,
{
    match decode_line(line) {
        Ok(ev) => Ok(ev),
        Err(e) => Err(crate::errors::PipelineError::Decode(decode_error_text(&e))),
    }
}

} // verus!
