//! Build events: the records of the build tool's structured event stream,
//! reduced to the fields the pipeline reads.

use vstd::prelude::*;

verus! {

/// One decoded record of the build tool's event stream.
#[derive(Debug)]
pub enum BuildEvent {
    /// A compiler diagnostic: the pre-rendered text, if any, and the plain
    /// message text as fallback.
    CompilerMessage { rendered: Option<String>, message: String },
    /// A compiler artifact record, with the path of the produced executable
    /// where this artifact has one.
    CompilerArtifact { executable: Option<String> },
    /// Any other event kind: recognized but ignored.
    Other,
}

/// The mathematical model of a build event.
pub enum EventModel {
    CompilerMessage { rendered: Option<Seq<char>>, message: Seq<char> },
    CompilerArtifact { executable: Option<Seq<char>> },
    Other,
}

impl View for BuildEvent {
    type V = EventModel;

    open spec fn view(&self) -> EventModel {
        match self {
            BuildEvent::CompilerMessage { rendered, message } => EventModel::CompilerMessage {
                rendered: rendered.deep_view(),
                message: message@,
            },
            BuildEvent::CompilerArtifact { executable } => EventModel::CompilerArtifact {
                executable: executable.deep_view(),
            },
            BuildEvent::Other => EventModel::Other,
        }
    }
}

impl DeepView for BuildEvent {
    type V = EventModel;

    open spec fn deep_view(&self) -> EventModel {
        self.view()
    }
}

/// The diagnostic text an event asks to have forwarded: for a compiler
/// message its rendered form, falling back to the plain message text; no
/// text for any other event kind.
pub open spec fn diag_text(e: EventModel) -> Option<Seq<char>> {
    match e {
        EventModel::CompilerMessage { rendered, message } => match rendered {
            Some(r) => Some(r),
            None => Some(message),
        },
        _ => None,
    }
}

/// Whether an event is a compiler message, i.e. carries diagnostic text.
pub open spec fn is_message(e: EventModel) -> bool {
    diag_text(e) is Some
}

/// The diagnostic text of a message event.
pub open spec fn message_text(e: EventModel) -> Seq<char>
    recommends
        is_message(e),
{
    match diag_text(e) {
        Some(t) => t,
        None => Seq::empty(),
    }
}

/// Whether an event captures an artifact: an artifact record carrying a
/// non-empty executable path. Artifact records with an empty or absent path
/// describe intermediate outputs and are ignored.
pub open spec fn is_capture(e: EventModel) -> bool {
    match e {
        EventModel::CompilerArtifact { executable: Some(p) } => p.len() > 0,
        _ => false,
    }
}

/// The executable path of a capturing event.
pub open spec fn capture_path(e: EventModel) -> Seq<char>
    recommends
        is_capture(e),
{
    match e {
        EventModel::CompilerArtifact { executable: Some(p) } => p,
        _ => Seq::empty(),
    }
}

/// Returns the diagnostic text of an event, exactly when the event is a
/// compiler message: the rendered form if present, the plain message text
/// otherwise.
pub fn diagnostic_of(e: &BuildEvent) -> (r: Option<String>)
    ensures
        r.deep_view() == diag_text(e@),
{
    match e {
        BuildEvent::CompilerMessage { rendered, message } => match rendered {
            Some(r) => Some(r.clone()),
            None => Some(message.clone()),
        },
        _ => None,
    }
}

} // verus!
