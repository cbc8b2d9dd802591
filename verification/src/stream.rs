//! The build-event interpreter: folds the event stream into a selection of
//! exactly one artifact path while handing out diagnostics in stream order.

use vstd::prelude::*;

use crate::errors::PipelineError;
use crate::errors::ProcessOutcome;
use crate::events::BuildEvent;
use crate::events::EventModel;
use crate::events::capture_path;
use crate::events::diag_text;
use crate::events::diagnostic_of;
use crate::events::is_capture;
use crate::events::is_message;
use crate::events::message_text;

verus! {

/// The executable paths of the capturing artifact events of a stream, in
/// stream order.
pub open spec fn captures(s: Seq<EventModel>) -> Seq<Seq<char>>
    decreases s.len(),
{
    if s.len() == 0 {
        Seq::empty()
    } else {
        let init = captures(s.drop_last());
        if is_capture(s.last()) {
            init.push(capture_path(s.last()))
        } else {
            init
        }
    }
}

/// The diagnostic texts of the message events of a stream, in stream order.
pub open spec fn diagnostics(s: Seq<EventModel>) -> Seq<Seq<char>>
    decreases s.len(),
{
    if s.len() == 0 {
        Seq::empty()
    } else {
        let init = diagnostics(s.drop_last());
        match diag_text(s.last()) {
            Some(t) => init.push(t),
            None => init,
        }
    }
}

/// The message events of a stream, in stream order.
pub open spec fn message_events(s: Seq<EventModel>) -> Seq<EventModel> {
    s.filter(|e: EventModel| is_message(e))
}

/// The diagnostic texts of the message events alone.
pub open spec fn message_texts(s: Seq<EventModel>) -> Seq<Seq<char>> {
    message_events(s).map_values(|e: EventModel| message_text(e))
}

/// The forwarded diagnostics are exactly the texts of the message events, in
/// stream order: no other event kind contributes to or reorders them.
pub proof fn lemma_diagnostics_from_messages(s: Seq<EventModel>)
    ensures
        diagnostics(s) == message_texts(s),
    decreases s.len(),
{
    reveal(Seq::filter);
    if s.len() == 0 {
        assert(message_events(s) =~= Seq::<EventModel>::empty());
        assert(diagnostics(s) =~= message_texts(s));
    } else {
        let init = s.drop_last();
        lemma_diagnostics_from_messages(init);
        if is_message(s.last()) {
            assert(message_events(s) =~= message_events(init).push(s.last()));
            assert(message_texts(s) =~= message_texts(init).push(message_text(s.last())));
            assert(diagnostics(s) =~= message_texts(s));
        } else {
            assert(message_events(s) =~= message_events(init));
            assert(diagnostics(s) =~= message_texts(s));
        }
    }
}

/// Diagnostic forwarding is independent of artifact capture: two streams with
/// the same message events forward the same diagnostics, whatever their other
/// events and however many artifacts they capture.
pub proof fn lemma_diagnostics_independent(s1: Seq<EventModel>, s2: Seq<EventModel>)
    requires
        message_events(s1) == message_events(s2),
    ensures
        diagnostics(s1) == diagnostics(s2),
{
    lemma_diagnostics_from_messages(s1);
    lemma_diagnostics_from_messages(s2);
}

/// The model of the artifact accumulator: no path captured yet, exactly one,
/// or more than one observed.
pub enum SelectionModel {
    Empty,
    Selected(Seq<char>),
    Overflowed,
}

/// The selection that a sequence of captured paths leaves behind.
pub open spec fn selection_of(cs: Seq<Seq<char>>) -> SelectionModel {
    if cs.len() == 0 {
        SelectionModel::Empty
    } else if cs.len() == 1 {
        SelectionModel::Selected(cs[0])
    } else {
        SelectionModel::Overflowed
    }
}

/// How one event moves the selection: the first captured path is kept, a
/// second one overflows, everything else leaves it unchanged.
pub open spec fn selection_step(s: SelectionModel, e: EventModel) -> SelectionModel {
    if is_capture(e) {
        match s {
            SelectionModel::Empty => SelectionModel::Selected(capture_path(e)),
            SelectionModel::Selected(_) => SelectionModel::Overflowed,
            SelectionModel::Overflowed => SelectionModel::Overflowed,
        }
    } else {
        s
    }
}

/// Stepping the selection through the events one by one leaves exactly the
/// selection of the whole stream's captured paths.
pub proof fn lemma_selection_step_fold(s: Seq<EventModel>, e: EventModel)
    ensures
        selection_of(captures(s.push(e))) == selection_step(selection_of(captures(s)), e),
{
    assert(s.push(e).drop_last() =~= s);
    assert(s.push(e).last() == e);
}

/// What a finalized stream yields: more than one captured path is
/// `MultipleImages` whatever the outcome; a failed outcome is otherwise
/// always `SubprocessFailed`; success with no captured path is `NoImage`;
/// success with exactly one captured path returns it.
pub open spec fn finalize_model(s: SelectionModel, outcome: ProcessOutcome) -> Result<
    Seq<char>,
    PipelineError,
> {
    match s {
        SelectionModel::Overflowed => Err(PipelineError::MultipleImages),
        _ => match outcome {
            ProcessOutcome::Failure(c) => Err(PipelineError::SubprocessFailed(c)),
            ProcessOutcome::Success => match s {
                SelectionModel::Selected(p) => Ok(p),
                _ => Err(PipelineError::NoImage),
            },
        },
    }
}

/// A `run_build` result with the returned path replaced by its view.
pub open spec fn result_model(r: Result<String, PipelineError>) -> Result<Seq<char>, PipelineError> {
    match r {
        Ok(p) => Ok(p@),
        Err(e) => Err(e),
    }
}

/// The artifact accumulator. It starts empty, keeps the first non-empty
/// executable path observed, and records an overflow when a second one
/// arrives.
#[derive(Debug)]
pub enum ArtifactSelection {
    Empty,
    Selected(String),
    Overflowed,
}

impl View for ArtifactSelection {
    type V = SelectionModel;

    open spec fn view(&self) -> SelectionModel {
        match self {
            ArtifactSelection::Empty => SelectionModel::Empty,
            ArtifactSelection::Selected(p) => SelectionModel::Selected(p@),
            ArtifactSelection::Overflowed => SelectionModel::Overflowed,
        }
    }
}

impl ArtifactSelection {
    /// The empty selection, before any event has been seen.
    pub fn new() -> (r: Self)
        ensures
            r@ == SelectionModel::Empty,
    {
        ArtifactSelection::Empty
    }

    /// Whether more than one artifact path has been observed. Once this
    /// holds, finalizing can only yield `MultipleImages`, so a caller may
    /// stop consuming events early (or keep draining the stream; the error
    /// is the same either way).
    pub fn is_overflowed(&self) -> (r: bool)
        ensures
            r == (self@ is Overflowed),
    {
        match self {
            ArtifactSelection::Overflowed => true,
            _ => false,
        }
    }

    /// Consumes one event: the selection moves by `selection_step`, and the
    /// returned text — present exactly for message events — is what is to be
    /// forwarded. It depends on the event alone, never on the selection.
    pub fn step(&mut self, event: &BuildEvent) -> (diag: Option<String>)
        ensures
            final(self)@ == selection_step(old(self)@, event@),
            diag.deep_view() == diag_text(event@),
    {
        if let BuildEvent::CompilerArtifact { executable: Some(p) } = event {
            if !p.as_str().is_empty() {
                match self {
                    ArtifactSelection::Empty => {
                        *self = ArtifactSelection::Selected(p.clone());
                    },
                    ArtifactSelection::Selected(_) => {
                        *self = ArtifactSelection::Overflowed;
                    },
                    ArtifactSelection::Overflowed => {},
                }
            }
        }
        diagnostic_of(event)
    }

    /// Finalizes the selection once the stream is drained and the build
    /// process has terminated.
    pub fn finish(self, outcome: &ProcessOutcome) -> (r: Result<String, PipelineError>)
        ensures
            result_model(r) == finalize_model(self@, *outcome),
    {
        if let ArtifactSelection::Overflowed = &self {
            return Err(PipelineError::MultipleImages);
        }
        match outcome {
            ProcessOutcome::Failure(c) => Err(PipelineError::SubprocessFailed(*c)),
            ProcessOutcome::Success => match self {
                ArtifactSelection::Selected(p) => Ok(p),
                _ => Err(PipelineError::NoImage),
            },
        }
    }
}

/// Interprets a fully drained event stream together with the build process's
/// outcome. Returns what the build yields and, beside it, every diagnostic to
/// forward, in stream order.
pub fn run_build(events: &Vec<BuildEvent>, outcome: &ProcessOutcome) -> (r: (
    Result<String, PipelineError>,
    Vec<String>,
))
    ensures
        result_model(r.0) == finalize_model(selection_of(captures(events.deep_view())), *outcome),
        r.1.deep_view() == diagnostics(events.deep_view()),
        captures(events.deep_view()).len() >= 2 ==> r.0 == Result::<String, PipelineError>::Err(
            PipelineError::MultipleImages,
        ),
        forall|c: i32|
            captures(events.deep_view()).len() < 2 && *outcome == ProcessOutcome::Failure(c)
                ==> r.0 == Result::<String, PipelineError>::Err(PipelineError::SubprocessFailed(c)),
        captures(events.deep_view()).len() == 0 && *outcome is Success ==> r.0
            == Result::<String, PipelineError>::Err(PipelineError::NoImage),
        captures(events.deep_view()).len() == 1 && *outcome is Success ==> (r.0 matches Ok(p)
            && p@ == captures(events.deep_view())[0]),
{
    let ghost evs = events.deep_view();
    let mut sel = ArtifactSelection::new();
    let mut diags: Vec<String> = Vec::new();
    let n = events.len();
    proof {
        assert(evs.take(0) =~= Seq::<EventModel>::empty());
    }
    for i in 0..n
        invariant
            n == events.len(),
            evs == events.deep_view(),
            sel@ == selection_of(captures(evs.take(i as int))),
            diags.deep_view() == diagnostics(evs.take(i as int)),
    {
        let ghost pre = evs.take(i as int);
        let ghost prediags = diags.deep_view();
        let d = sel.step(&events[i]);
        proof {
            assert(evs.take(i as int + 1).drop_last() =~= pre);
            assert(evs.take(i as int + 1) =~= pre.push(evs[i as int]));
            assert(evs[i as int] == events[i as int]@);
            lemma_selection_step_fold(pre, evs[i as int]);
        }
        match d {
            Some(t) => {
                diags.push(t);
                proof {
                    assert(diags.deep_view() =~= prediags.push(t@));
                }
            },
            None => {},
        }
    }
    proof {
        assert(evs.take(n as int) =~= evs);
    }
    (sel.finish(outcome), diags)
}

} // verus!
