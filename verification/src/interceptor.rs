//! The two-phase capability of an interceptor, the capability of a handler,
//! and the record of the phases that ran.

use vstd::prelude::*;
use crate::error::{result_view, Answer, Error, ErrorView};
use crate::message::{Request, RequestView, Response, ResponseView};

verus! {

/// A phase of the pipeline. The number is the interceptor's place in its
/// chain, counted from 0 in the order of registration.
#[derive(Clone, Copy, Debug, PartialEq, Eq, Structural)]
pub enum Stage {
    /// The pre-phase of an interceptor.
    Pre(usize),
    /// The terminal handler.
    Handle,
    /// The post-phase of an interceptor.
    Post(usize),
    /// An interceptor turned an error into a response.
    Recover(usize),
}

/// A phase that ran, with what it had to say.
#[derive(Debug)]
pub struct Entry {
    pub stage: Stage,
    pub note: Option<String>,
}

/// What an [`Entry`] holds, as mathematical values.
pub struct EntryView {
    pub stage: Stage,
    pub note: Option<Seq<char>>,
}

/// The view of an optional note.
pub open spec fn note_view(note: Option<String>) -> Option<Seq<char>> {
    match note {
        Some(text) => Some(text@),
        None => None,
    }
}

impl View for Entry {
    type V = EntryView;

    open spec fn view(&self) -> EntryView {
        EntryView { stage: self.stage, note: note_view(self.note) }
    }
}

/// The views of the entries of a trace.
pub open spec fn trace_view(trace: Seq<Entry>) -> Seq<EntryView> {
    Seq::new(trace.len(), |i: int| trace[i]@)
}

/// The stages of a trace, without the notes.
pub open spec fn stages(trace: Seq<EntryView>) -> Seq<Stage> {
    Seq::new(trace.len(), |i: int| trace[i].stage)
}

/// What a pre-phase decides.
#[derive(Debug)]
pub enum PreAction {
    /// Go on with this request, which may differ from the one that came in.
    Continue(Request),
    /// Answer at once with this response: the phases further in do not run.
    ShortCircuit(Response),
    /// Fail with this error.
    Fail(Error),
}

/// What a [`PreAction`] holds, as mathematical values.
pub enum PreActionView {
    Continue(RequestView),
    ShortCircuit(ResponseView),
    Fail(ErrorView),
}

impl View for PreAction {
    type V = PreActionView;

    open spec fn view(&self) -> PreActionView {
        match self {
            PreAction::Continue(request) => PreActionView::Continue(request@),
            PreAction::ShortCircuit(response) => PreActionView::ShortCircuit(response@),
            PreAction::Fail(error) => PreActionView::Fail(error@),
        }
    }
}

/// The result of a pre-phase.
#[derive(Debug)]
pub struct PreOutcome {
    pub action: PreAction,
    pub note: Option<String>,
}

/// What a [`PreOutcome`] holds, as mathematical values.
pub struct PreOutcomeView {
    pub action: PreActionView,
    pub note: Option<Seq<char>>,
}

impl View for PreOutcome {
    type V = PreOutcomeView;

    open spec fn view(&self) -> PreOutcomeView {
        PreOutcomeView { action: self.action@, note: note_view(self.note) }
    }
}

/// The result of a post-phase: the response to hand outward, or an error.
#[derive(Debug)]
pub struct PostOutcome {
    pub result: Result<Response, Error>,
    pub note: Option<String>,
}

/// What a [`PostOutcome`] holds, as mathematical values.
pub struct PostOutcomeView {
    pub result: Answer,
    pub note: Option<Seq<char>>,
}

impl View for PostOutcome {
    type V = PostOutcomeView;

    open spec fn view(&self) -> PostOutcomeView {
        PostOutcomeView { result: result_view(self.result), note: note_view(self.note) }
    }
}

/// A unit of cross-cutting processing around a handler.
///
/// An interceptor holds no state but the configuration it was made with: what
/// a phase returns is a function of the interceptor and of the phase's input.
pub trait Interceptor {
    /// What the pre-phase makes of `request`.
    spec fn pre_spec(&self, request: RequestView) -> PreOutcomeView;

    /// The pre-phase: runs before the phases further in.
    fn pre(&self, request: Request) -> (outcome: PreOutcome)
        ensures
            outcome@ == self.pre_spec(request@),
    ;

    /// What the post-phase makes of `response`.
    spec fn post_spec(&self, response: ResponseView) -> PostOutcomeView;

    /// The post-phase: runs on the response that comes back from further in.
    fn post(&self, response: Response) -> (outcome: PostOutcome)
        ensures
            outcome@ == self.post_spec(response@),
    ;

    /// What the interceptor makes of an error that comes back from further
    /// in: `Ok` with the response that takes the error's place, or `Err` with
    /// the error to hand outward.
    spec fn recover_spec(&self, error: ErrorView) -> Answer;

    /// Runs in place of the post-phase when an error comes back from further
    /// in. An interceptor that handles no errors returns the error as it is.
    fn recover(&self, error: Error) -> (result: Result<Response, Error>)
        ensures
            result_view(result) == self.recover_spec(error@),
    ;
}

/// What came of a request: the handler's result and the phases that ran.
#[derive(Debug)]
pub struct Exchange {
    pub result: Result<Response, Error>,
    pub trace: Vec<Entry>,
}

/// What an [`Exchange`] holds, as mathematical values.
pub struct ExchangeView {
    pub result: Answer,
    pub trace: Seq<EntryView>,
}

impl View for Exchange {
    type V = ExchangeView;

    open spec fn view(&self) -> ExchangeView {
        ExchangeView { result: result_view(self.result), trace: trace_view(self.trace@) }
    }
}

/// The exchange of a terminal handler that returned `result`.
pub open spec fn handled(result: Answer) -> ExchangeView {
    ExchangeView { result, trace: seq![EntryView { stage: Stage::Handle, note: None }] }
}

impl Exchange {
    /// The exchange of a terminal handler that returned `result`.
    pub fn handled(result: Result<Response, Error>) -> (exchange: Exchange)
        ensures
            exchange@ == handled(result_view(result)),
    {
        let mut trace: Vec<Entry> = Vec::new();
        trace.push(Entry { stage: Stage::Handle, note: None });
        assert(trace_view(trace@) =~= seq![EntryView { stage: Stage::Handle, note: None }]);
        Exchange { result, trace }
    }
}

/// Something that answers requests: a terminal handler, or a handler with
/// interceptors around it.
pub trait Service {
    /// What the service makes of `request`.
    spec fn call_spec(&self, request: RequestView) -> ExchangeView;

    /// Answers `request`.
    fn call(&self, request: Request) -> (exchange: Exchange)
        ensures
            exchange@ == self.call_spec(request@),
    ;
}

/// The trace of two traces, one after the other, is the two views, one after
/// the other.
pub proof fn lemma_trace_view_add(a: Seq<Entry>, b: Seq<Entry>)
    ensures
        trace_view(a + b) == trace_view(a) + trace_view(b),
{
    assert(trace_view(a + b) =~= trace_view(a) + trace_view(b));
}

/// The trace with one more entry is the view with one more entry.
pub proof fn lemma_trace_view_push(a: Seq<Entry>, entry: Entry)
    ensures
        trace_view(a.push(entry)) == trace_view(a).push(entry@),
{
    assert(trace_view(a.push(entry)) =~= trace_view(a).push(entry@));
}

} // verus!
