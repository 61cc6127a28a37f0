//! The chain: an ordered list of interceptors around a terminal handler.

use vstd::prelude::*;
use crate::error::{result_view, settle, settled, Answer, Error};
use crate::interceptor::{
    lemma_trace_view_add, lemma_trace_view_push, trace_view, Entry, EntryView, Exchange,
    ExchangeView, Interceptor, PreAction, PreActionView, Service, Stage,
};
use crate::message::{Request, RequestView, Response, ResponseView};

verus! {

/// An ordered list of interceptors around a terminal handler.
///
/// The order of registration is the order of the pre-phases, from the
/// outermost interceptor to the innermost; the post-phases run in the reverse
/// order. A chain is built once and only read afterwards.
#[derive(Debug)]
pub struct Chain<I, S> {
    pub interceptors: Vec<I>,
    pub terminal: S,
}

/// What the caller of a chain gets: the response, and the phases that ran.
#[derive(Debug)]
pub struct Outcome {
    pub response: Response,
    pub trace: Vec<Entry>,
}

/// What an [`Outcome`] holds, as mathematical values.
pub struct OutcomeView {
    pub response: ResponseView,
    pub trace: Seq<EntryView>,
}

impl View for Outcome {
    type V = OutcomeView;

    open spec fn view(&self) -> OutcomeView {
        OutcomeView { response: self.response@, trace: trace_view(self.trace@) }
    }
}

/// How the way in ends.
#[derive(Debug)]
pub enum End {
    /// Every pre-phase let the request on: this request is for the terminal
    /// handler.
    Arrived(Request),
    /// A pre-phase answered at once, or failed: this is its answer.
    Stopped(Result<Response, Error>),
}

/// What an [`End`] holds, as mathematical values.
pub enum EndView {
    Arrived(RequestView),
    Stopped(Answer),
}

impl View for End {
    type V = EndView;

    open spec fn view(&self) -> EndView {
        match self {
            End::Arrived(request) => EndView::Arrived(request@),
            End::Stopped(result) => EndView::Stopped(result_view(*result)),
        }
    }
}

/// The way in of a request: how many interceptors let it on, how the way
/// ended, and the record of the pre-phases that ran.
#[derive(Debug)]
pub struct Descent {
    pub depth: usize,
    pub end: End,
    pub trace: Vec<Entry>,
}

/// `exchange` with the record `before` in front of its own.
pub open spec fn prefixed(before: Seq<EntryView>, exchange: ExchangeView) -> ExchangeView {
    ExchangeView { result: exchange.result, trace: before + exchange.trace }
}

impl<I: Interceptor, S: Service> Chain<I, S> {
    /// The number of interceptors.
    pub open spec fn depth(&self) -> int {
        self.interceptors@.len() as int
    }

    /// What interceptor `i` hands outward once the phases further in have
    /// returned `inner`: the outcome of its post-phase on a response; on an
    /// error, the response it puts in the error's place, or else the error.
    pub open spec fn leave_spec(&self, i: int, inner: ExchangeView) -> ExchangeView {
        match inner.result {
            Ok(response) => {
                let post = self.interceptors@[i].post_spec(response);
                ExchangeView {
                    result: post.result,
                    trace: inner.trace.push(
                        EntryView { stage: Stage::Post(i as usize), note: post.note },
                    ),
                }
            },
            Err(error) => match self.interceptors@[i].recover_spec(error) {
                Ok(response) => ExchangeView {
                    result: Ok(response),
                    trace: inner.trace.push(
                        EntryView { stage: Stage::Recover(i as usize), note: None },
                    ),
                },
                Err(outward) => ExchangeView { result: Err(outward), trace: inner.trace },
            },
        }
    }

    /// What the interceptors from place `i` on, and the terminal handler
    /// behind them, make of `request`.
    pub open spec fn run_spec(&self, i: int, request: RequestView) -> ExchangeView
        decreases self.depth() - i,
    {
        if 0 <= i < self.depth() {
            let pre = self.interceptors@[i].pre_spec(request);
            let entered = seq![EntryView { stage: Stage::Pre(i as usize), note: pre.note }];
            match pre.action {
                PreActionView::Continue(next) => {
                    let inner = self.run_spec(i + 1, next);
                    self.leave_spec(i, prefixed(entered, inner))
                },
                PreActionView::ShortCircuit(response) => ExchangeView {
                    result: Ok(response),
                    trace: entered,
                },
                PreActionView::Fail(error) => ExchangeView { result: Err(error), trace: entered },
            }
        } else {
            self.terminal.call_spec(request)
        }
    }

    /// What the chain hands to its caller for `request`: an error that no
    /// interceptor handled has become its fault response.
    pub open spec fn handle_spec(&self, request: RequestView) -> OutcomeView {
        let exchange = self.run_spec(0, request);
        OutcomeView { response: settled(exchange.result), trace: exchange.trace }
    }

    /// The place at which the way in ends for a request that enters at place
    /// `i`: the place of the first interceptor whose pre-phase does not let
    /// the request on, or the depth of the chain where they all do.
    pub open spec fn reach(&self, i: int, request: RequestView) -> int
        decreases self.depth() - i,
    {
        if 0 <= i < self.depth() {
            match self.interceptors@[i].pre_spec(request).action {
                PreActionView::Continue(next) => self.reach(i + 1, next),
                _ => i,
            }
        } else {
            self.depth()
        }
    }

    /// The request as it arrives where the way in ends, for a request that
    /// enters at place `i`.
    pub open spec fn arrival(&self, i: int, request: RequestView) -> RequestView
        decreases self.depth() - i,
    {
        if 0 <= i < self.depth() {
            match self.interceptors@[i].pre_spec(request).action {
                PreActionView::Continue(next) => self.arrival(i + 1, next),
                _ => request,
            }
        } else {
            request
        }
    }

    /// How the way in ends for a request that enters at place `i`: at the
    /// terminal handler, with the request as the pre-phases made it, or at
    /// the first interceptor whose pre-phase answers at once or fails.
    pub open spec fn end_spec(&self, i: int, request: RequestView) -> EndView
        decreases self.depth() - i,
    {
        if 0 <= i < self.depth() {
            match self.interceptors@[i].pre_spec(request).action {
                PreActionView::Continue(next) => self.end_spec(i + 1, next),
                PreActionView::ShortCircuit(response) => EndView::Stopped(Ok(response)),
                PreActionView::Fail(error) => EndView::Stopped(Err(error)),
            }
        } else {
            EndView::Arrived(request)
        }
    }

    /// The record of the way in for a request that enters at place `i`: the
    /// pre-phases that run, in order.
    pub open spec fn way_in(&self, i: int, request: RequestView) -> Seq<EntryView>
        decreases self.depth() - i,
    {
        if 0 <= i < self.depth() {
            let pre = self.interceptors@[i].pre_spec(request);
            let entered = seq![EntryView { stage: Stage::Pre(i as usize), note: pre.note }];
            match pre.action {
                PreActionView::Continue(next) => entered + self.way_in(i + 1, next),
                _ => entered,
            }
        } else {
            Seq::empty()
        }
    }

    /// What there is at the turning point for a request that enters at place
    /// `i`: the way in, and then the terminal handler's exchange, or the
    /// answer of the pre-phase that stopped the request.
    pub open spec fn core_spec(&self, i: int, request: RequestView) -> ExchangeView {
        match self.end_spec(i, request) {
            EndView::Arrived(arrived) => {
                let handled = self.terminal.call_spec(arrived);
                ExchangeView {
                    result: handled.result,
                    trace: self.way_in(i, request) + handled.trace,
                }
            },
            EndView::Stopped(result) => ExchangeView { result, trace: self.way_in(i, request) },
        }
    }

    /// What comes out of the chain once `inner` has gone outward through the
    /// interceptors before place `k`, the innermost first.
    pub open spec fn climb(&self, k: int, inner: ExchangeView) -> ExchangeView
        decreases k,
    {
        if k <= 0 {
            inner
        } else {
            self.climb(k - 1, self.leave_spec(k - 1, inner))
        }
    }

    /// The way in ends at the terminal handler if and only if it ends at the
    /// depth of the chain, and the request is then the one that arrives
    /// there.
    pub proof fn lemma_end_of_way_in(&self, i: int, request: RequestView)
        requires
            0 <= i <= self.depth(),
        ensures
            i <= self.reach(i, request) <= self.depth(),
            self.reach(i, request) == self.depth() <==> self.end_spec(i, request) is Arrived,
            self.end_spec(i, request) is Arrived ==> self.end_spec(i, request)
                == EndView::Arrived(self.arrival(i, request)),
        decreases self.depth() - i,
    {
        if i < self.depth() {
            match self.interceptors@[i].pre_spec(request).action {
                PreActionView::Continue(next) => {
                    self.lemma_end_of_way_in(i + 1, next);
                },
                _ => {},
            }
        }
    }

    /// Running the interceptors one inside the other is the same as going
    /// all the way in and then all the way out: what the interceptors from
    /// place `i` on make of a request, handed outward through the
    /// interceptors before place `i`, is what there is at the turning point,
    /// handed outward through all the interceptors before the place where
    /// the way in ends. `before` is the record up to place `i`.
    pub proof fn lemma_way_in_then_way_out(
        &self,
        i: int,
        before: Seq<EntryView>,
        request: RequestView,
    )
        requires
            0 <= i <= self.depth(),
        ensures
            i <= self.reach(i, request) <= self.depth(),
            self.climb(i, prefixed(before, self.run_spec(i, request))) == self.climb(
                self.reach(i, request),
                prefixed(before, self.core_spec(i, request)),
            ),
        decreases self.depth() - i,
    {
        let whole = self.run_spec(i, request);
        let core = self.core_spec(i, request);
        if i == self.depth() {
            assert(prefixed(before, whole).trace =~= prefixed(before, core).trace);
        } else {
            let pre = self.interceptors@[i].pre_spec(request);
            let entered = seq![EntryView { stage: Stage::Pre(i as usize), note: pre.note }];
            match pre.action {
                PreActionView::Continue(next) => {
                    let inner = self.run_spec(i + 1, next);
                    let inner_core = self.core_spec(i + 1, next);
                    self.lemma_way_in_then_way_out(i + 1, before + entered, next);
                    let handed = prefixed(entered, inner);
                    assert(prefixed(before, handed).trace =~= prefixed(before + entered, inner).trace);
                    assert(prefixed(before, self.leave_spec(i, handed)).trace =~= self.leave_spec(
                        i,
                        prefixed(before, handed),
                    ).trace);
                    assert(prefixed(before, whole) == self.leave_spec(
                        i,
                        prefixed(before + entered, inner),
                    ));
                    assert(prefixed(before, core).trace =~= prefixed(
                        before + entered,
                        inner_core,
                    ).trace);
                },
                _ => {
                    assert(prefixed(before, whole) == prefixed(before, core));
                },
            }
        }
    }

    /// A chain without interceptors around `terminal`.
    pub fn new(terminal: S) -> (chain: Chain<I, S>)
        ensures
            chain.interceptors@ == Seq::<I>::empty(),
            chain.terminal == terminal,
    {
        Chain { interceptors: Vec::new(), terminal }
    }

    /// The chain of `interceptors`, in this order, around `terminal`.
    pub fn from_parts(interceptors: Vec<I>, terminal: S) -> (chain: Chain<I, S>)
        ensures
            chain.interceptors == interceptors,
            chain.terminal == terminal,
    {
        Chain { interceptors, terminal }
    }

    /// Registers `interceptor` behind those that are registered already.
    pub fn register(self, interceptor: I) -> (chain: Chain<I, S>)
        ensures
            chain.interceptors@ == self.interceptors@.push(interceptor),
            chain.terminal == self.terminal,
    {
        let mut chain = self;
        chain.interceptors.push(interceptor);
        chain
    }

    /// The number of interceptors.
    pub fn len(&self) -> (n: usize)
        ensures
            n == self.depth(),
    {
        self.interceptors.len()
    }

    /// The way in: runs the pre-phases in the order of registration, up to
    /// and with the first that does not let the request on.
    pub fn enter(&self, request: Request) -> (descent: Descent)
        ensures
            descent.depth == self.reach(0, request@),
            descent.end@ == self.end_spec(0, request@),
            trace_view(descent.trace@) == self.way_in(0, request@),
            descent.depth <= self.depth(),
            descent.end is Arrived <==> descent.depth == self.depth(),
    {
        proof {
            self.lemma_end_of_way_in(0, request@);
        }
        let mut trace: Vec<Entry> = Vec::new();
        let mut current = request;
        let mut i: usize = 0;
        assert(trace_view(trace@) + self.way_in(0, request@) =~= self.way_in(0, request@));
        while i < self.interceptors.len()
            invariant
                i <= self.depth(),
                self.reach(0, request@) == self.reach(i as int, current@),
                self.end_spec(0, request@) == self.end_spec(i as int, current@),
                self.way_in(0, request@) == trace_view(trace@) + self.way_in(i as int, current@),
            decreases self.depth() - i,
        {
            let ghost arriving = current@;
            let ghost before = trace@;
            let pre = self.interceptors[i].pre(current);
            let entry = Entry { stage: Stage::Pre(i), note: pre.note };
            proof {
                lemma_trace_view_push(trace@, entry);
            }
            trace.push(entry);
            match pre.action {
                PreAction::Continue(next) => {
                    assert(trace_view(trace@) + self.way_in(i + 1, next@) =~= trace_view(before)
                        + self.way_in(i as int, arriving));
                    current = next;
                    i += 1;
                },
                PreAction::ShortCircuit(response) => {
                    assert(trace_view(trace@) =~= trace_view(before) + self.way_in(
                        i as int,
                        arriving,
                    ));
                    return Descent { depth: i, end: End::Stopped(Ok(response)), trace };
                },
                PreAction::Fail(error) => {
                    assert(trace_view(trace@) =~= trace_view(before) + self.way_in(
                        i as int,
                        arriving,
                    ));
                    return Descent { depth: i, end: End::Stopped(Err(error)), trace };
                },
            }
        }
        assert(trace_view(trace@) + self.way_in(i as int, current@) =~= trace_view(trace@));
        Descent { depth: i, end: End::Arrived(current), trace }
    }

    /// The way out: hands `inner`, which came of the phases behind the first
    /// `depth` interceptors, outward through these interceptors, the
    /// innermost first. Each runs its post-phase on a response; on an error,
    /// it may put a response in the error's place.
    pub fn leave(&self, depth: usize, inner: Exchange) -> (outer: Exchange)
        requires
            depth <= self.depth(),
        ensures
            outer@ == self.climb(depth as int, inner@),
    {
        let mut k: usize = depth;
        let mut result = inner.result;
        let mut trace = inner.trace;
        while k > 0
            invariant
                k <= depth <= self.depth(),
                self.climb(
                    k as int,
                    ExchangeView { result: result_view(result), trace: trace_view(trace@) },
                ) == self.climb(depth as int, inner@),
            decreases k,
        {
            k -= 1;
            result = match result {
                Ok(response) => {
                    let post = self.interceptors[k].post(response);
                    let entry = Entry { stage: Stage::Post(k), note: post.note };
                    proof {
                        lemma_trace_view_push(trace@, entry);
                    }
                    trace.push(entry);
                    post.result
                },
                Err(error) => match self.interceptors[k].recover(error) {
                    Ok(response) => {
                        let entry = Entry { stage: Stage::Recover(k), note: None };
                        proof {
                            lemma_trace_view_push(trace@, entry);
                        }
                        trace.push(entry);
                        Ok(response)
                    },
                    Err(outward) => Err(outward),
                },
            };
        }
        Exchange { result, trace }
    }

    fn run(&self, request: Request) -> (exchange: Exchange)
        ensures
            exchange@ == self.run_spec(0, request@),
    {
        let Descent { depth, end, trace } = self.enter(request);
        let inner = match end {
            End::Arrived(arrived) => {
                let handled = self.terminal.call(arrived);
                let mut trace = trace;
                let mut rest = handled.trace;
                proof {
                    lemma_trace_view_add(trace@, rest@);
                }
                trace.append(&mut rest);
                Exchange { result: handled.result, trace }
            },
            End::Stopped(result) => Exchange { result, trace },
        };
        proof {
            self.lemma_way_in_then_way_out(0, Seq::empty(), request@);
            assert(inner@.trace =~= Seq::<EntryView>::empty() + self.core_spec(0, request@).trace);
            assert(Seq::<EntryView>::empty() + self.run_spec(0, request@).trace
                =~= self.run_spec(0, request@).trace);
        }
        self.leave(depth, inner)
    }

    /// Handles `request`: runs the pre-phases in the order of registration,
    /// then the terminal handler, then the post-phases in the reverse order,
    /// and hands back the response with the record of the phases that ran.
    ///
    /// A pre-phase that answers at once, or fails, keeps the phases further
    /// in from running. An error skips the post-phases on its way out, until
    /// an interceptor puts a response in its place; an error that none
    /// handles comes out as its fault response.
    pub fn handle(&self, request: Request) -> (outcome: Outcome)
        ensures
            outcome@ == self.handle_spec(request@),
    {
        let Exchange { result, trace } = self.run(request);
        Outcome { response: settle(result), trace }
    }
}

impl<I: Interceptor, S: Service> Service for Chain<I, S> {
    open spec fn call_spec(&self, request: RequestView) -> ExchangeView {
        self.run_spec(0, request)
    }

    fn call(&self, request: Request) -> (exchange: Exchange) {
        self.run(request)
    }
}

} // verus!
