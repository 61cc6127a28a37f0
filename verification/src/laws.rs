//! What holds of every chain: the order of the phases and the fate of errors.

use vstd::prelude::*;
use crate::chain::Chain;
use crate::error::{fault_response, Answer, ErrorView};
use crate::interceptor::{stages, Interceptor, PreActionView, Service, Stage};
use crate::message::{RequestView, ResponseView};

verus! {

/// The pre-phases of the interceptors from place `i` up to, but without,
/// place `k`, in the order in which they run.
pub open spec fn pre_stages(i: int, k: int) -> Seq<Stage> {
    Seq::new((k - i) as nat, |j: int| Stage::Pre((i + j) as usize))
}

/// The post-phases of the interceptors from place `i` up to, but without,
/// place `k`, in the order in which they run: the innermost first.
pub open spec fn post_stages(i: int, k: int) -> Seq<Stage> {
    Seq::new((k - i) as nat, |j: int| Stage::Post((k - 1 - j) as usize))
}

/// The place of the interceptor that a stage belongs to; -1 for the terminal
/// handler.
pub open spec fn place_of(stage: Stage) -> int {
    match stage {
        Stage::Pre(place) => place as int,
        Stage::Handle => -1,
        Stage::Post(place) => place as int,
        Stage::Recover(place) => place as int,
    }
}

/// True if `tail` is a way out through the interceptors from place `lo` up
/// to, but without, place `hi`: post-phases and recoveries only, each of an
/// interceptor in that range, from the inside outward, none twice.
#[verifier::opaque]
pub open spec fn unwinds(tail: Seq<Stage>, lo: int, hi: int) -> bool {
    &&& forall|a: int|
        0 <= a < tail.len() ==> lo <= place_of(#[trigger] tail[a]) < hi && (tail[a] is Post
            || tail[a] is Recover)
    &&& forall|a: int, b: int|
        0 <= a < b < tail.len() ==> place_of(#[trigger] tail[a]) > place_of(#[trigger] tail[b])
}

/// The pre-phases from place `i` are the pre-phase of place `i`, then the
/// pre-phases from place `i + 1`.
pub proof fn lemma_pre_stages_step(i: int, k: int)
    requires
        0 <= i < k,
    ensures
        seq![Stage::Pre(i as usize)] + pre_stages(i + 1, k) == pre_stages(i, k),
{
    assert(seq![Stage::Pre(i as usize)] + pre_stages(i + 1, k) =~= pre_stages(i, k));
}

/// A way out that is one interceptor longer: where `tail` is a way out
/// through the interceptors `lo+1..hi`, `tail` followed by a post-phase or a
/// recovery of the interceptor at place `lo`, or by nothing, is a way out
/// through the interceptors `lo..hi`.
pub proof fn lemma_unwinds_outward(tail: Seq<Stage>, left: Seq<Stage>, lo: int, hi: int)
    requires
        0 <= lo < hi <= usize::MAX,
        unwinds(tail, lo + 1, hi),
        left.len() == 0 || left == seq![Stage::Post(lo as usize)] || left == seq![
            Stage::Recover(lo as usize),
        ],
    ensures
        unwinds(tail + left, lo, hi),
{
    reveal(unwinds);
    let whole = tail + left;
    assert forall|a: int| 0 <= a < whole.len() implies lo <= place_of(#[trigger] whole[a]) < hi
        && (whole[a] is Post || whole[a] is Recover) by {
        if a < tail.len() {
            assert(whole[a] == tail[a]);
        } else {
            assert(whole[a] == left[0]);
        }
    }
    assert forall|a: int, b: int| 0 <= a < b < whole.len() implies place_of(#[trigger] whole[a])
        > place_of(#[trigger] whole[b]) by {
        assert(whole[a] == tail[a]);
        if b < tail.len() {
            assert(whole[b] == tail[b]);
        } else {
            assert(whole[b] == left[0]);
        }
    }
}

impl<I: Interceptor, S: Service> Chain<I, S> {
    /// The request as the interceptor at place `i` receives it (for `i` the
    /// depth of the chain: as the terminal handler receives it), where the
    /// pre-phases before it let the request on.
    pub open spec fn request_at(&self, request: RequestView, i: int) -> RequestView
        decreases i,
    {
        if i <= 0 {
            request
        } else {
            match self.interceptors@[i - 1].pre_spec(self.request_at(request, i - 1)).action {
                PreActionView::Continue(next) => next,
                _ => self.request_at(request, i - 1),
            }
        }
    }

    /// True if the pre-phases of the interceptors from place `i` up to, but
    /// without, place `k` let the request on: none answers at once, none
    /// fails.
    pub open spec fn passes(&self, request: RequestView, i: int, k: int) -> bool {
        forall|j: int|
            i <= j < k ==> self.interceptors@[j].pre_spec(
                #[trigger] self.request_at(request, j),
            ).action is Continue
    }

    /// What the post-phases of the interceptors from place `i` up to, but
    /// without, place `k` make of `response`, the innermost first: the
    /// response that leaves place `i`, or the error of the first post-phase
    /// that fails.
    pub open spec fn rewind(&self, i: int, k: int, response: ResponseView) -> Answer
        decreases k - i,
    {
        if i >= k {
            Ok(response)
        } else {
            match self.rewind(i + 1, k, response) {
                Ok(inner) => self.interceptors@[i].post_spec(inner).result,
                Err(error) => Err(error),
            }
        }
    }

    /// True if the interceptors from place `i` up to, but without, place `k`
    /// hand the error `error` outward as it is.
    pub open spec fn declines(&self, error: ErrorView, i: int, k: int) -> bool {
        forall|j: int|
            i <= j < k ==> #[trigger] self.interceptors@[j].recover_spec(error) == Answer::Err(
                error,
            )
    }

    /// What the interceptor at place `i` adds to the way out, once the phases
    /// further in have returned `inner`: its post-phase on a response, a
    /// recovery on an error that it handles, nothing on any other error.
    pub open spec fn left_stage(&self, i: int, inner: Answer) -> Seq<Stage> {
        match inner {
            Ok(_) => seq![Stage::Post(i as usize)],
            Err(error) => match self.interceptors@[i].recover_spec(error) {
                Ok(_) => seq![Stage::Recover(i as usize)],
                Err(_) => Seq::empty(),
            },
        }
    }

    /// Where the pre-phases from place `i` to place `k` let the request on,
    /// the way in from place `i` ends where the way in from place `k` ends,
    /// and the request arrives there as the same.
    pub proof fn lemma_way_in_goes_on(&self, request: RequestView, i: int, k: int)
        requires
            0 <= i <= k <= self.depth(),
            self.passes(request, i, k),
        ensures
            self.reach(i, self.request_at(request, i)) == self.reach(
                k,
                self.request_at(request, k),
            ),
            self.arrival(i, self.request_at(request, i)) == self.arrival(
                k,
                self.request_at(request, k),
            ),
        decreases k - i,
    {
        if i < k {
            let here = self.request_at(request, i);
            assert(self.interceptors@[i].pre_spec(here).action is Continue);
            self.lemma_way_in_goes_on(request, i + 1, k);
        }
    }

    /// Where the pre-phases from place `i` to place `k` let the request on,
    /// what happens at place `k` and further in yields a response, and no
    /// post-phase on the way out fails: the phases that run from place `i` on
    /// are the pre-phases `i..k` in order, then what runs from place `k` on,
    /// then the post-phases `k-1..i` in reverse order, and the response is
    /// the inner one as these post-phases hand it on.
    pub proof fn lemma_wrapped(
        &self,
        request: RequestView,
        i: int,
        k: int,
        response: ResponseView,
    )
        requires
            0 <= i <= k <= self.depth(),
            self.passes(request, i, k),
            self.run_spec(k, self.request_at(request, k)).result == Answer::Ok(response),
            self.rewind(i, k, response) is Ok,
        ensures
            self.run_spec(i, self.request_at(request, i)).result == self.rewind(i, k, response),
            stages(self.run_spec(i, self.request_at(request, i)).trace) == pre_stages(i, k)
                + stages(self.run_spec(k, self.request_at(request, k)).trace) + post_stages(i, k),
        decreases k - i,
    {
        let core = stages(self.run_spec(k, self.request_at(request, k)).trace);
        if i == k {
            assert(pre_stages(i, k) + core + post_stages(i, k) =~= core);
        } else {
            let here = self.request_at(request, i);
            assert(self.interceptors@[i].pre_spec(here).action is Continue);
            let next = self.request_at(request, i + 1);
            assert(self.interceptors@[i].pre_spec(here).action == PreActionView::Continue(next));
            self.lemma_wrapped(request, i + 1, k, response);
            let inner = self.run_spec(i + 1, next);
            let outer = self.run_spec(i, here);
            assert(stages(outer.trace) =~= seq![Stage::Pre(i as usize)] + stages(inner.trace)
                + seq![Stage::Post(i as usize)]);
            assert(seq![Stage::Pre(i as usize)] + (pre_stages(i + 1, k) + core + post_stages(
                i + 1,
                k,
            )) + seq![Stage::Post(i as usize)] =~= pre_stages(i, k) + core + post_stages(i, k));
        }
    }

    /// Where the pre-phases from place `i` to place `k` let the request on,
    /// what happens at place `k` and further in yields an error, and the
    /// interceptors `i..k` hand that error outward as it is: the error comes
    /// out at place `i`.
    pub proof fn lemma_error_passes_outward(
        &self,
        request: RequestView,
        i: int,
        k: int,
        error: ErrorView,
    )
        requires
            0 <= i <= k <= self.depth(),
            self.passes(request, i, k),
            self.run_spec(k, self.request_at(request, k)).result == Answer::Err(error),
            self.declines(error, i, k),
        ensures
            self.run_spec(i, self.request_at(request, i)).result == Answer::Err(error),
        decreases k - i,
    {
        if i < k {
            let here = self.request_at(request, i);
            assert(self.interceptors@[i].pre_spec(here).action is Continue);
            self.lemma_error_passes_outward(request, i + 1, k, error);
            assert(self.interceptors@[i].recover_spec(error) == Answer::Err(error));
        }
    }

    /// Where the pre-phase at place `i` lets the request on as `next`: the
    /// phases that run from place `i` on are that pre-phase, then the phases
    /// that run from place `i + 1` on, then what the interceptor at place `i`
    /// adds to the way out.
    pub proof fn lemma_level_stages(&self, i: int, request: RequestView, next: RequestView)
        requires
            0 <= i < self.depth(),
            self.interceptors@[i].pre_spec(request).action == PreActionView::Continue(next),
        ensures
            stages(self.run_spec(i, request).trace) == seq![Stage::Pre(i as usize)] + stages(
                self.run_spec(i + 1, next).trace,
            ) + self.left_stage(i, self.run_spec(i + 1, next).result),
    {
        let inner = self.run_spec(i + 1, next);
        assert(stages(self.run_spec(i, request).trace) =~= seq![Stage::Pre(i as usize)] + stages(
            inner.trace,
        ) + self.left_stage(i, inner.result));
    }

    /// A request that no pre-phase answers at once, and on which no phase
    /// fails, passes through the pre-phases of all interceptors in the order
    /// of registration, then through the terminal handler, then through the
    /// post-phases of all interceptors in the reverse order. The caller gets
    /// the terminal handler's response as the post-phases hand it on.
    pub proof fn law_full_pass(&self, request: RequestView, response: ResponseView)
        requires
            self.passes(request, 0, self.depth()),
            self.terminal.call_spec(self.request_at(request, self.depth())).result == Answer::Ok(
                response,
            ),
            self.rewind(0, self.depth(), response) is Ok,
        ensures
            stages(self.handle_spec(request).trace) == pre_stages(0, self.depth()) + stages(
                self.terminal.call_spec(self.request_at(request, self.depth())).trace,
            ) + post_stages(0, self.depth()),
            Answer::Ok(self.handle_spec(request).response) == self.rewind(
                0,
                self.depth(),
                response,
            ),
            self.reach(0, request) == self.depth(),
    {
        self.lemma_wrapped(request, 0, self.depth(), response);
        self.lemma_way_in_goes_on(request, 0, self.depth());
    }

    /// Where the pre-phase of the interceptor at place `k` answers at once
    /// with `response`, and no post-phase fails: the pre-phases of the
    /// interceptors `0..=k` run in order, then the post-phases of the
    /// interceptors before place `k` in reverse order, and nothing else.
    /// Neither a pre-phase behind place `k`, nor the terminal handler, nor
    /// the post-phase of place `k` runs. The caller gets `response` as the
    /// post-phases hand it on.
    pub proof fn law_short_circuit(&self, request: RequestView, k: int, response: ResponseView)
        requires
            0 <= k < self.depth(),
            self.passes(request, 0, k),
            self.interceptors@[k].pre_spec(self.request_at(request, k)).action
                == PreActionView::ShortCircuit(response),
            self.rewind(0, k, response) is Ok,
        ensures
            stages(self.handle_spec(request).trace) == pre_stages(0, k + 1) + post_stages(0, k),
            Answer::Ok(self.handle_spec(request).response) == self.rewind(0, k, response),
            !stages(self.handle_spec(request).trace).contains(Stage::Handle),
            forall|j: usize|
                k < j ==> !(#[trigger] stages(self.handle_spec(request).trace).contains(
                    Stage::Pre(j),
                )),
            forall|j: usize|
                j < k ==> #[trigger] stages(self.handle_spec(request).trace).contains(
                    Stage::Post(j),
                ),
            !stages(self.handle_spec(request).trace).contains(Stage::Post(k as usize)),
            self.reach(0, request) == k,
    {
        self.lemma_wrapped(request, 0, k, response);
        self.lemma_way_in_goes_on(request, 0, k);
        let trace = stages(self.handle_spec(request).trace);
        assert(trace =~= pre_stages(0, k + 1) + post_stages(0, k)) by {
            assert(stages(self.run_spec(k, self.request_at(request, k)).trace) =~= seq![
                Stage::Pre(k as usize),
            ]);
            assert(pre_stages(0, k) + seq![Stage::Pre(k as usize)] =~= pre_stages(0, k + 1));
        }
        assert forall|j: usize| j < k implies #[trigger] trace.contains(Stage::Post(j)) by {
            assert(trace[k + 1 + (k - 1 - j)] == Stage::Post(j));
        }
        assert(self.interceptors.len() == self.depth());
        assert forall|n: int| 0 <= n < trace.len() implies trace[n] != Stage::Post(k as usize) by {
            if n > k {
                assert(trace[n] == Stage::Post((k - 1 - (n - k - 1)) as usize));
            }
        }
    }

    /// An error that arises at place `k` or further in, and that no
    /// interceptor before place `k` handles, comes out as its fault response:
    /// the caller gets the status code of the error's kind.
    pub proof fn law_unhandled_error(&self, request: RequestView, k: int, error: ErrorView)
        requires
            0 <= k <= self.depth(),
            self.passes(request, 0, k),
            self.run_spec(k, self.request_at(request, k)).result == Answer::Err(error),
            self.declines(error, 0, k),
        ensures
            self.handle_spec(request).response == fault_response(error),
            self.handle_spec(request).response.status == error.kind.code(),
            400 <= self.handle_spec(request).response.status < 600,
    {
        self.lemma_error_passes_outward(request, 0, k, error);
    }

    /// An error that arises at place `k` or further in, and that the
    /// interceptor at place `h` is the first on the way out to handle: the
    /// chain returns the response that this interceptor puts in the error's
    /// place, as the post-phases of the interceptors before place `h` hand it
    /// on. Where `h` is 0, the caller gets that response itself.
    pub proof fn law_handled_error(
        &self,
        request: RequestView,
        h: int,
        k: int,
        error: ErrorView,
        substitute: ResponseView,
    )
        requires
            0 <= h < k <= self.depth(),
            self.passes(request, 0, k),
            self.run_spec(k, self.request_at(request, k)).result == Answer::Err(error),
            self.declines(error, h + 1, k),
            self.interceptors@[h].recover_spec(error) == Answer::Ok(substitute),
            self.rewind(0, h, substitute) is Ok,
        ensures
            Answer::Ok(self.handle_spec(request).response) == self.rewind(0, h, substitute),
            h == 0 ==> self.handle_spec(request).response == substitute,
            stages(self.handle_spec(request).trace).contains(Stage::Recover(h as usize)),
    {
        self.lemma_error_passes_outward(request, h + 1, k, error);
        let here = self.request_at(request, h);
        assert(self.interceptors@[h].pre_spec(here).action is Continue);
        let level = self.run_spec(h, here);
        assert(level.result == Answer::Ok(substitute));
        self.lemma_wrapped(request, 0, h, substitute);
        let inner = stages(level.trace);
        assert(inner[inner.len() - 1] == Stage::Recover(h as usize));
        let whole = stages(self.handle_spec(request).trace);
        assert(whole[h + inner.len() - 1] == Stage::Recover(h as usize));
    }

    /// Whatever the interceptors and the handler do, the phases run in the
    /// order of the pipeline. On the way in, the pre-phases run in the order
    /// of registration, each once, up to and with the first that does not
    /// let the request on; the terminal handler runs if and only if they all
    /// let it on. On the way out, only interceptors whose pre-phase let the
    /// request on take part, each at most once, with its post-phase or with
    /// a recovery, from the inside outward. The way out is the result of this
    /// proof.
    #[verifier::rlimit(40)]
    pub proof fn law_pipeline_order(&self, i: int, request: RequestView) -> (tail: Seq<Stage>)
        requires
            0 <= i <= self.depth(),
        ensures
            i <= self.reach(i, request) <= self.depth(),
            unwinds(tail, i, self.reach(i, request)),
            self.reach(i, request) < self.depth() ==> stages(self.run_spec(i, request).trace)
                == pre_stages(i, self.reach(i, request) + 1) + tail,
            self.reach(i, request) == self.depth() ==> stages(self.run_spec(i, request).trace)
                == pre_stages(i, self.depth()) + stages(
                self.terminal.call_spec(self.arrival(i, request)).trace,
            ) + tail,
        decreases self.depth() - i,
    {
        assert(self.interceptors.len() == self.depth());
        let trace = stages(self.run_spec(i, request).trace);
        let nothing = Seq::<Stage>::empty();
        assert(unwinds(nothing, i, self.reach(i, request))) by {
            reveal(unwinds);
        }
        if i == self.depth() {
            assert(trace =~= pre_stages(i, self.depth()) + trace + nothing);
            nothing
        } else {
            match self.interceptors@[i].pre_spec(request).action {
                PreActionView::Continue(next) => {
                    let inner_tail = self.law_pipeline_order(i + 1, next);
                    let inner = self.run_spec(i + 1, next);
                    let reach = self.reach(i, request);
                    let left = self.left_stage(i, inner.result);
                    let first = seq![Stage::Pre(i as usize)];
                    let tail = inner_tail + left;
                    self.lemma_level_stages(i, request, next);
                    if i + 1 < reach {
                        lemma_unwinds_outward(inner_tail, left, i, reach);
                    } else {
                        assert(inner_tail.len() == 0) by {
                            reveal(unwinds);
                            if inner_tail.len() > 0 {
                                assert(i + 1 <= place_of(inner_tail[0]) < reach);
                            }
                        }
                        assert(unwinds(inner_tail, i + 1, i + 1)) by {
                            reveal(unwinds);
                        }
                        lemma_unwinds_outward(inner_tail, left, i, i + 1);
                    }
                    if reach < self.depth() {
                        let ahead = pre_stages(i + 1, reach + 1);
                        lemma_pre_stages_step(i, reach + 1);
                        assert(first + (ahead + inner_tail) + left =~= (first + ahead) + tail);
                    } else {
                        let ahead = pre_stages(i + 1, self.depth());
                        let core = stages(
                            self.terminal.call_spec(self.arrival(i, request)).trace,
                        );
                        lemma_pre_stages_step(i, self.depth());
                        assert(first + (ahead + core + inner_tail) + left =~= (first + ahead)
                            + core + tail);
                    }
                    tail
                },
                _ => {
                    assert(trace =~= pre_stages(i, i + 1) + nothing);
                    nothing
                },
            }
        }
    }

    /// Around a handler that is one phase of its own, no phase runs twice:
    /// each interceptor sees a request at most once, and at most once what
    /// comes back.
    #[verifier::rlimit(40)]
    pub proof fn law_no_phase_twice(&self, request: RequestView)
        requires
            stages(self.terminal.call_spec(self.arrival(0, request)).trace) == seq![
                Stage::Handle,
            ],
        ensures
            stages(self.handle_spec(request).trace).no_duplicates(),
    {
        assert(self.interceptors.len() == self.depth());
        let tail = self.law_pipeline_order(0, request);
        reveal(unwinds);
        let trace = stages(self.handle_spec(request).trace);
        let reach = self.reach(0, request);
        let head = if reach < self.depth() {
            pre_stages(0, reach + 1)
        } else {
            pre_stages(0, self.depth()) + seq![Stage::Handle]
        };
        assert(trace == head + tail);
        assert forall|a: int| 0 <= a < head.len() implies #[trigger] head[a] == (if a
            < self.depth() {
            Stage::Pre(a as usize)
        } else {
            Stage::Handle
        }) by {
            if reach == self.depth() && a < self.depth() {
                assert(head[a] == pre_stages(0, self.depth())[a]);
            }
        }
        assert forall|a: int, b: int| 0 <= a < b < trace.len() implies trace[a] != trace[b] by {
            if b < head.len() {
                assert(trace[a] == head[a] && trace[b] == head[b]);
            } else if a < head.len() {
                assert(trace[a] == head[a] && trace[b] == tail[b - head.len()]);
            } else {
                assert(trace[a] == tail[a - head.len()] && trace[b] == tail[b - head.len()]);
                assert(place_of(tail[a - head.len()]) > place_of(tail[b - head.len()]));
            }
        }
    }

    /// Handling is repeatable: a chain gives the same request the same
    /// response, and the same phases run, however often it is asked.
    pub proof fn law_repeatable(&self, first: RequestView, second: RequestView)
        requires
            first == second,
        ensures
            self.handle_spec(first) == self.handle_spec(second),
    {
    }
}

} // verus!
