//! The execution driver.
//!
//! A [`Task`] binds one handler to its request context and walks it through
//! the per-task state machine: accepted and queued, run to completion in the
//! mode the caller selected, then terminal. The worker pool that grants the
//! task a slot is a collaborator outside this core; what the core fixes is
//! the protocol the pool drives — deadline checked before any unit of work
//! on every step, chunks delivered exactly in production order, every
//! failure converted into a structured error response, the handler's
//! counters merged exactly once, and the wrong-capability defect surfaced as
//! a fault rather than an error value.

use crate::context::ReqContext;
use crate::error::{Error, Fault};
use crate::handler::{RequestHandler, StreamState};
use crate::metrics::ExecutorMetrics;
use crate::response::Response;
use vstd::prelude::*;

verus! {

/// The budget for handling one request, in seconds, used when the caller
/// names none.
pub const DEFAULT_REQUEST_MAX_HANDLE_SECS: u64 = 60;

/// Builds the structured error response for `e`: no payload, the error
/// attached.
pub fn err_resp(e: Error) -> (r: Response)
    ensures
        r.is_error(e),
{
    Response { data: Vec::new(), error: Some(e) }
}

/// Where a task stands in its lifecycle. The running phases exist only
/// inside a call of [`Task::run_unary`] or [`Task::run_streaming`], so
/// between calls a task is either still queued or already terminal.
#[derive(Debug, Clone, Copy, PartialEq, Eq, Structural)]
pub enum TaskState {
    /// Accepted and waiting for a worker slot. The deadline's start time is
    /// already captured, so queueing delay counts against the budget.
    Queued,
    /// Done, successfully or not. No further invocation is permitted, which
    /// is also what makes the single metrics merge single.
    Terminal,
}

/// `out` begins with `k` data responses carrying the stream's chunks
/// `cursor .. cursor + k`, in exactly the order the handler produced them.
pub open spec fn delivers_chunks(s0: StreamState, out: Seq<Response>, k: int) -> bool {
    forall|i: int| 0 <= i < k ==> #[trigger] out[i].is_data(s0.chunks@[s0.cursor + i]@)
}

/// Everything a finished streaming run may look like, over the handler as it
/// stood before the run (`h0`), the handler after it (`h1`) and the
/// delivered responses: some `k` chunks arrive in production order, and then
/// the run ends in exactly one of the admissible ways — the clean end of the
/// stream, the engine's tail failure as a terminal error response, or a
/// deadline expiry as a terminal error response. A stream is never cut short
/// silently: whenever fewer than all chunks arrived, the last response
/// carries the deadline error.
pub open spec fn streaming_run_ok(
    h0: RequestHandler,
    ctx0: ReqContext,
    h1: RequestHandler,
    out: Seq<Response>,
) -> bool {
    let s0 = h0.stream_state();
    let budget = ctx0.deadline.budget_ns_spec();
    let tag = ctx0.deadline.tag_spec();
    exists|k: int|
        {
            &&& 0 <= k <= s0.remaining()
            &&& #[trigger] delivers_chunks(s0, out, k)
            &&& h1.supports_streaming_spec()
            &&& h1.stream_state().chunks@ == s0.chunks@
            &&& h1.stream_state().tail_error == s0.tail_error
            &&& h1.stream_state().cursor == s0.cursor + k
            &&& h1.metrics_contribution() == h0.metrics_contribution()
            &&& if k == s0.remaining() {
                match s0.tail_error {
                    None => out.len() == k || (out.len() == k + 1 && out[k].is_outdated_error(
                        budget,
                        tag,
                    )),
                    Some(m) => out.len() == k + 1 && (out[k].is_error(Error::Engine(m))
                        || out[k].is_outdated_error(budget, tag)),
                }
            } else {
                out.len() == k + 1 && out[k].is_outdated_error(budget, tag)
            }
        }
}

/// The payloads of `out` from index `i` on, concatenated in delivery order.
pub open spec fn delivered_payload_from(out: Seq<Response>, i: int) -> Seq<u8>
    decreases out.len() - i,
{
    if 0 <= i < out.len() {
        out[i].data@ + delivered_payload_from(out, i + 1)
    } else {
        Seq::<u8>::empty()
    }
}

/// The result a stream stands for, from chunk `i` on: its chunks
/// concatenated in production order.
pub open spec fn full_result_from(chunks: Seq<Vec<u8>>, i: int) -> Seq<u8>
    decreases chunks.len() - i,
{
    if 0 <= i < chunks.len() {
        chunks[i]@ + full_result_from(chunks, i + 1)
    } else {
        Seq::<u8>::empty()
    }
}

proof fn lemma_delivered_suffix_matches(s0: StreamState, out: Seq<Response>, i: int)
    requires
        out.len() == s0.remaining(),
        delivers_chunks(s0, out, out.len() as int),
        0 <= i <= out.len(),
    ensures
        delivered_payload_from(out, i) == full_result_from(s0.chunks@, s0.cursor + i),
    decreases out.len() - i,
{
    if i < out.len() {
        assert(out[i].is_data(s0.chunks@[s0.cursor + i]@));
        lemma_delivered_suffix_matches(s0, out, i + 1);
    }
}

/// Law (streaming equals unary execution): when a streaming run ends with
/// the clean end of the stream — every remaining chunk delivered and no
/// terminal error response — the concatenation of the delivered payloads, in
/// delivery order, is exactly the full remaining result the stream stands
/// for, the same bytes a single unary response over those chunks would have
/// carried.
pub proof fn lemma_clean_streaming_run_is_full_result(s0: StreamState, out: Seq<Response>)
    requires
        out.len() == s0.remaining(),
        delivers_chunks(s0, out, out.len() as int),
    ensures
        delivered_payload_from(out, 0) == full_result_from(s0.chunks@, s0.cursor as int),
{
    lemma_delivered_suffix_matches(s0, out, 0);
}

/// One accepted request, bound to the handler variant selected for it: the
/// unit the worker pool runs.
#[derive(Debug)]
pub struct Task {
    handler: RequestHandler,
    ctx: ReqContext,
    state: TaskState,
}

impl Task {
    /// The handler the task runs.
    pub closed spec fn handler_spec(self) -> RequestHandler {
        self.handler
    }

    /// The context the task carries.
    pub closed spec fn ctx_spec(self) -> ReqContext {
        self.ctx
    }

    /// Where the task stands. The fields sit behind spec accessors so that
    /// nothing outside the driver can move a terminal task back to queued
    /// and run it — and merge its metrics — a second time.
    pub closed spec fn state_spec(self) -> TaskState {
        self.state
    }

    /// Where the task stands, for schedulers and diagnostics.
    pub fn state(&self) -> (s: TaskState)
        ensures
            s == self.state_spec(),
    {
        self.state
    }

    /// Accepts a request: the task starts queued, with the context's
    /// deadline already running.
    pub fn new(handler: RequestHandler, ctx: ReqContext) -> (t: Task)
        ensures
            t.handler_spec() == handler,
            t.ctx_spec() == ctx,
            t.state_spec() == TaskState::Queued,
    {
        Task { handler, ctx, state: TaskState::Queued }
    }

    /// Drives a unary task to its terminal state: checks the deadline before
    /// any work, invokes the handler once, converts a failure into the
    /// structured error response, and merges the handler's counters exactly
    /// once. Selecting unary mode for a variant that only streams is a
    /// defect of the dispatch table: the task is left untouched and the
    /// fatal fault is raised instead of any response.
    pub fn run_unary(&mut self, metrics: &mut ExecutorMetrics) -> (r: Result<Response, Fault>)
        requires
            old(self).state_spec() == TaskState::Queued,
        ensures
            !old(self).handler_spec().supports_unary_spec() ==> (r == Err::<Response, Fault>(
                Fault::UnaryNotSupported,
            ) && *final(self) == *old(self) && *final(metrics) == *old(metrics)),
            old(self).handler_spec().supports_unary_spec() ==> (final(self).state_spec()
                == TaskState::Terminal
                && final(self).handler_spec() == old(self).handler_spec()
                && final(self).ctx_spec() == old(self).ctx_spec()
                && *final(metrics) == old(metrics).merged(old(self).handler_spec().metrics_contribution())
                && (r matches Ok(resp) && (resp.is_outdated_error(
                    old(self).ctx_spec().deadline.budget_ns_spec(),
                    old(self).ctx_spec().deadline.tag_spec(),
                ) || match old(self).handler_spec().unary_outcome() {
                    Some(Ok(data)) => resp.is_data(data@),
                    Some(Err(msg)) => resp.is_error(Error::Engine(msg)),
                    None => false,
                }))),
    {
        if !self.handler.supports_unary() {
            return Err(Fault::UnaryNotSupported);
        }
        let resp = match self.ctx.deadline.check_if_exceeded() {
            Err(e) => {
                let ghost ge = e;
                let er = err_resp(e);
                proof {
                    match ge {
                        Error::Outdated(el, t) => {
                            assert(el >= self.ctx.deadline.budget_ns_spec() && er.is_error(
                                Error::Outdated(el, t),
                            ));
                        },
                        _ => {
                            assert(false);
                        },
                    }
                }
                er
            },
            Ok(()) => match self.handler.handle_request() {
                Ok(resp) => resp,
                Err(e) => err_resp(e),
            },
        };
        self.handler.collect_metrics_into(metrics);
        self.state = TaskState::Terminal;
        Ok(resp)
    }

    /// Drives a streaming task to its terminal state. Each step first checks
    /// the deadline, then asks the handler for its next chunk; every
    /// delivered chunk is appended to the output in production order, never
    /// reordered, batched or merged. The loop ends with the clean end of the
    /// stream, with the engine's tail failure, or with deadline expiry — in
    /// the two failure cases the caller sees the chunks already delivered
    /// followed by one terminal error response, never a silently truncated
    /// stream. The handler's counters are merged exactly once, whatever the
    /// ending. Selecting streaming mode for a unary-only variant is a defect
    /// of the dispatch table: the task is left untouched and the fatal fault
    /// is raised instead.
    ///
    /// Termination is part of the contract machinery itself: the loop always
    /// finishes within one step more than the stream has chunks remaining.
    pub fn run_streaming(&mut self, metrics: &mut ExecutorMetrics) -> (r: Result<
        Vec<Response>,
        Fault,
    >)
        requires
            old(self).state_spec() == TaskState::Queued,
            old(self).handler_spec().wf(),
        ensures
            !old(self).handler_spec().supports_streaming_spec() ==> (r == Err::<Vec<Response>, Fault>(
                Fault::StreamingNotSupported,
            ) && *final(self) == *old(self) && *final(metrics) == *old(metrics)),
            old(self).handler_spec().supports_streaming_spec() ==> (final(self).state_spec()
                == TaskState::Terminal
                && final(self).ctx_spec() == old(self).ctx_spec()
                && *final(metrics) == old(metrics).merged(old(self).handler_spec().metrics_contribution())
                && (r matches Ok(out) && streaming_run_ok(
                    old(self).handler_spec(),
                    old(self).ctx_spec(),
                    final(self).handler_spec(),
                    out@,
                ))),
    {
        if !self.handler.supports_streaming() {
            return Err(Fault::StreamingNotSupported);
        }
        let mut out: Vec<Response> = Vec::new();
        let ghost h0 = self.handler;
        let ghost c0 = self.ctx;
        let ghost m0 = *metrics;
        loop
            invariant
                h0 == old(self).handler_spec(),
                c0 == old(self).ctx_spec(),
                m0 == *old(metrics),
                *metrics == m0,
                h0.supports_streaming_spec(),
                self.handler.supports_streaming_spec(),
                self.handler.wf(),
                self.handler.stream_state().chunks@ == h0.stream_state().chunks@,
                self.handler.stream_state().tail_error == h0.stream_state().tail_error,
                h0.stream_state().cursor <= self.handler.stream_state().cursor,
                self.handler.metrics_contribution() == h0.metrics_contribution(),
                self.ctx == c0,
                out@.len() == self.handler.stream_state().cursor - h0.stream_state().cursor,
                delivers_chunks(h0.stream_state(), out@, out@.len() as int),
            decreases self.handler.stream_state().remaining(),
        {
            let ghost k = out@.len() as int;
            match self.ctx.deadline.check_if_exceeded() {
                Err(e) => {
                    let ghost ge = e;
                    let er = err_resp(e);
                    out.push(er);
                    self.handler.collect_metrics_into(metrics);
                    self.state = TaskState::Terminal;
                    proof {
                        match ge {
                            Error::Outdated(el, t) => {
                                assert(el >= c0.deadline.budget_ns_spec() && out@[k].is_error(
                                    Error::Outdated(el, t),
                                ));
                            },
                            _ => {
                                assert(false);
                            },
                        }
                        assert(delivers_chunks(h0.stream_state(), out@, k));
                    }
                    return Ok(out);
                },
                Ok(()) => {},
            }
            match self.handler.handle_streaming_request() {
                Err(e) => {
                    let er = err_resp(e);
                    out.push(er);
                    self.handler.collect_metrics_into(metrics);
                    self.state = TaskState::Terminal;
                    proof {
                        assert(delivers_chunks(h0.stream_state(), out@, k));
                    }
                    return Ok(out);
                },
                Ok((step, has_more)) => {
                    match step {
                        Some(resp) => {
                            out.push(resp);
                            proof {
                                assert(delivers_chunks(h0.stream_state(), out@, out@.len() as int));
                            }
                            if !has_more {
                                self.handler.collect_metrics_into(metrics);
                                self.state = TaskState::Terminal;
                                return Ok(out);
                            }
                        },
                        None => {
                            self.handler.collect_metrics_into(metrics);
                            self.state = TaskState::Terminal;
                            proof {
                                assert(delivers_chunks(h0.stream_state(), out@, k));
                            }
                            return Ok(out);
                        },
                    }
                },
            }
        }
    }
}

} // verus!
