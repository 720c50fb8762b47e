//! The request-handler abstraction.
//!
//! Every query kind executes behind one closed set of handler variants,
//! selected from the numeric request-type code carried by the inbound
//! message. A variant's capability — answering a single unary invocation,
//! or producing a stream of chunks step by step — is a static property fixed
//! at construction, never discovered at call time. Each variant owns the
//! output of its (collaborating, external) engine; the driver never inspects
//! that state, it only steps the handler through the capability surface.

use crate::context::clone_bytes;
use crate::error::Error;
use crate::metrics::ExecutorMetrics;
use crate::response::Response;
use vstd::pervasive::unreached;
use vstd::prelude::*;

verus! {

/// What one streaming step yields: the next partial response, if any, with
/// the has-more flag — or the step's failure.
pub type HandlerStreamStepResult = Result<(Option<Response>, bool), Error>;

/// Request-type code of a DAG (scan/filter/aggregate) execution request.
pub const REQ_TYPE_DAG: i64 = 103;

/// Request-type code of a statistics (analyze) request.
pub const REQ_TYPE_ANALYZE: i64 = 104;

/// Request-type code of a checksum request.
pub const REQ_TYPE_CHECKSUM: i64 = 105;

/// The progress of one streaming execution: the chunks the engine produces,
/// in order; a cursor marking how many have already been handed out; and,
/// optionally, an engine failure that surfaces once the chunks are spent.
#[derive(Debug)]
pub struct StreamState {
    /// The chunks, in exactly the order they must reach the caller.
    pub chunks: Vec<Vec<u8>>,
    /// How many chunks have been handed out so far.
    pub cursor: usize,
    /// An engine failure reported after the last chunk, in place of the
    /// clean end of the stream.
    pub tail_error: Option<String>,
}

impl StreamState {
    /// The cursor never runs past the chunks.
    pub open spec fn wf(self) -> bool {
        self.cursor <= self.chunks@.len()
    }

    /// How many chunks are still to be handed out.
    pub open spec fn remaining(self) -> int {
        self.chunks@.len() - self.cursor
    }
}

/// What the DAG plan interpreter was asked to produce: one complete result,
/// or a stream of chunks. Plan shape and client flags fix this at
/// construction time.
#[derive(Debug)]
pub enum DagOutput {
    /// The complete result of the plan, or the interpreter's failure.
    Unary(Result<Vec<u8>, String>),
    /// The stream of partial results.
    Streaming(StreamState),
}

/// Drives a compiled DAG plan. The plan interpreter is a collaborator
/// outside this core, so the handler owns what the interpreter produces.
#[derive(Debug)]
pub struct DagHandler {
    pub output: DagOutput,
    /// Execution statistics the interpreter tracked.
    pub metrics: ExecutorMetrics,
}

/// Computes column/index statistics over a range. Always unary.
#[derive(Debug)]
pub struct AnalyzeHandler {
    pub output: Result<Vec<u8>, String>,
}

/// Computes an aggregate checksum over a range. Always unary.
#[derive(Debug)]
pub struct ChecksumHandler {
    pub output: Result<Vec<u8>, String>,
}

/// The closed set of handler variants. Dispatch is a pattern match: the
/// variant set is fixed and known at compile time.
#[derive(Debug)]
pub enum RequestHandler {
    Dag(DagHandler),
    Analyze(AnalyzeHandler),
    Checksum(ChecksumHandler),
}

impl RequestHandler {
    /// The request-type code this variant was selected from.
    pub open spec fn req_type_spec(self) -> i64 {
        match self {
            RequestHandler::Dag(_) => REQ_TYPE_DAG,
            RequestHandler::Analyze(_) => REQ_TYPE_ANALYZE,
            RequestHandler::Checksum(_) => REQ_TYPE_CHECKSUM,
        }
    }

    /// The one-shot outcome this handler's engine produced, when the variant
    /// can answer a unary invocation at all.
    pub open spec fn unary_outcome(self) -> Option<Result<Vec<u8>, String>> {
        match self {
            RequestHandler::Dag(d) => match d.output {
                DagOutput::Unary(r) => Some(r),
                DagOutput::Streaming(_) => None,
            },
            RequestHandler::Analyze(a) => Some(a.output),
            RequestHandler::Checksum(c) => Some(c.output),
        }
    }

    /// Whether this variant answers unary invocations.
    pub open spec fn supports_unary_spec(self) -> bool {
        self.unary_outcome() is Some
    }

    /// Whether this variant produces a stream.
    pub open spec fn supports_streaming_spec(self) -> bool {
        match self {
            RequestHandler::Dag(d) => d.output is Streaming,
            _ => false,
        }
    }

    /// The stream behind a streaming-capable variant. Meaningful only when
    /// [`Self::supports_streaming_spec`] holds.
    pub open spec fn stream_state(self) -> StreamState {
        match self {
            RequestHandler::Dag(d) => match d.output {
                DagOutput::Streaming(s) => s,
                DagOutput::Unary(_) => arbitrary(),
            },
            _ => arbitrary(),
        }
    }

    /// A streaming-capable handler keeps its stream well formed.
    pub open spec fn wf(self) -> bool {
        self.supports_streaming_spec() ==> self.stream_state().wf()
    }

    /// The counters this handler will merge on collection. Variants that
    /// track no statistics contribute nothing.
    pub open spec fn metrics_contribution(self) -> ExecutorMetrics {
        match self {
            RequestHandler::Dag(d) => d.metrics,
            _ => ExecutorMetrics::zero(),
        }
    }

    /// The request-type code, for response routing and diagnostics.
    pub fn req_type(&self) -> (t: i64)
        ensures
            t == self.req_type_spec(),
    {
        match self {
            RequestHandler::Dag(_) => REQ_TYPE_DAG,
            RequestHandler::Analyze(_) => REQ_TYPE_ANALYZE,
            RequestHandler::Checksum(_) => REQ_TYPE_CHECKSUM,
        }
    }

    /// Whether this variant answers unary invocations; fixed at
    /// construction.
    pub fn supports_unary(&self) -> (b: bool)
        ensures
            b == self.supports_unary_spec(),
    {
        match self {
            RequestHandler::Dag(d) => match &d.output {
                DagOutput::Unary(_) => true,
                DagOutput::Streaming(_) => false,
            },
            RequestHandler::Analyze(_) => true,
            RequestHandler::Checksum(_) => true,
        }
    }

    /// Whether this variant produces a stream; fixed at construction.
    pub fn supports_streaming(&self) -> (b: bool)
        ensures
            b == self.supports_streaming_spec(),
    {
        match self {
            RequestHandler::Dag(d) => match &d.output {
                DagOutput::Streaming(_) => true,
                DagOutput::Unary(_) => false,
            },
            _ => false,
        }
    }

    /// Produces the one final response of a unary invocation, or the
    /// engine's failure as an error value. Invoking a streaming-only variant
    /// this way is a dispatch defect: the driver guards that path and raises
    /// the fatal fault instead, so this function rules the case out.
    pub fn handle_request(&mut self) -> (r: Result<Response, Error>)
        requires
            old(self).supports_unary_spec(),
        ensures
            *final(self) == *old(self),
            match old(self).unary_outcome() {
                Some(Ok(data)) => r matches Ok(resp) && resp.is_data(data@),
                Some(Err(msg)) => r == Err::<Response, Error>(Error::Engine(msg)),
                None => false,
            },
    {
        match self {
            RequestHandler::Dag(d) => match &d.output {
                DagOutput::Unary(out) => unary_response(out),
                DagOutput::Streaming(_) => unreached(),
            },
            RequestHandler::Analyze(a) => unary_response(&a.output),
            RequestHandler::Checksum(c) => unary_response(&c.output),
        }
    }

    /// One streaming step: hands out the next chunk together with the
    /// has-more flag, reports the engine's failure once the chunks are
    /// spent, or reports the clean end of the stream. Only the cursor
    /// advances; chunks, tail failure and counters stay as they were.
    /// Invoking a unary-only variant this way is the same dispatch defect as
    /// above and is ruled out here, guarded by the driver.
    pub fn handle_streaming_request(&mut self) -> (r: HandlerStreamStepResult)
        requires
            old(self).supports_streaming_spec(),
            old(self).wf(),
        ensures
            final(self).supports_streaming_spec(),
            final(self).wf(),
            final(self).metrics_contribution() == old(self).metrics_contribution(),
            ({
                let s0 = old(self).stream_state();
                let s1 = final(self).stream_state();
                &&& s1.chunks@ == s0.chunks@
                &&& s1.tail_error == s0.tail_error
                &&& if s0.cursor < s0.chunks@.len() {
                    s1.cursor == s0.cursor + 1 && (r matches Ok(p) && (p.1 == true
                        && (p.0 matches Some(resp)
                        && resp.is_data(s0.chunks@[s0.cursor as int]@))))
                } else {
                    s1.cursor == s0.cursor && match s0.tail_error {
                        Some(m) => r == Err::<(Option<Response>, bool), Error>(Error::Engine(m)),
                        None => r == Ok::<(Option<Response>, bool), Error>((None, false)),
                    }
                }
            }),
    {
        match self {
            RequestHandler::Dag(d) => match &mut d.output {
                DagOutput::Streaming(s) => {
                    if s.cursor < s.chunks.len() {
                        let data = clone_bytes(&s.chunks[s.cursor]);
                        s.cursor = s.cursor + 1;
                        Ok((Some(Response { data, error: None }), true))
                    } else {
                        match &s.tail_error {
                            Some(m) => Err(Error::Engine(m.clone())),
                            None => Ok((None, false)),
                        }
                    }
                },
                DagOutput::Unary(_) => unreached(),
            },
            _ => unreached(),
        }
    }

    /// Merges this handler's counters into `m`; the default for variants
    /// without statistics contributes nothing. The driver invokes this
    /// exactly once per task, after the terminal state. The handler keeps
    /// its own counters, so a second invocation would double-count — see
    /// [`crate::metrics::lemma_second_merge_double_counts`].
    pub fn collect_metrics_into(&mut self, m: &mut ExecutorMetrics)
        ensures
            *final(self) == *old(self),
            *final(m) == old(m).merged(old(self).metrics_contribution()),
    {
        match self {
            RequestHandler::Dag(d) => m.merge(&d.metrics),
            RequestHandler::Analyze(_) => proof {
                crate::metrics::lemma_merge_zero_is_identity(*m);
            },
            RequestHandler::Checksum(_) => proof {
                crate::metrics::lemma_merge_zero_is_identity(*m);
            },
        }
    }
}

/// The response mapping shared by every unary variant: a payload-carrying
/// response on success, the engine failure wrapped as an [`Error`] otherwise.
fn unary_response(out: &Result<Vec<u8>, String>) -> (r: Result<Response, Error>)
    ensures
        match *out {
            Ok(data) => r matches Ok(resp) && resp.is_data(data@),
            Err(msg) => r == Err::<Response, Error>(Error::Engine(msg)),
        },
{
    match out {
        Ok(data) => Ok(Response { data: clone_bytes(data), error: None }),
        Err(msg) => Err(Error::Engine(msg.clone())),
    }
}

} // verus!
