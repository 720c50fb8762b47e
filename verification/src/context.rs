//! The per-request execution context.

use crate::deadline::Deadline;
use vstd::prelude::*;

verus! {

/// One key range of a request: start key inclusive, end key exclusive, both
/// plain byte strings in storage order.
#[derive(Debug, PartialEq, Eq)]
pub struct KeyRange {
    pub start: Vec<u8>,
    pub end: Vec<u8>,
}

impl Clone for KeyRange {
    /// The clone keeps both keys, byte for byte.
    fn clone(&self) -> (r: Self)
        ensures
            r.start@ == self.start@,
            r.end@ == self.end@,
    {
        let start = clone_bytes(&self.start);
        let end = clone_bytes(&self.end);
        KeyRange { start, end }
    }
}

/// A byte-for-byte copy of `v`.
pub(crate) fn clone_bytes(v: &Vec<u8>) -> (r: Vec<u8>)
    ensures
        r@ == v@,
{
    let mut r: Vec<u8> = Vec::new();
    let mut i: usize = 0;
    while i < v.len()
        invariant
            i <= v.len(),
            r@ == v@.subrange(0, i as int),
        decreases v.len() - i,
    {
        r.push(v[i]);
        proof {
            assert(r@ =~= v@.subrange(0, i + 1));
        }
        i = i + 1;
    }
    proof {
        assert(v@.subrange(0, v@.len() as int) =~= v@);
    }
    r
}

/// The transaction/authorization metadata that arrived with the request. The
/// execution core stores it for collaborators (tracing, conflict checks) and
/// never reads it, so it is held as an opaque, already-encoded blob.
#[derive(Debug, PartialEq, Eq)]
pub struct RpcContext {
    pub payload: Vec<u8>,
}

impl RpcContext {
    /// An empty metadata blob.
    pub fn new() -> (r: RpcContext)
        ensures
            r.payload@ == Seq::<u8>::empty(),
    {
        RpcContext { payload: Vec::new() }
    }
}

/// Metadata for one request, fixed at construction: the diagnostic tag, the
/// opaque RPC context, a diagnostic view of the key ranges (the first range
/// by value and the total count), the embedded deadline, and optional
/// diagnostics (origin peer, scan direction, transaction start timestamp).
///
/// It is owned by exactly one handler instance for the lifetime of that one
/// request. After the handler begins stepping, the only permitted mutation
/// is [`Self::set_max_handle_duration`], called once beforehand.
#[derive(Debug)]
pub struct ReqContext {
    /// The tag of the request kind, also used by the embedded deadline.
    pub tag: &'static str,
    /// The rpc context carried in the request.
    pub context: RpcContext,
    /// The first range of the request, absent when the request has none.
    pub first_range: Option<KeyRange>,
    /// How many ranges the request carried in all.
    pub ranges_len: usize,
    /// The deadline of the request.
    pub deadline: Deadline,
    /// The peer address of the request, for diagnostics.
    pub peer: Option<String>,
    /// Whether the request is a descending scan (scan-shaped requests only).
    pub is_desc_scan: Option<bool>,
    /// The transaction start timestamp (transactional requests only).
    pub txn_start_ts: Option<u64>,
}

impl ReqContext {
    /// The invariant tying the range count to the stored first range: a
    /// context has a first range exactly when it has any range at all.
    pub open spec fn range_view_wf(self) -> bool {
        self.ranges_len == 0 <==> self.first_range is None
    }

    /// Builds the context for one inbound request. The embedded deadline
    /// starts now with a zero placeholder budget: the real budget is set
    /// through [`Self::set_max_handle_duration`] once known, and elapsed
    /// queueing time then counts against it.
    pub fn new(
        tag: &'static str,
        context: RpcContext,
        ranges: &Vec<KeyRange>,
        peer: Option<String>,
        is_desc_scan: Option<bool>,
        txn_start_ts: Option<u64>,
    ) -> (r: ReqContext)
        ensures
            r.tag == tag,
            r.context == context,
            r.ranges_len == ranges@.len(),
            ranges@.len() == 0 ==> r.first_range is None,
            ranges@.len() > 0 ==> (r.first_range matches Some(k)
                && k.start@ == ranges@[0].start@ && k.end@ == ranges@[0].end@),
            r.range_view_wf(),
            r.deadline.tag_spec() == tag,
            r.deadline.budget_ns_spec() == 0,
            r.peer == peer,
            r.is_desc_scan == is_desc_scan,
            r.txn_start_ts == txn_start_ts,
    {
        let deadline = Deadline::from_now(tag, 0);
        let first_range = if ranges.len() > 0 {
            Some(ranges[0].clone())
        } else {
            None
        };
        ReqContext {
            tag,
            context,
            first_range,
            ranges_len: ranges.len(),
            deadline,
            peer,
            is_desc_scan,
            txn_start_ts,
        }
    }

    /// Delegates to [`Deadline::reset`]: the deadline moves to the original
    /// start plus `duration_ns`, and every other part of the context is left
    /// as it was.
    pub fn set_max_handle_duration(&mut self, duration_ns: u64)
        ensures
            final(self).deadline.tag_spec() == old(self).deadline.tag_spec(),
            final(self).deadline.start_spec() == old(self).deadline.start_spec(),
            final(self).deadline.budget_ns_spec() == duration_ns,
            final(self).tag == old(self).tag,
            final(self).context == old(self).context,
            final(self).first_range == old(self).first_range,
            final(self).ranges_len == old(self).ranges_len,
            final(self).peer == old(self).peer,
            final(self).is_desc_scan == old(self).is_desc_scan,
            final(self).txn_start_ts == old(self).txn_start_ts,
    {
        self.deadline.reset(duration_ns);
    }

    /// A placeholder context for tests: the fixed tag, an empty rpc context,
    /// no ranges and no optional diagnostics.
    pub fn default_for_test() -> (r: ReqContext)
        ensures
            r.tag@ == "test"@,
            r.context.payload@ == Seq::<u8>::empty(),
            r.first_range is None,
            r.ranges_len == 0,
            r.deadline.budget_ns_spec() == 0,
            r.peer is None,
            r.is_desc_scan is None,
            r.txn_start_ts is None,
    {
        let ranges: Vec<KeyRange> = Vec::new();
        Self::new("test", RpcContext::new(), &ranges, None, None, None)
    }
}

} // verus!
