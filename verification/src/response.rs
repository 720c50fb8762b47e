//! The response message the core hands back to the caller.

use crate::error::Error;
use vstd::prelude::*;

verus! {

/// One outbound response: a payload and, in its place or beside it, a
/// structured error. A unary request produces exactly one of these; a
/// streaming request produces an ordered sequence of them.
#[derive(Debug, PartialEq, Eq)]
pub struct Response {
    /// The payload the engine produced; empty in error responses.
    pub data: Vec<u8>,
    /// The structured error carried back to the caller, if the request (or
    /// this increment of it) failed.
    pub error: Option<Error>,
}

impl Response {
    /// A response that delivers `data` and reports no error.
    pub open spec fn is_data(self, data: Seq<u8>) -> bool {
        self.data@ == data && self.error is None
    }

    /// A response that carries the structured error `e` and no data.
    pub open spec fn is_error(self, e: Error) -> bool {
        self.data@ == Seq::<u8>::empty() && self.error == Some(e)
    }

    /// A response reporting deadline expiry for `tag`: its error is
    /// `Outdated` with some elapsed time at or past `budget_ns`.
    pub open spec fn is_outdated_error(self, budget_ns: u64, tag: &'static str) -> bool {
        exists|el: u64| el >= budget_ns && self.is_error(Error::Outdated(el, tag))
    }
}

} // verus!
