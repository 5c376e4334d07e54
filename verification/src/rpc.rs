//! The asynchronous query dispatcher's decision layer: which queries are
//! accepted, what payload each accepted query's single notification carries,
//! and the accounting that pins every accepted query to exactly one delivery.

use vstd::prelude::*;
use crate::callback::CallbackTarget;
use crate::utf8::check_utf8;
use crate::utf8::is_utf8;

verus! {

/// The wall-clock ceiling, in seconds, a query's worker waits before the
/// timeout notification replaces the real result.
pub const QUERY_TIMEOUT_SECS: u64 = 300;

/// The sentinel payload delivered for a response that arrived with no body:
/// the ASCII bytes of "empty response".
pub open spec fn empty_response_sentinel() -> Seq<u8> {
    seq![101u8, 109u8, 112u8, 116u8, 121u8, 32u8, 114u8, 101u8, 115u8, 112u8, 111u8, 110u8, 115u8, 101u8]
}

/// The sentinel payload delivered when the ceiling elapses first: the ASCII
/// bytes of "timeout".
pub open spec fn timeout_sentinel() -> Seq<u8> {
    seq![116u8, 105u8, 109u8, 101u8, 111u8, 117u8, 116u8]
}

/// The payload a completed query delivers: the runtime's own response bytes,
/// or the empty-response sentinel when the runtime answered with no body.
pub open spec fn response_payload(response: Option<Vec<u8>>) -> Seq<u8> {
    match response {
        Some(p) => p@,
        None => empty_response_sentinel(),
    }
}

/// An accepted query and its delivery accounting.  The worker that owns it
/// delivers its one notification and then holds a spent query no transition
/// accepts again.
pub struct Query {
    pub text: Vec<u8>,
    pub delivered: bool,
    pub deliveries: u64,
}

impl Query {
    /// The accounting invariant: an undelivered query has notified nobody,
    /// a delivered one has notified exactly once.
    pub open spec fn wf(self) -> bool {
        self.deliveries == (if self.delivered {
            1int
        } else {
            0int
        })
    }
}

/// Law: a query that satisfies the accounting invariant has never notified
/// its callback more than once, whatever happened to it.
pub proof fn lemma_at_most_one_delivery(q: Query)
    requires
        q.wf(),
    ensures
        q.deliveries <= 1,
{
}

/// Law: the two sentinel payloads cannot be confused with one another.
pub proof fn lemma_sentinels_distinct()
    ensures
        timeout_sentinel() != empty_response_sentinel(),
{
    assert(timeout_sentinel().len() != empty_response_sentinel().len());
}

/// Decides whether a query is accepted, before any asynchronous work begins.
///
/// Acceptance — status 0 — happens exactly when the query bytes are
/// well-formed UTF-8 and a callback was supplied; exactly then a pending
/// query is minted, with its notification still owed.  A rejection is
/// synchronous: status 1, nothing minted, and therefore no callback ever
/// fires for it.
pub fn rpc_submit(query: Vec<u8>, cb: CallbackTarget) -> (r: (i32, Option<Query>))
    ensures
        r.0 == 0 <==> is_utf8(query@) && cb.present,
        !(is_utf8(query@) && cb.present) ==> r.0 == 1,
        r.1 is Some <==> r.0 == 0,
        r.1 matches Some(q) ==> q.wf() && !q.delivered && q.text@ == query@,
{
    if !cb.present {
        return (1, None);
    }
    if !check_utf8(&query) {
        return (1, None);
    }
    let q = Query { text: query, delivered: false, deliveries: 0 };
    (0, Some(q))
}

/// Delivers the one completion notification of a pending query.
///
/// The payload handed to the callback is the runtime's response itself, or
/// the empty-response sentinel when the runtime answered with no body.  The
/// query is thereby spent: it has now notified exactly once, and neither
/// delivery accepts it again.
pub fn deliver_response(q: &mut Query, response: Option<Vec<u8>>) -> (payload: Vec<u8>)
    requires
        old(q).wf(),
        !old(q).delivered,
    ensures
        final(q).wf(),
        final(q).delivered,
        final(q).deliveries == 1,
        final(q).text == old(q).text,
        payload@ == response_payload(response),
{
    q.delivered = true;
    q.deliveries = q.deliveries + 1;
    match response {
        Some(p) => p,
        None => empty_response_payload(),
    }
}

/// Delivers the one timeout notification of a pending query whose result did
/// not arrive within the ceiling: the timeout sentinel, through the same
/// callback, spending the query exactly as a completion would.
pub fn deliver_timeout(q: &mut Query) -> (payload: Vec<u8>)
    requires
        old(q).wf(),
        !old(q).delivered,
    ensures
        final(q).wf(),
        final(q).delivered,
        final(q).deliveries == 1,
        final(q).text == old(q).text,
        payload@ == timeout_sentinel(),
{
    q.delivered = true;
    q.deliveries = q.deliveries + 1;
    timeout_payload()
}

/// Produces the empty-response sentinel as an owned buffer.
pub fn empty_response_payload() -> (r: Vec<u8>)
    ensures
        r@ == empty_response_sentinel(),
{
    let mut v: Vec<u8> = Vec::new();
    v.push(101);
    v.push(109);
    v.push(112);
    v.push(116);
    v.push(121);
    v.push(32);
    v.push(114);
    v.push(101);
    v.push(115);
    v.push(112);
    v.push(111);
    v.push(110);
    v.push(115);
    v.push(101);
    proof {
        assert(v@ =~= empty_response_sentinel());
    }
    v
}

/// Produces the timeout sentinel as an owned buffer.
pub fn timeout_payload() -> (r: Vec<u8>)
    ensures
        r@ == timeout_sentinel(),
{
    let mut v: Vec<u8> = Vec::new();
    v.push(116);
    v.push(105);
    v.push(109);
    v.push(101);
    v.push(111);
    v.push(117);
    v.push(116);
    proof {
        assert(v@ =~= timeout_sentinel());
    }
    v
}

} // verus!
