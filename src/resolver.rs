//! The decisions of the downstream-facing dispatch loop: numbering requests,
//! capturing each query's transaction ID and giving it back on the reply.

use vstd::prelude::*;
use crate::proto::{txid_from_binary_message, txid_of, with_txid, write_txid};

verus! {

/// Numbers incoming requests for the logs: 0, 1, 2, ... wrapping at the end
/// of `u64`.
pub struct RequestCounter {
    next: u64,
}

impl View for RequestCounter {
    type V = u64;

    closed spec fn view(&self) -> u64 {
        self.next
    }
}

impl RequestCounter {
    /// A counter whose first number is 0.
    pub fn new() -> (c: Self)
        ensures
            c@ == 0,
    {
        RequestCounter { next: 0 }
    }

    /// Hands out the current number and moves on to the next.
    pub fn next_id(&mut self) -> (r: u64)
        ensures
            r == old(self)@,
            final(self)@ == (if old(self)@ == u64::MAX { 0 } else { (old(self)@ + 1) as u64 }),
    {
        let r = self.next;
        self.next = if self.next == u64::MAX { 0 } else { self.next + 1 };
        r
    }
}

/// The transaction ID a downstream query was sent with, captured before the
/// query goes upstream. `None` for a datagram too short to carry one.
pub fn downstream_txid(request: &[u8]) -> (r: Option<u16>)
    ensures
        request@.len() < 2 ==> r is None,
        request@.len() >= 2 ==> r is Some && r->Some_0 as int == txid_of(request@),
{
    if request.len() < 2 {
        None
    } else {
        Some(txid_from_binary_message(request))
    }
}

/// The reply for the downstream peer: the upstream's answer carrying the ID
/// that the peer's own query carried. `None` for an answer too short to carry
/// an ID.
pub fn downstream_reply(response: Vec<u8>, txid: u16) -> (r: Option<Vec<u8>>)
    ensures
        response@.len() < 2 ==> r is None,
        response@.len() >= 2 ==> r is Some && r->Some_0@ == with_txid(response@, txid),
{
    let mut response = response;
    if response.len() < 2 {
        return None;
    }
    write_txid(&mut response, txid);
    Some(response)
}

/// The reply a downstream peer gets carries the ID of the peer's own query,
/// whatever ID the query carried upstream (zero, or one the client picked)
/// and whatever ID the upstream answered with; the rest of the upstream's
/// answer reaches the peer unchanged.
pub proof fn lemma_txid_transparent(query: Seq<u8>, upstream_answer: Seq<u8>, wire_id: u16)
    requires
        query.len() >= 2,
        upstream_answer.len() >= 2,
    ensures
        txid_of(with_txid(with_txid(upstream_answer, wire_id), txid_of(query) as u16))
            == txid_of(query),
        with_txid(with_txid(upstream_answer, wire_id), txid_of(query) as u16) == with_txid(
            upstream_answer,
            txid_of(query) as u16,
        ),
        with_txid(upstream_answer, txid_of(query) as u16).subrange(2, upstream_answer.len() as int)
            == upstream_answer.subrange(2, upstream_answer.len() as int),
{
    assert(with_txid(with_txid(upstream_answer, wire_id), txid_of(query) as u16) =~= with_txid(
        upstream_answer,
        txid_of(query) as u16,
    ));
    assert(with_txid(upstream_answer, txid_of(query) as u16).subrange(
        2,
        upstream_answer.len() as int,
    ) =~= upstream_answer.subrange(2, upstream_answer.len() as int));
}

/// Two queries in flight at once, with different IDs, get replies with
/// different IDs, each built from its own upstream answer: no reply can be
/// taken for the other's.
pub proof fn lemma_replies_independent(
    query_a: Seq<u8>,
    answer_a: Seq<u8>,
    query_b: Seq<u8>,
    answer_b: Seq<u8>,
)
    requires
        query_a.len() >= 2,
        answer_a.len() >= 2,
        query_b.len() >= 2,
        answer_b.len() >= 2,
        txid_of(query_a) != txid_of(query_b),
    ensures
        with_txid(answer_a, txid_of(query_a) as u16) != with_txid(answer_b, txid_of(query_b) as u16),
        txid_of(with_txid(answer_a, txid_of(query_a) as u16)) == txid_of(query_a),
        txid_of(with_txid(answer_b, txid_of(query_b) as u16)) == txid_of(query_b),
{
    let ra = with_txid(answer_a, txid_of(query_a) as u16);
    let rb = with_txid(answer_b, txid_of(query_b) as u16);
    assert(txid_of(ra) == txid_of(query_a));
    assert(txid_of(rb) == txid_of(query_b));
}

} // verus!
