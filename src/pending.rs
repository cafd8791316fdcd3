//! The table of outstanding requests of a multiplexing UDP upstream client.
//!
//! Each outstanding request is keyed by the transaction ID it was sent with
//! and holds the handle through which its answer is delivered. An ID is in the
//! table exactly while a request using it waits for an answer.

use std::collections::HashMap;
use vstd::prelude::*;
use crate::error::UpstreamError;
use crate::proto::{txid_from_binary_message, txid_of, with_txid, write_txid};

verus! {

broadcast use vstd::std_specs::hash::group_hash_axioms;

/// Seconds a request waits for its answer from the UDP upstream.
pub const UDP_TIMEOUT_SECS: u64 = 5;

/// How many random draws `register` makes before it falls back to a scan.
pub const RANDOM_DRAWS: u32 = 32;

/// Relies on `rand::random::<u16>`: a value drawn from the thread-local
/// generator. Nothing is known of the value.
#[verifier::external_body]
fn random_txid() -> (r: u16) {
    rand::random::<u16>()
}

/// How the wait for one request's answer ended.
pub enum WaitOutcome<P> {
    /// The receive loop delivered the answer.
    Delivered(P),
    /// The delivering side went away without an answer.
    Failed,
    /// The deadline passed first.
    TimedOut,
}

/// Outstanding requests keyed by transaction ID, each with its completion
/// handle `H`.
pub struct PendingTable<H> {
    entries: HashMap<u16, H>,
}

/// Every 16-bit ID is a key of `m`.
pub open spec fn is_full<H>(m: Map<u16, H>) -> bool {
    forall|id: u16| m.contains_key(id)
}

impl<H> View for PendingTable<H> {
    type V = Map<u16, H>;

    closed spec fn view(&self) -> Map<u16, H> {
        self.entries@
    }
}

impl<H> PendingTable<H> {
    /// An empty table.
    pub fn new() -> (t: Self)
        ensures
            t@ == Map::<u16, H>::empty(),
    {
        PendingTable { entries: HashMap::new() }
    }

    /// The number of outstanding requests.
    pub fn len(&self) -> (r: usize)
        ensures
            r == self@.len(),
    {
        self.entries.len()
    }

    /// Whether a request with transaction ID `id` is outstanding.
    pub fn contains(&self, id: u16) -> (r: bool)
        ensures
            r == self@.contains_key(id),
    {
        self.entries.contains_key(&id)
    }

    /// Picks a transaction ID that no outstanding request holds and records
    /// `handle` under it, before anything is sent. IDs are drawn at random and
    /// drawn again on a collision; after `RANDOM_DRAWS` collisions the lowest
    /// free ID is taken. `None` when every ID is taken.
    pub fn register(&mut self, handle: H) -> (r: Option<u16>)
        ensures
            match r {
                Some(id) => {
                    &&& !old(self)@.contains_key(id)
                    &&& final(self)@ == old(self)@.insert(id, handle)
                },
                None => {
                    &&& is_full(old(self)@)
                    &&& final(self)@ == old(self)@
                },
            },
    {
        let mut draws: u32 = 0;
        while draws < RANDOM_DRAWS
            invariant
                self@ == old(self)@,
            decreases RANDOM_DRAWS - draws,
        {
            let id = random_txid();
            if !self.entries.contains_key(&id) {
                self.entries.insert(id, handle);
                return Some(id);
            }
            draws = draws + 1;
        }
        let mut next: u32 = 0;
        while next < 0x10000
            invariant
                self@ == old(self)@,
                next <= 0x10000,
                forall|id: u16| (id as u32) < next ==> #[trigger] self@.contains_key(id),
            decreases 0x10000 - next,
        {
            let id = next as u16;
            if !self.entries.contains_key(&id) {
                self.entries.insert(id, handle);
                return Some(id);
            }
            next = next + 1;
        }
        None
    }

    /// Starts a request: registers `handle` under a free transaction ID and
    /// stamps that ID on `query`, ready to be sent. A query too short to carry
    /// an ID is refused, as is any query while every ID is taken; then neither
    /// the table nor the query changes.
    pub fn start_request(&mut self, query: &mut Vec<u8>, handle: H) -> (r: Result<u16, UpstreamError>)
        ensures
            old(query)@.len() < 2 ==> r == Err::<u16, UpstreamError>(UpstreamError::Malformed)
                && final(self)@ == old(self)@ && final(query)@ == old(query)@,
            old(query)@.len() >= 2 && is_full(old(self)@) ==> r == Err::<u16, UpstreamError>(
                UpstreamError::NoFreeTxid,
            ) && final(self)@ == old(self)@ && final(query)@ == old(query)@,
            old(query)@.len() >= 2 && !is_full(old(self)@) ==> r is Ok,
            r matches Ok(id) ==> {
                &&& !old(self)@.contains_key(id)
                &&& final(self)@ == old(self)@.insert(id, handle)
                &&& final(query)@ == with_txid(old(query)@, id)
            },
    {
        if query.len() < 2 {
            return Err(UpstreamError::Malformed);
        }
        match self.register(handle) {
            None => Err(UpstreamError::NoFreeTxid),
            Some(id) => {
                write_txid(query, id);
                Ok(id)
            },
        }
    }

    /// Removes the request with transaction ID `id`, if one is outstanding,
    /// and hands back its handle. Removing an absent ID changes nothing.
    pub fn take(&mut self, id: u16) -> (r: Option<H>)
        ensures
            final(self)@ == old(self)@.remove(id),
            match r {
                Some(h) => old(self)@.contains_key(id) && h == old(self)@[id],
                None => !old(self)@.contains_key(id),
            },
    {
        self.entries.remove(&id)
    }

    /// Matches an answer datagram from upstream with the request it answers:
    /// the request whose transaction ID the datagram carries is removed and
    /// its handle handed back. A datagram too short to carry an ID, or one
    /// whose ID no request holds, leaves the table as it was and gives `None`.
    pub fn claim_response(&mut self, data: &[u8]) -> (r: Option<H>)
        ensures
            data@.len() < 2 ==> r is None && final(self)@ == old(self)@,
            data@.len() >= 2 ==> {
                let id = txid_of(data@) as u16;
                &&& final(self)@ == old(self)@.remove(id)
                &&& !final(self)@.contains_key(id)
                &&& !old(self)@.contains_key(id) ==> final(self)@ == old(self)@
                &&& match r {
                    Some(h) => old(self)@.contains_key(id) && h == old(self)@[id],
                    None => !old(self)@.contains_key(id),
                }
            },
    {
        if data.len() < 2 {
            return None;
        }
        let id = txid_from_binary_message(data);
        proof {
            if !self@.contains_key(id) {
                assert(self@.remove(id) =~= self@);
            }
        }
        self.take(id)
    }

    /// Ends the wait of the request sent with transaction ID `id`. A delivered
    /// answer is returned; the receive loop already removed its entry. On a
    /// failed wait or a timeout the entry is removed, if still there, and the
    /// matching error returned.
    pub fn finish_request<P>(&mut self, id: u16, outcome: WaitOutcome<P>) -> (r: Result<P, UpstreamError>)
        ensures
            match outcome {
                WaitOutcome::Delivered(p) => r == Ok::<P, UpstreamError>(p) && final(self)@ == old(self)@,
                WaitOutcome::Failed => r == Err::<P, UpstreamError>(UpstreamError::ReceiveFailed)
                    && final(self)@ == old(self)@.remove(id),
                WaitOutcome::TimedOut => r == Err::<P, UpstreamError>(UpstreamError::Timeout)
                    && final(self)@ == old(self)@.remove(id),
            },
            !(outcome is Delivered) ==> !final(self)@.contains_key(id),
    {
        match outcome {
            WaitOutcome::Delivered(p) => Ok(p),
            WaitOutcome::Failed => {
                let _ = self.take(id);
                Err(UpstreamError::ReceiveFailed)
            },
            WaitOutcome::TimedOut => {
                let _ = self.take(id);
                Err(UpstreamError::Timeout)
            },
        }
    }
}

/// Two requests registered one after the other hold different transaction
/// IDs, and the table then holds both, each with its own handle.
pub proof fn lemma_registered_ids_distinct<H>(
    before: Map<u16, H>,
    first: u16,
    first_handle: H,
    second: u16,
    second_handle: H,
)
    requires
        !before.contains_key(first),
        !before.insert(first, first_handle).contains_key(second),
    ensures
        first != second,
        before.insert(first, first_handle).insert(second, second_handle)[first] == first_handle,
        before.insert(first, first_handle).insert(second, second_handle)[second] == second_handle,
        forall|k: u16|
            #[trigger] before.contains_key(k) ==> k != first && k != second && before.insert(
                first,
                first_handle,
            ).insert(second, second_handle)[k] == before[k],
{
}

/// A request that registers and then times out, or whose wait fails, leaves
/// no entry behind: the table is as it was before the request.
pub proof fn lemma_no_leak_on_timeout<H>(before: Map<u16, H>, id: u16, handle: H)
    requires
        !before.contains_key(id),
    ensures
        !before.insert(id, handle).remove(id).contains_key(id),
        before.insert(id, handle).remove(id) == before,
{
    assert(before.insert(id, handle).remove(id) =~= before);
}

/// A request that registers, whose answer the receive loop claims, and whose
/// wait then ends with that answer, leaves no entry behind: the answer reaches
/// the request's own handle and the table is as it was before the request.
pub proof fn lemma_no_leak_on_success<H>(before: Map<u16, H>, id: u16, handle: H, answer: Seq<u8>)
    requires
        !before.contains_key(id),
        answer.len() >= 2,
        txid_of(answer) == id as int,
    ensures
        before.insert(id, handle).contains_key(txid_of(answer) as u16),
        before.insert(id, handle)[txid_of(answer) as u16] == handle,
        !before.insert(id, handle).remove(txid_of(answer) as u16).contains_key(id),
        before.insert(id, handle).remove(txid_of(answer) as u16) == before,
{
    assert(before.insert(id, handle).remove(id) =~= before);
}

/// A datagram whose ID no request holds changes nothing, so an answer that
/// comes after it still finds its own request.
pub proof fn lemma_unsolicited_is_harmless<H>(before: Map<u16, H>, stray: Seq<u8>, answer: Seq<u8>)
    requires
        stray.len() >= 2,
        answer.len() >= 2,
        !before.contains_key(txid_of(stray) as u16),
        before.contains_key(txid_of(answer) as u16),
    ensures
        before.remove(txid_of(stray) as u16) == before,
        before.remove(txid_of(stray) as u16)[txid_of(answer) as u16] == before[txid_of(answer) as u16],
{
    assert(before.remove(txid_of(stray) as u16) =~= before);
}

/// Claiming the answer of one outstanding request leaves every other
/// outstanding request, and its handle, in place.
pub proof fn lemma_claim_leaves_others<H>(before: Map<u16, H>, answer: Seq<u8>, other: u16)
    requires
        answer.len() >= 2,
        before.contains_key(other),
        other as int != txid_of(answer),
    ensures
        before.remove(txid_of(answer) as u16).contains_key(other),
        before.remove(txid_of(answer) as u16)[other] == before[other],
{
}

} // verus!
