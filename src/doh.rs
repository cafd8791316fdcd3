//! The framing rules of the DNS-over-HTTPS upstream: the endpoint it accepts,
//! the zeroed ID it sends, the statuses it takes as success and the ID it
//! restores on the answer.

use vstd::prelude::*;
use vstd::string::*;
use crate::error::UpstreamError;
use crate::proto::{txid_from_binary_message, txid_of, with_txid, write_txid};

verus! {

/// Seconds an HTTP exchange with the upstream may take.
pub const HTTP_TIMEOUT_SECS: u64 = 10;

/// The only scheme an upstream URL may have.
pub open spec fn https_scheme() -> Seq<char> {
    seq!['h', 't', 't', 'p', 's']
}

/// An HTTP status counts as success when it is in the 2xx class.
pub open spec fn is_success_spec(status: u16) -> bool {
    200 <= status < 300
}

/// Why an upstream URL cannot be used.
#[derive(Debug, Clone, Copy, PartialEq, Eq, Structural)]
pub enum EndpointError {
    /// The scheme is not `https`.
    NotHttps,
    /// The URL names no host.
    MissingHost,
}

/// Whether `scheme` is exactly `https`.
pub fn scheme_is_https(scheme: &str) -> (r: bool)
    ensures
        r == (scheme@ == https_scheme()),
{
    let n = scheme.unicode_len();
    if n != 5 {
        return false;
    }
    let expected = ['h', 't', 't', 'p', 's'];
    let mut i: usize = 0;
    while i < 5
        invariant
            n == 5,
            scheme@.len() == 5,
            expected@ == https_scheme(),
            i <= 5,
            forall|j: int| 0 <= j < i ==> scheme@[j] == https_scheme()[j],
        decreases 5 - i,
    {
        if scheme.get_char(i) != expected[i] {
            return false;
        }
        i = i + 1;
    }
    assert(scheme@ =~= https_scheme());
    true
}

/// Checks that an upstream URL, given by its scheme and its host, can be used:
/// the scheme must be `https` and a host must be present. The scheme is
/// checked first.
pub fn check_endpoint(scheme: &str, host: Option<&str>) -> (r: Result<(), EndpointError>)
    ensures
        scheme@ != https_scheme() ==> r == Err::<(), EndpointError>(EndpointError::NotHttps),
        scheme@ == https_scheme() && host is None ==> r == Err::<(), EndpointError>(
            EndpointError::MissingHost,
        ),
        scheme@ == https_scheme() && host is Some ==> r is Ok,
{
    if !scheme_is_https(scheme) {
        return Err(EndpointError::NotHttps);
    }
    match host {
        Some(_) => Ok(()),
        None => Err(EndpointError::MissingHost),
    }
}

/// Whether an HTTP status is a success (2xx).
pub fn is_success_status(status: u16) -> (r: bool)
    ensures
        r == is_success_spec(status),
{
    200 <= status && status < 300
}

/// Accepts a 2xx status; any other is the upstream rejecting the query.
pub fn check_status(status: u16) -> (r: Result<(), UpstreamError>)
    ensures
        is_success_spec(status) ==> r is Ok,
        !is_success_spec(status) ==> r == Err::<(), UpstreamError>(
            UpstreamError::Rejected { status },
        ),
{
    if is_success_status(status) {
        Ok(())
    } else {
        Err(UpstreamError::Rejected { status })
    }
}

/// Readies a query for the HTTP upstream: remembers its transaction ID and
/// sets the ID on the wire to zero, for the sake of HTTP caches. A query too
/// short to carry an ID is refused and left as it was.
pub fn prepare_query(data: &mut Vec<u8>) -> (r: Result<u16, UpstreamError>)
    ensures
        old(data)@.len() < 2 ==> r == Err::<u16, UpstreamError>(UpstreamError::Malformed)
            && final(data)@ == old(data)@,
        old(data)@.len() >= 2 ==> r is Ok && r->Ok_0 as int == txid_of(old(data)@)
            && final(data)@ == with_txid(old(data)@, 0),
{
    if data.len() < 2 {
        return Err(UpstreamError::Malformed);
    }
    let txid = txid_from_binary_message(data.as_slice());
    write_txid(data, 0);
    Ok(txid)
}

/// Puts the query's own transaction ID back on the upstream's answer, in
/// place of whatever ID the upstream sent. An answer too short to carry an
/// ID is refused.
pub fn restore_answer(body: Vec<u8>, txid: u16) -> (r: Result<Vec<u8>, UpstreamError>)
    ensures
        body@.len() < 2 ==> r == Err::<Vec<u8>, UpstreamError>(UpstreamError::Malformed),
        body@.len() >= 2 ==> r is Ok && r->Ok_0@ == with_txid(body@, txid),
{
    let mut body = body;
    if body.len() < 2 {
        return Err(UpstreamError::Malformed);
    }
    write_txid(&mut body, txid);
    Ok(body)
}

/// Handles an HTTP upstream's answer to a query sent with `prepare_query`:
/// a status outside 2xx is a rejection, whatever the body; otherwise the
/// body gets the query's ID back.
pub fn finish_exchange(status: u16, body: Vec<u8>, txid: u16) -> (r: Result<Vec<u8>, UpstreamError>)
    ensures
        !is_success_spec(status) ==> r == Err::<Vec<u8>, UpstreamError>(
            UpstreamError::Rejected { status },
        ),
        is_success_spec(status) && body@.len() < 2 ==> r == Err::<Vec<u8>, UpstreamError>(
            UpstreamError::Malformed,
        ),
        is_success_spec(status) && body@.len() >= 2 ==> r is Ok && r->Ok_0@ == with_txid(
            body@,
            txid,
        ),
{
    match check_status(status) {
        Err(e) => Err(e),
        Ok(()) => restore_answer(body, txid),
    }
}

} // verus!
