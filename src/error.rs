//! Why a single upstream exchange failed.

use vstd::prelude::*;

verus! {

/// The ways in which forwarding one query upstream can fail.
#[derive(Debug, Clone, Copy, PartialEq, Eq, Structural)]
pub enum UpstreamError {
    /// The HTTP upstream answered with a status outside 2xx.
    Rejected { status: u16 },
    /// No answer came within the deadline.
    Timeout,
    /// The wait for an answer ended without one.
    ReceiveFailed,
    /// A message too short to carry a transaction ID.
    Malformed,
    /// Every transaction ID is taken by an outstanding request.
    NoFreeTxid,
}

impl UpstreamError {
    /// A one-line description for logs.
    pub fn message(&self) -> (r: String) {
        match self {
            UpstreamError::Rejected { .. } => String::from_str("upstream returned a non-success status"),
            UpstreamError::Timeout => String::from_str("timeout receiving response"),
            UpstreamError::ReceiveFailed => String::from_str("error receiving response"),
            UpstreamError::Malformed => String::from_str("message too short to carry a transaction ID"),
            UpstreamError::NoFreeTxid => String::from_str("no free transaction ID"),
        }
    }
}

} // verus!
