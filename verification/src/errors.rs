//! Error kinds reported by the client logic.

use vstd::prelude::*;

verus! {

/// The ways a status reply can break the service protocol.
#[derive(Clone, Copy, Debug, PartialEq, Eq, Structural)]
pub enum ProtocolViolation {
    /// The reply carried a status code outside the protocol's closed set.
    UnknownStatusCode { code: i32 },
    /// A finalized reply arrived without its blob info record.
    MissingBlobInfo,
    /// A finalized reply carried an info record without a blob header.
    MissingBlobHeader,
}

/// Errors produced by the client's own decision logic.
///
/// Transport-level failures (a broken connection, a decode failure on the
/// wire) abort a call before any of these rules run, so they are reported by
/// the transport layer and never take one of these shapes.
#[derive(Clone, Copy, Debug, PartialEq, Eq, Structural)]
pub enum DaError {
    /// A single submission payload exceeded the per-call size ceiling.
    SizeExceeded { max_size: usize, actual_size: usize },
    /// The service's reply violated the status protocol.
    Protocol { violation: ProtocolViolation },
    /// The service reported the terminal failure status for a submission.
    TerminalFailure,
    /// The poll loop ran out of time while the status stayed non-terminal.
    Timeout,
}

} // verus!
