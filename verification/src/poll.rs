//! The finalization poller's state machine: one decision per status reply.

use vstd::prelude::*;

use crate::errors::DaError;
use crate::errors::ProtocolViolation;
use crate::status::BlobHeader;
use crate::status::BlobStatus;
use crate::status::BlobStatusReply;
use crate::status::decode_status;
use crate::status::spec_decode_status;

verus! {

/// The poll timeout used when the caller sets no override, in seconds.
pub const WAIT_BLOB_TIMEOUT_IN_SECS: u64 = 300;

/// The fixed pause between two status queries, in milliseconds.
pub const POLL_INTERVAL_MS: u64 = 1000;

/// The timeout the poller runs under: the caller's override when one is set,
/// the default otherwise. Exactly one timeout value is active at call time.
pub open spec fn spec_effective_wait_timeout_in_secs(override_in_secs: Option<u64>) -> u64 {
    match override_in_secs {
        Some(v) => v,
        None => WAIT_BLOB_TIMEOUT_IN_SECS,
    }
}

/// Pick the active poll timeout from the optional per-client override.
pub fn effective_wait_timeout_in_secs(override_in_secs: Option<u64>) -> (t: u64)
    ensures
        t == spec_effective_wait_timeout_in_secs(override_in_secs),
{
    match override_in_secs {
        Some(v) => v,
        None => WAIT_BLOB_TIMEOUT_IN_SECS,
    }
}

/// What the poll loop does after one status reply, when the reply does not
/// end the wait with an error.
#[derive(Clone, Debug)]
pub enum PollDecision {
    /// The submission is finalized: stop polling and hand the caller this
    /// header, the retrieval key for the chunk's bytes.
    Complete { blob_header: BlobHeader },
    /// The status is still non-terminal and time remains: sleep one poll
    /// interval and query again.
    Continue,
}

/// The poller's decision rule for one status reply, given the wall-clock
/// time elapsed since the poll started and the active timeout:
/// an unknown status code is a protocol violation; a finalized status must
/// carry an info record and a blob header, which is returned; a failed
/// status is a terminal failure, whatever the clock says; otherwise the
/// poller keeps waiting until the elapsed time exceeds the timeout.
pub open spec fn spec_poll_step(
    reply: BlobStatusReply,
    elapsed_ms: u64,
    timeout_secs: u64,
) -> Result<PollDecision, DaError> {
    match spec_decode_status(reply.status) {
        Err(e) => Err(e),
        Ok(BlobStatus::Finalized) => match reply.info {
            None => Err(DaError::Protocol { violation: ProtocolViolation::MissingBlobInfo }),
            Some(info) => match info.blob_header {
                None => Err(
                    DaError::Protocol { violation: ProtocolViolation::MissingBlobHeader },
                ),
                Some(header) => Ok(PollDecision::Complete { blob_header: header }),
            },
        },
        Ok(BlobStatus::Failed) => Err(DaError::TerminalFailure),
        Ok(BlobStatus::Unspecified) => if elapsed_ms > timeout_secs * 1000 {
            Err(DaError::Timeout)
        } else {
            Ok(PollDecision::Continue)
        },
    }
}

/// Apply the poller's decision rule to one status reply.
pub fn poll_step(reply: BlobStatusReply, elapsed_ms: u64, timeout_secs: u64) -> (r: Result<
    PollDecision,
    DaError,
>)
    ensures
        r == spec_poll_step(reply, elapsed_ms, timeout_secs),
{
    let status = match decode_status(reply.status) {
        Ok(s) => s,
        Err(e) => {
            return Err(e);
        },
    };
    match status {
        BlobStatus::Finalized => match reply.info {
            None => Err(DaError::Protocol { violation: ProtocolViolation::MissingBlobInfo }),
            Some(info) => match info.blob_header {
                None => Err(
                    DaError::Protocol { violation: ProtocolViolation::MissingBlobHeader },
                ),
                Some(header) => Ok(PollDecision::Complete { blob_header: header }),
            },
        },
        BlobStatus::Failed => Err(DaError::TerminalFailure),
        BlobStatus::Unspecified => {
            if (elapsed_ms as u128) > (timeout_secs as u128) * 1000 {
                Err(DaError::Timeout)
            } else {
                Ok(PollDecision::Continue)
            }
        },
    }
}

/// A finalized reply that carries its info record and blob header ends the
/// poll with exactly that header, whatever the clock says.
pub proof fn lemma_poll_step_finalized_returns_header(
    reply: BlobStatusReply,
    elapsed_ms: u64,
    timeout_secs: u64,
)
    requires
        reply.status == crate::status::STATUS_FINALIZED,
        reply.info is Some,
        reply.info->0.blob_header is Some,
    ensures
        spec_poll_step(reply, elapsed_ms, timeout_secs) == Ok::<PollDecision, DaError>(
            PollDecision::Complete { blob_header: reply.info->0.blob_header->0 },
        ),
{
}

/// A finalized reply without its info record or blob header is a protocol
/// violation, never a retry condition.
pub proof fn lemma_poll_step_finalized_missing_payload(
    reply: BlobStatusReply,
    elapsed_ms: u64,
    timeout_secs: u64,
)
    requires
        reply.status == crate::status::STATUS_FINALIZED,
        reply.info is None || reply.info->0.blob_header is None,
    ensures
        spec_poll_step(reply, elapsed_ms, timeout_secs) == Err::<PollDecision, DaError>(
            DaError::Protocol {
                violation: if reply.info is None {
                    ProtocolViolation::MissingBlobInfo
                } else {
                    ProtocolViolation::MissingBlobHeader
                },
            },
        ),
{
}

/// A failed reply ends the poll with a terminal failure at once, whatever
/// the elapsed time and timeout: the poller never retries a failure.
pub proof fn lemma_poll_step_failed_fails_fast(
    reply: BlobStatusReply,
    elapsed_ms: u64,
    timeout_secs: u64,
)
    requires
        reply.status == crate::status::STATUS_FAILED,
    ensures
        spec_poll_step(reply, elapsed_ms, timeout_secs) == Err::<PollDecision, DaError>(
            DaError::TerminalFailure,
        ),
{
}

/// A still-processing reply within the timeout keeps the poll going.
pub proof fn lemma_poll_step_continues(
    reply: BlobStatusReply,
    elapsed_ms: u64,
    timeout_secs: u64,
)
    requires
        reply.status == crate::status::STATUS_UNSPECIFIED,
        elapsed_ms <= timeout_secs * 1000,
    ensures
        spec_poll_step(reply, elapsed_ms, timeout_secs) == Ok::<PollDecision, DaError>(
            PollDecision::Continue,
        ),
{
}

/// A still-processing reply past the timeout ends the poll with a timeout
/// error.
pub proof fn lemma_poll_step_times_out(
    reply: BlobStatusReply,
    elapsed_ms: u64,
    timeout_secs: u64,
)
    requires
        reply.status == crate::status::STATUS_UNSPECIFIED,
        elapsed_ms > timeout_secs * 1000,
    ensures
        spec_poll_step(reply, elapsed_ms, timeout_secs) == Err::<PollDecision, DaError>(
            DaError::Timeout,
        ),
{
}

/// A reply whose status code lies outside the closed set is a protocol
/// violation naming that code, never treated as still processing.
pub proof fn lemma_poll_step_unknown_status(
    reply: BlobStatusReply,
    elapsed_ms: u64,
    timeout_secs: u64,
)
    requires
        reply.status != crate::status::STATUS_UNSPECIFIED,
        reply.status != crate::status::STATUS_FINALIZED,
        reply.status != crate::status::STATUS_FAILED,
    ensures
        spec_poll_step(reply, elapsed_ms, timeout_secs) == Err::<PollDecision, DaError>(
            DaError::Protocol {
                violation: ProtocolViolation::UnknownStatusCode { code: reply.status },
            },
        ),
{
}

/// The poll loop is time-bounded: a driver that waits at least one poll
/// interval between queries can be told to continue at most
/// `timeout / interval` times, so it makes at most that many queries plus
/// the first one.
pub proof fn lemma_poll_query_count_bound(
    reply: BlobStatusReply,
    elapsed_ms: u64,
    timeout_secs: u64,
    queries: nat,
)
    requires
        spec_poll_step(reply, elapsed_ms, timeout_secs) == Ok::<PollDecision, DaError>(
            PollDecision::Continue,
        ),
        elapsed_ms >= queries * POLL_INTERVAL_MS,
    ensures
        queries * POLL_INTERVAL_MS <= timeout_secs * 1000,
        queries <= timeout_secs,
{
}

/// The poller reaches success deterministically: stepped through any run of
/// still-processing replies, each observed within the timeout, and then a
/// finalized reply carrying a header, it decides to continue on each of the
/// former and returns exactly that header on the last reply — one decision
/// per status query, so a driver makes exactly one query per reply.
pub proof fn lemma_poller_reaches_success(
    replies: Seq<BlobStatusReply>,
    elapsed: Seq<u64>,
    timeout_secs: u64,
    n: int,
)
    requires
        0 <= n < replies.len(),
        elapsed.len() == replies.len(),
        forall|i: int| 0 <= i < n ==> #[trigger] replies[i].status
            == crate::status::STATUS_UNSPECIFIED,
        forall|i: int| 0 <= i < n ==> #[trigger] elapsed[i] <= timeout_secs * 1000,
        replies[n].status == crate::status::STATUS_FINALIZED,
        replies[n].info is Some,
        replies[n].info->0.blob_header is Some,
    ensures
        forall|i: int|
            0 <= i < n ==> #[trigger] spec_poll_step(replies[i], elapsed[i], timeout_secs)
                == Ok::<PollDecision, DaError>(PollDecision::Continue),
        spec_poll_step(replies[n], elapsed[n], timeout_secs) == Ok::<PollDecision, DaError>(
            PollDecision::Complete { blob_header: replies[n].info->0.blob_header->0 },
        ),
{
    assert forall|i: int| 0 <= i < n implies #[trigger] spec_poll_step(
        replies[i],
        elapsed[i],
        timeout_secs,
    ) == Ok::<PollDecision, DaError>(PollDecision::Continue) by {
        lemma_poll_step_continues(replies[i], elapsed[i], timeout_secs);
    }
    lemma_poll_step_finalized_returns_header(replies[n], elapsed[n], timeout_secs);
}

} // verus!
