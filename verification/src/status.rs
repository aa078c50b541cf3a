//! The service's status protocol: wire codes, reply shapes, and decoding.

use vstd::prelude::*;

use crate::errors::{DaError, ProtocolViolation};

verus! {

/// Wire code for the initial, still-processing status.
pub const STATUS_UNSPECIFIED: i32 = 0;

/// Wire code for the terminal success status.
pub const STATUS_FINALIZED: i32 = 1;

/// Wire code for the terminal failure status.
pub const STATUS_FAILED: i32 = 2;

/// The closed set of processing states the service may report for a
/// submission. Transitions are driven entirely by the service; the client
/// only observes them.
#[derive(Clone, Copy, Debug, PartialEq, Eq, Structural)]
pub enum BlobStatus {
    /// The submission is still being driven through the pipeline.
    Unspecified,
    /// Terminal success: the blob is finalized and retrievable.
    Finalized,
    /// Terminal failure: the service gave up on the submission.
    Failed,
}

/// The canonical descriptor of a finalized chunk, and the key under which
/// its bytes are retrieved.
#[derive(Clone, Debug)]
pub struct BlobHeader {
    pub storage_root: Vec<u8>,
    pub epoch: u64,
    pub quorum_id: u64,
}

/// Byte-wise equality of two byte vectors.
pub fn bytes_eq(a: &Vec<u8>, b: &Vec<u8>) -> (r: bool)
    ensures
        r <==> a@ == b@,
{
    if a.len() != b.len() {
        return false;
    }
    let mut i: usize = 0;
    while i < a.len()
        invariant
            0 <= i <= a@.len(),
            a@.len() == b@.len(),
            forall|j: int| 0 <= j < i ==> a@[j] == b@[j],
        decreases a@.len() - i,
    {
        if a[i] != b[i] {
            return false;
        }
        i = i + 1;
    }
    proof {
        assert(a@ =~= b@);
    }
    true
}

impl PartialEq for BlobHeader {
    fn eq(&self, other: &BlobHeader) -> (r: bool) {
        bytes_eq(&self.storage_root, &other.storage_root) && self.epoch == other.epoch
            && self.quorum_id == other.quorum_id
    }
}

impl vstd::std_specs::cmp::PartialEqSpecImpl for BlobHeader {
    open spec fn obeys_eq_spec() -> bool {
        true
    }

    open spec fn eq_spec(&self, other: &BlobHeader) -> bool {
        self.storage_root@ == other.storage_root@ && self.epoch == other.epoch
            && self.quorum_id == other.quorum_id
    }
}

/// The info record a status reply carries once the service has assigned a
/// header to the submission.
#[derive(Clone, Debug)]
pub struct BlobInfo {
    pub blob_header: Option<BlobHeader>,
}

/// One status reply for a submission identifier, as received off the wire:
/// the raw status code plus, when present, the info record.
#[derive(Clone, Debug)]
pub struct BlobStatusReply {
    pub status: i32,
    pub info: Option<BlobInfo>,
}

/// What a raw status code means: one of the closed set of states, or a
/// protocol violation for any code outside that set.
pub open spec fn spec_decode_status(code: i32) -> Result<BlobStatus, DaError> {
    if code == STATUS_UNSPECIFIED {
        Ok(BlobStatus::Unspecified)
    } else if code == STATUS_FINALIZED {
        Ok(BlobStatus::Finalized)
    } else if code == STATUS_FAILED {
        Ok(BlobStatus::Failed)
    } else {
        Err(DaError::Protocol { violation: ProtocolViolation::UnknownStatusCode { code } })
    }
}

/// Decode a raw status code. A code outside the closed set is a protocol
/// violation, never treated as "still processing".
pub fn decode_status(code: i32) -> (r: Result<BlobStatus, DaError>)
    ensures
        r == spec_decode_status(code),
{
    if code == STATUS_UNSPECIFIED {
        Ok(BlobStatus::Unspecified)
    } else if code == STATUS_FINALIZED {
        Ok(BlobStatus::Finalized)
    } else if code == STATUS_FAILED {
        Ok(BlobStatus::Failed)
    } else {
        Err(DaError::Protocol { violation: ProtocolViolation::UnknownStatusCode { code } })
    }
}

} // verus!
