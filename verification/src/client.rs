//! The client's per-handle configuration: the optional poll-timeout override.

use vstd::prelude::*;

use crate::poll::WAIT_BLOB_TIMEOUT_IN_SECS;
use crate::poll::spec_effective_wait_timeout_in_secs;

verus! {

/// The configuration a client handle carries across calls. A handle owns no
/// submission state: this override, attached at construction time, is the
/// only value it keeps between calls.
#[derive(Clone, Copy, Debug, PartialEq, Eq, Structural)]
pub struct ClientConfig {
    pub wait_blob_timeout_in_secs: Option<u64>,
}

impl ClientConfig {
    /// A fresh handle's configuration: no override, so the poller runs under
    /// the default timeout.
    pub fn new() -> (c: ClientConfig)
        ensures
            c.wait_blob_timeout_in_secs is None,
            c.active_wait_timeout_in_secs() == WAIT_BLOB_TIMEOUT_IN_SECS,
    {
        ClientConfig { wait_blob_timeout_in_secs: None }
    }

    /// Builder-style override of the poll timeout: the returned
    /// configuration polls under exactly the given number of seconds.
    pub fn with_wait_blob_timeout_in_secs(self, timeout_in_secs: u64) -> (c: ClientConfig)
        ensures
            c.wait_blob_timeout_in_secs == Some(timeout_in_secs),
            c.active_wait_timeout_in_secs() == timeout_in_secs,
    {
        ClientConfig { wait_blob_timeout_in_secs: Some(timeout_in_secs) }
    }

    /// The timeout this configuration makes active: the override when one
    /// was set, the default otherwise.
    pub open spec fn active_wait_timeout_in_secs(self) -> u64 {
        spec_effective_wait_timeout_in_secs(self.wait_blob_timeout_in_secs)
    }

    /// Pick the active poll timeout for one wait.
    pub fn wait_timeout_in_secs(&self) -> (t: u64)
        ensures
            t == self.active_wait_timeout_in_secs(),
    {
        crate::poll::effective_wait_timeout_in_secs(self.wait_blob_timeout_in_secs)
    }
}

} // verus!
