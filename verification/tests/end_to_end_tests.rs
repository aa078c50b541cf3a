//! An end-to-end run of the submission-and-finalization protocol against an
//! in-process mock of the remote service, driving the library's decision
//! logic exactly as a transport loop would.

use zg_da_rust_sdk::chunk::check_blob_size;
use zg_da_rust_sdk::chunk::split_blob;
use zg_da_rust_sdk::client::ClientConfig;
use zg_da_rust_sdk::errors::DaError;
use zg_da_rust_sdk::poll::POLL_INTERVAL_MS;
use zg_da_rust_sdk::poll::PollDecision;
use zg_da_rust_sdk::poll::poll_step;
use zg_da_rust_sdk::status::BlobHeader;
use zg_da_rust_sdk::status::BlobInfo;
use zg_da_rust_sdk::status::BlobStatusReply;
use zg_da_rust_sdk::status::STATUS_FINALIZED;
use zg_da_rust_sdk::status::STATUS_UNSPECIFIED;

/// A mock disperser: stores each submitted chunk, reports "processing" a
/// fixed number of times per submission before finalizing it, and serves
/// retrieval by the assigned header fields.
struct MockService {
    stored: Vec<Vec<u8>>,
    polls_before_final: u64,
    polls_seen: Vec<u64>,
    submit_calls: u64,
    status_calls: u64,
}

impl MockService {
    fn new(polls_before_final: u64) -> MockService {
        MockService {
            stored: Vec::new(),
            polls_before_final,
            polls_seen: Vec::new(),
            submit_calls: 0,
            status_calls: 0,
        }
    }

    fn submit(&mut self, data: Vec<u8>) -> Vec<u8> {
        self.submit_calls += 1;
        let id = self.stored.len() as u8;
        self.stored.push(data);
        self.polls_seen.push(0);
        vec![id]
    }

    fn get_status(&mut self, request_id: &[u8]) -> BlobStatusReply {
        self.status_calls += 1;
        let idx = request_id[0] as usize;
        if self.polls_seen[idx] < self.polls_before_final {
            self.polls_seen[idx] += 1;
            BlobStatusReply { status: STATUS_UNSPECIFIED, info: None }
        } else {
            BlobStatusReply {
                status: STATUS_FINALIZED,
                info: Some(BlobInfo {
                    blob_header: Some(BlobHeader {
                        storage_root: vec![0x57, request_id[0]],
                        epoch: 11,
                        quorum_id: idx as u64,
                    }),
                }),
            }
        }
    }

    fn retrieve(&self, storage_root: &[u8], epoch: u64, _quorum_id: u64) -> Vec<u8> {
        assert_eq!(epoch, 11);
        assert_eq!(storage_root[0], 0x57);
        self.stored[storage_root[1] as usize].clone()
    }
}

/// The transport loop around the library's poll decision rule, as a driver
/// would run it: one status query per decision, one interval per sleep.
fn wait_finalized(
    service: &mut MockService,
    request_id: &[u8],
    timeout_secs: u64,
) -> Result<BlobHeader, DaError> {
    let mut elapsed_ms = 0u64;
    loop {
        let reply = service.get_status(request_id);
        match poll_step(reply, elapsed_ms, timeout_secs)? {
            PollDecision::Complete { blob_header } => return Ok(blob_header),
            PollDecision::Continue => elapsed_ms += POLL_INTERVAL_MS + 1,
        }
    }
}

#[test]
fn submit_wait_and_retrieve_round_trip() {
    let mut service = MockService::new(2);
    let config = ClientConfig::new();
    let data: Vec<u8> = vec![1, 4];

    check_blob_size(&data).expect("a two-byte blob is within the ceiling");
    let request_id = service.submit(data.clone());
    let header = wait_finalized(&mut service, &request_id, config.wait_timeout_in_secs())
        .expect("the mock finalizes after two processing replies");

    let retrieved = service.retrieve(&header.storage_root, header.epoch, header.quorum_id);
    assert_eq!(retrieved, vec![1, 4]);
    assert_eq!(service.status_calls, 3);
}

#[test]
fn split_and_submit_all_chunks_in_order() {
    // Sequential multi-chunk workflow: each chunk is submitted and fully
    // finalized before the next one, and the headers come back in chunk
    // order.
    let mut service = MockService::new(1);
    let config = ClientConfig::new().with_wait_blob_timeout_in_secs(10);
    let mut data: Vec<u8> = Vec::new();
    for i in 0..300usize {
        data.push((i % 251) as u8);
    }

    let chunks = split_blob(&data);
    let mut headers: Vec<BlobHeader> = Vec::new();
    for chunk in &chunks {
        check_blob_size(chunk).expect("every chunk respects the ceiling");
        let request_id = service.submit(chunk.clone());
        let header = wait_finalized(&mut service, &request_id, config.wait_timeout_in_secs())
            .expect("the mock finalizes every submission");
        headers.push(header);
    }

    assert_eq!(service.submit_calls as usize, chunks.len());
    for (i, header) in headers.iter().enumerate() {
        assert_eq!(header.quorum_id, i as u64);
        let retrieved = service.retrieve(&header.storage_root, header.epoch, header.quorum_id);
        assert_eq!(retrieved, chunks[i]);
    }
}

#[test]
fn terminal_failure_aborts_the_wait() {
    let mut service = MockService::new(0);
    // A service that finalizes without a header record would be a protocol
    // violation; here instead the service fails the submission outright.
    let request_id = service.submit(vec![7]);
    let reply = BlobStatusReply { status: zg_da_rust_sdk::status::STATUS_FAILED, info: None };
    let _ = request_id;
    match poll_step(reply, 0, 300) {
        Err(e) => assert_eq!(e, DaError::TerminalFailure),
        Ok(_) => panic!("a failed submission must surface a terminal error"),
    }
}
