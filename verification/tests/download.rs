use hdfs_cli::datanode::NodeReply;
use hdfs_cli::download::{DownloadAction, DownloadEvent, DownloadSession, DownloadState};
use hdfs_cli::errors::{BlockFailure, ClientError, DecodeError, IoError, TransferError};
use hdfs_cli::models::{AllocationResponse, BlockAssignment};

const BASE: &str = "http://localhost:8080";

fn plan(ids: &[&str]) -> AllocationResponse {
    AllocationResponse {
        block_assignments: ids
            .iter()
            .map(|id| BlockAssignment {
                block_id: id.to_string(),
                datanode_addresses: vec![format!("http://node-{}", id), "http://spare".to_string()],
            })
            .collect(),
    }
}

fn fetched(bytes: &[u8]) -> DownloadEvent {
    DownloadEvent::BlockReply { reply: NodeReply::Response { status: 200, body: bytes.to_vec() } }
}

fn fetch(index: usize, id: &str) -> DownloadAction {
    DownloadAction::FetchBlock { index, url: format!("http://node-{}/getBlock/{}", id, id) }
}

#[test]
fn download_begins_by_asking_for_the_plan() {
    let (session, first) = DownloadSession::new(BASE, "a.txt");
    assert_eq!(
        first,
        DownloadAction::FetchPlan {
            url: "http://localhost:8080/getFileBlocks?filePath=a.txt".to_string()
        }
    );
    assert_eq!(session.state(), DownloadState::Init);
    assert_eq!(session.data(), &Vec::<u8>::new());
    assert_eq!(session.failures(), &Vec::<BlockFailure>::new());
    assert_eq!(session.failure(), None);
}

#[test]
fn download_joins_the_blocks_in_plan_order() {
    let (mut session, _) = DownloadSession::new(BASE, "a.txt");
    assert_eq!(session.step(DownloadEvent::PlanFetched { plan: plan(&["a", "b", "c"]) }), fetch(0, "a"));
    assert_eq!(session.state(), DownloadState::PerBlockDownload(0));
    assert_eq!(session.step(fetched(b"0123")), fetch(1, "b"));
    assert_eq!(session.step(fetched(b"4567")), fetch(2, "c"));
    assert_eq!(session.state(), DownloadState::PerBlockDownload(2));
    assert_eq!(
        session.step(fetched(b"89")),
        DownloadAction::WriteFile { path: "a.txt".to_string() }
    );
    assert_eq!(session.state(), DownloadState::Concatenated);
    assert_eq!(session.data(), &b"0123456789".to_vec());
    assert_eq!(session.step(DownloadEvent::Written), DownloadAction::Finish);
    assert_eq!(session.state(), DownloadState::WrittenToDisk);
    assert_eq!(session.failures(), &Vec::<BlockFailure>::new());
    assert_eq!(session.failure(), None);
    assert_eq!(session.step(DownloadEvent::Written), DownloadAction::Finish);
    assert_eq!(session.step(fetched(b"more")), DownloadAction::Finish);
    assert_eq!(session.data(), &b"0123456789".to_vec());
}

#[test]
fn download_of_empty_plan_fetches_no_block() {
    let (mut session, _) = DownloadSession::new(BASE, "empty.bin");
    assert_eq!(
        session.step(DownloadEvent::PlanFetched { plan: plan(&[]) }),
        DownloadAction::WriteFile { path: "empty.bin".to_string() }
    );
    assert_eq!(session.data(), &Vec::<u8>::new());
    assert_eq!(session.step(DownloadEvent::Written), DownloadAction::Finish);
    assert_eq!(session.state(), DownloadState::WrittenToDisk);
}

#[test]
fn download_goes_on_without_a_block_that_fails() {
    let (mut session, _) = DownloadSession::new(BASE, "a.txt");
    session.step(DownloadEvent::PlanFetched { plan: plan(&["a", "b", "c"]) });
    assert_eq!(session.step(fetched(b"0123")), fetch(1, "b"));
    assert_eq!(
        session.step(DownloadEvent::BlockReply {
            reply: NodeReply::Response { status: 404, body: b"gone".to_vec() }
        }),
        fetch(2, "c")
    );
    assert_eq!(session.state(), DownloadState::PerBlockDownload(2));
    assert_eq!(
        session.step(fetched(b"89")),
        DownloadAction::WriteFile { path: "a.txt".to_string() }
    );
    assert_eq!(session.data(), &b"012389".to_vec());
    assert_eq!(session.data().len(), 10 - 4);
    assert_eq!(
        session.failures(),
        &vec![BlockFailure {
            index: 1,
            block_id: "b".to_string(),
            address: Some("http://node-b".to_string()),
            kind: TransferError::NotFound,
        }]
    );
    assert_eq!(session.failure(), None);
    assert_eq!(session.step(DownloadEvent::Written), DownloadAction::Finish);
}

#[test]
fn download_records_every_failure_in_order() {
    let (mut session, _) = DownloadSession::new(BASE, "a.txt");
    session.step(DownloadEvent::PlanFetched { plan: plan(&["a", "b", "c"]) });
    assert_eq!(session.step(DownloadEvent::BlockReply { reply: NodeReply::TimedOut }), fetch(1, "b"));
    assert_eq!(session.step(fetched(b"4567")), fetch(2, "c"));
    assert_eq!(
        session.step(DownloadEvent::BlockReply { reply: NodeReply::ConnectFailed }),
        DownloadAction::WriteFile { path: "a.txt".to_string() }
    );
    assert_eq!(session.data(), &b"4567".to_vec());
    assert_eq!(
        session.failures(),
        &vec![
            BlockFailure {
                index: 0,
                block_id: "a".to_string(),
                address: Some("http://node-a".to_string()),
                kind: TransferError::Timeout,
            },
            BlockFailure {
                index: 2,
                block_id: "c".to_string(),
                address: Some("http://node-c".to_string()),
                kind: TransferError::Unreachable,
            },
        ]
    );
}

#[test]
fn download_skips_blocks_without_address() {
    let mut blocks = plan(&["a", "b", "c", "d"]);
    blocks.block_assignments[0].datanode_addresses.clear();
    blocks.block_assignments[2].datanode_addresses.clear();
    blocks.block_assignments[3].datanode_addresses.clear();
    let (mut session, _) = DownloadSession::new(BASE, "a.txt");
    assert_eq!(session.step(DownloadEvent::PlanFetched { plan: blocks }), fetch(1, "b"));
    assert_eq!(
        session.failures(),
        &vec![BlockFailure {
            index: 0,
            block_id: "a".to_string(),
            address: None,
            kind: TransferError::Unreachable,
        }]
    );
    assert_eq!(
        session.step(fetched(b"4567")),
        DownloadAction::WriteFile { path: "a.txt".to_string() }
    );
    assert_eq!(session.data(), &b"4567".to_vec());
    let indices: Vec<usize> = session.failures().iter().map(|f| f.index).collect();
    assert_eq!(indices, vec![0, 2, 3]);
    assert!(session.failures().iter().all(|f| f.address.is_none()));
}

#[test]
fn plan_that_cannot_be_had_fails_the_download() {
    let (mut session, _) = DownloadSession::new(BASE, "a.txt");
    assert_eq!(
        session.step(DownloadEvent::PlanUnavailable { kind: TransferError::Unreachable }),
        DownloadAction::Abort
    );
    assert_eq!(session.state(), DownloadState::Failed);
    assert_eq!(session.failure(), Some(&ClientError::Metadata(TransferError::Unreachable)));
    assert_eq!(session.step(DownloadEvent::PlanFetched { plan: plan(&["a"]) }), DownloadAction::Abort);
    assert_eq!(session.state(), DownloadState::Failed);
}

#[test]
fn plan_that_cannot_be_decoded_fails_the_download() {
    let (mut session, _) = DownloadSession::new(BASE, "a.txt");
    assert_eq!(
        session.step(DownloadEvent::PlanUndecodable {
            reason: DecodeError { field: "blockAssignments".to_string() }
        }),
        DownloadAction::Abort
    );
    assert_eq!(
        session.failure(),
        Some(&ClientError::Decode(DecodeError { field: "blockAssignments".to_string() }))
    );
}

#[test]
fn write_failure_fails_the_download() {
    let (mut session, _) = DownloadSession::new(BASE, "a.txt");
    session.step(DownloadEvent::PlanFetched { plan: plan(&["a"]) });
    session.step(fetched(b"0123"));
    assert_eq!(
        session.step(DownloadEvent::WriteFailed { error: IoError::Write }),
        DownloadAction::Abort
    );
    assert_eq!(session.state(), DownloadState::Failed);
    assert_eq!(session.failure(), Some(&ClientError::Io(IoError::Write)));
    assert_eq!(session.step(DownloadEvent::Written), DownloadAction::Abort);
}

#[test]
fn download_event_that_answers_nothing_is_not_used() {
    let (mut session, _) = DownloadSession::new(BASE, "a.txt");
    assert_eq!(session.step(fetched(b"0123")), DownloadAction::Unexpected);
    assert_eq!(session.step(DownloadEvent::Written), DownloadAction::Unexpected);
    assert_eq!(session.state(), DownloadState::Init);
    session.step(DownloadEvent::PlanFetched { plan: plan(&["a"]) });
    assert_eq!(
        session.step(DownloadEvent::PlanFetched { plan: plan(&["b"]) }),
        DownloadAction::Unexpected
    );
    assert_eq!(session.step(DownloadEvent::Written), DownloadAction::Unexpected);
    assert_eq!(session.state(), DownloadState::PerBlockDownload(0));
    session.step(fetched(b"0123"));
    assert_eq!(session.step(fetched(b"0123")), DownloadAction::Unexpected);
    assert_eq!(session.data(), &b"0123".to_vec());
}

#[test]
fn repeated_read_gives_the_same_bytes() {
    let mut outputs = Vec::new();
    for _ in 0..2 {
        let (mut session, first) = DownloadSession::new(BASE, "a.txt");
        let mut actions = vec![first];
        actions.push(session.step(DownloadEvent::PlanFetched { plan: plan(&["a", "b"]) }));
        actions.push(session.step(fetched(b"0123")));
        actions.push(session.step(fetched(b"45")));
        actions.push(session.step(DownloadEvent::Written));
        outputs.push((actions, session.data().clone()));
    }
    assert_eq!(outputs[0], outputs[1]);
    assert_eq!(outputs[0].1, b"012345".to_vec());
}
