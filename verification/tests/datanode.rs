use hdfs_cli::datanode::{
    add_block_url, classify_reply, encodable, get_block_url, AddBlockRequest, NodeReply,
};
use hdfs_cli::errors::TransferError;

fn response(status: u16, body: &[u8]) -> NodeReply {
    NodeReply::Response { status, body: body.to_vec() }
}

#[test]
fn successful_reply_gives_its_body() {
    assert_eq!(classify_reply(response(200, b"abc")), Ok(b"abc".to_vec()));
    assert_eq!(classify_reply(response(204, b"")), Ok(Vec::new()));
    assert_eq!(classify_reply(response(299, b"x")), Ok(b"x".to_vec()));
}

#[test]
fn status_404_is_not_found() {
    assert_eq!(classify_reply(response(404, b"no such block")), Err(TransferError::NotFound));
}

#[test]
fn other_statuses_are_malformed() {
    assert_eq!(classify_reply(response(199, b"")), Err(TransferError::Malformed));
    assert_eq!(classify_reply(response(300, b"")), Err(TransferError::Malformed));
    assert_eq!(classify_reply(response(400, b"")), Err(TransferError::Malformed));
    assert_eq!(classify_reply(response(500, b"oops")), Err(TransferError::Malformed));
    assert_eq!(classify_reply(response(0, b"")), Err(TransferError::Malformed));
    assert_eq!(classify_reply(response(u16::MAX, b"")), Err(TransferError::Malformed));
}

#[test]
fn failed_connection_is_unreachable() {
    assert_eq!(classify_reply(NodeReply::ConnectFailed), Err(TransferError::Unreachable));
}

#[test]
fn late_reply_is_timeout() {
    assert_eq!(classify_reply(NodeReply::TimedOut), Err(TransferError::Timeout));
}

#[test]
fn unreadable_body_is_malformed() {
    assert_eq!(classify_reply(NodeReply::BodyUnreadable), Err(TransferError::Malformed));
}

#[test]
fn block_urls_join_address_and_path() {
    assert_eq!(add_block_url("http://localhost:8081"), "http://localhost:8081/addBlock");
    assert_eq!(
        get_block_url("http://localhost:8081", "blk-7"),
        "http://localhost:8081/getBlock/blk-7"
    );
    assert_eq!(add_block_url(""), "/addBlock");
    assert_eq!(get_block_url("", ""), "/getBlock/");
}

#[test]
fn payload_is_sent_as_base64() {
    let request = AddBlockRequest::new("blk-1", b"hello");
    assert_eq!(request.block_id, "blk-1");
    assert_eq!(request.data, "aGVsbG8=");
    assert_eq!(AddBlockRequest::new("b", b"").data, "");
    assert_eq!(AddBlockRequest::new("b", b"f").data, "Zg==");
    assert_eq!(AddBlockRequest::new("b", b"fo").data, "Zm8=");
    assert_eq!(AddBlockRequest::new("b", b"foo").data, "Zm9v");
    assert_eq!(AddBlockRequest::new("b", &[0xfb, 0xff]).data, "+/8=");
}

#[test]
fn try_new_encodes_what_fits() {
    assert_eq!(
        AddBlockRequest::try_new("blk-2", b"foobar"),
        Some(AddBlockRequest { block_id: "blk-2".to_string(), data: "Zm9vYmFy".to_string() })
    );
}

#[test]
fn from_parts_keeps_both_parts() {
    assert_eq!(
        AddBlockRequest::from_parts("id", "QQ==".to_string()),
        AddBlockRequest { block_id: "id".to_string(), data: "QQ==".to_string() }
    );
}

#[test]
fn encodable_is_exact_at_the_limit() {
    assert!(encodable(0));
    assert!(encodable(1));
    assert!(encodable(64 * 1024 * 1024));
    let groups = usize::MAX / 4;
    assert!(encodable(groups * 3));
    assert!(!encodable(groups * 3 + 1));
    assert!(!encodable(usize::MAX));
}
