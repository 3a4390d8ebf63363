use hdfs_cli::errors::{
    disposition, exit_code, BlockFailure, ClientError, ConfigError, DecodeError, Disposition, Flow,
    IoError, MyError, TransferError,
};

fn failure(kind: TransferError, address: Option<&str>) -> BlockFailure {
    BlockFailure {
        index: 2,
        block_id: "blk-2".to_string(),
        address: address.map(|a| a.to_string()),
        kind,
    }
}

#[test]
fn my_error_keeps_its_message() {
    assert_eq!(MyError::new("bad input").message(), "bad input");
    assert_eq!(MyError::new("").message(), "");
    assert_eq!(format!("{:?}", MyError::new("x")), "MyError { details: \"x\" }");
}

#[test]
fn only_a_lost_block_of_a_download_is_skipped() {
    let block = ClientError::Block(failure(TransferError::NotFound, Some("n1")));
    assert_eq!(disposition(Flow::Download, &block), Disposition::SkipBlock);
    assert_eq!(disposition(Flow::Upload, &block), Disposition::Abort);
    for flow in [Flow::Upload, Flow::Download] {
        assert_eq!(disposition(flow, &ClientError::Io(IoError::ShortRead)), Disposition::Abort);
        assert_eq!(
            disposition(flow, &ClientError::Metadata(TransferError::Timeout)),
            Disposition::Abort
        );
        assert_eq!(
            disposition(flow, &ClientError::Decode(DecodeError { field: "Size".to_string() })),
            Disposition::Abort
        );
        assert_eq!(
            disposition(flow, &ClientError::Config(ConfigError { argument: "path".to_string() })),
            Disposition::Abort
        );
    }
}

#[test]
fn exit_codes_tell_the_kinds_apart() {
    assert_eq!(exit_code(&ClientError::Config(ConfigError { argument: "path".to_string() })), 2);
    assert_eq!(exit_code(&ClientError::Io(IoError::Open)), 3);
    assert_eq!(exit_code(&ClientError::Io(IoError::ShortRead)), 3);
    assert_eq!(exit_code(&ClientError::Decode(DecodeError { field: "ID".to_string() })), 4);
    assert_eq!(exit_code(&ClientError::Metadata(TransferError::Unreachable)), 5);
    assert_eq!(exit_code(&ClientError::Metadata(TransferError::NotFound)), 6);
    assert_eq!(exit_code(&ClientError::Metadata(TransferError::Malformed)), 7);
    assert_eq!(exit_code(&ClientError::Metadata(TransferError::Timeout)), 8);
    assert_eq!(exit_code(&ClientError::Block(failure(TransferError::Unreachable, None))), 5);
    assert_eq!(exit_code(&ClientError::Block(failure(TransferError::NotFound, None))), 6);
    assert_eq!(exit_code(&ClientError::Block(failure(TransferError::Malformed, None))), 7);
    assert_eq!(exit_code(&ClientError::Block(failure(TransferError::Timeout, None))), 8);
}

#[test]
fn block_failure_message_names_block_address_and_consequence() {
    assert_eq!(
        failure(TransferError::NotFound, Some("http://n1:8081")).message(Flow::Download),
        "block blk-2 at http://n1:8081: block not found; block skipped, operation continues"
    );
    assert_eq!(
        failure(TransferError::Unreachable, Some("http://n1:8081")).message(Flow::Upload),
        "block blk-2 at http://n1:8081: unreachable; operation aborted"
    );
    assert_eq!(
        failure(TransferError::Unreachable, None).message(Flow::Upload),
        "block blk-2 at no address: unreachable; operation aborted"
    );
    assert_eq!(
        failure(TransferError::Malformed, Some("a")).message(Flow::Download),
        "block blk-2 at a: malformed response; block skipped, operation continues"
    );
    assert_eq!(
        failure(TransferError::Timeout, Some("a")).message(Flow::Upload),
        "block blk-2 at a: timed out; operation aborted"
    );
}

#[test]
fn error_messages_are_distinct_and_say_abort() {
    let io = [
        (IoError::Open, "Failed to open file; operation aborted"),
        (IoError::Metadata, "Failed to read file metadata; operation aborted"),
        (IoError::Seek, "Failed to seek in file; operation aborted"),
        (IoError::Read, "Failed to read file block; operation aborted"),
        (IoError::ShortRead, "File ended before the block did; operation aborted"),
        (IoError::Write, "Failed to write file; operation aborted"),
    ];
    for (error, text) in io {
        assert_eq!(ClientError::Io(error).message(Flow::Upload), text);
        assert_eq!(ClientError::Io(error).message(Flow::Download), text);
    }
    assert_eq!(
        ClientError::Metadata(TransferError::Timeout).message(Flow::Upload),
        "Request timed out. Please try again.; operation aborted"
    );
    assert_eq!(
        ClientError::Metadata(TransferError::Unreachable).message(Flow::Download),
        "An error occurred: unreachable; operation aborted"
    );
    assert_eq!(
        ClientError::Metadata(TransferError::NotFound).message(Flow::Download),
        "An error occurred: block not found; operation aborted"
    );
    assert_eq!(
        ClientError::Metadata(TransferError::Malformed).message(Flow::Download),
        "An error occurred: malformed response; operation aborted"
    );
    assert_eq!(
        ClientError::Decode(DecodeError { field: "blockAssignments".to_string() })
            .message(Flow::Download),
        "Failed to decode response: blockAssignments; operation aborted"
    );
    assert_eq!(
        ClientError::Config(ConfigError { argument: "local_path".to_string() })
            .message(Flow::Upload),
        "Required argument missing: local_path; operation aborted"
    );
    assert_eq!(
        ClientError::Block(failure(TransferError::NotFound, Some("n"))).message(Flow::Download),
        "block blk-2 at n: block not found; block skipped, operation continues"
    );
}
