//! The failures a transfer can end in, what each does to the operation, and
//! how each is reported.

use vstd::prelude::*;
use vstd::string::{StrSliceExecFns, StringExecFns};

verus! {

/// A failure known only by its message.
#[derive(Debug)]
pub struct MyError {
    details: String,
}

impl View for MyError {
    type V = Seq<char>;

    closed spec fn view(&self) -> Seq<char> {
        self.details@
    }
}

impl MyError {
    /// An error whose message is `msg`.
    pub fn new(msg: &str) -> (error: MyError)
        ensures
            error@ == msg@,
    {
        MyError { details: msg.to_owned() }
    }

    /// The message, as it would be shown to a user.
    pub fn message(&self) -> (text: String)
        ensures
            text@ == self@,
    {
        self.details.clone()
    }
}

/// A failure of the local file: it cannot be trusted any further.
#[derive(Clone, Copy, Debug, PartialEq, Eq, Structural)]
pub enum IoError {
    /// The file could not be opened.
    Open,
    /// The length of the file could not be determined.
    Metadata,
    /// The start of a range could not be reached.
    Seek,
    /// Reading a range failed, or gave more bytes than the range holds.
    Read,
    /// The file ended before the range did: it shrank after it was measured.
    ShortRead,
    /// The destination could not be written.
    Write,
}

/// A failure of one call to a remote party.
#[derive(Clone, Copy, Debug, PartialEq, Eq, Structural)]
pub enum TransferError {
    /// No answer came: the connection failed, or there was no address to try.
    Unreachable,
    /// The remote party does not know what was asked for.
    NotFound,
    /// An answer came, but not a usable one.
    Malformed,
    /// No answer came in time.
    Timeout,
}

/// The transfer of one block of a plan failed.
#[derive(Debug, PartialEq, Eq)]
pub struct BlockFailure {
    /// Position of the block in the plan.
    pub index: usize,
    /// Identifier of the block.
    pub block_id: String,
    /// The address that was tried; `None` when the plan offered none.
    pub address: Option<String>,
    /// What went wrong.
    pub kind: TransferError,
}

/// A `BlockFailure` as a mathematical value.
pub struct BlockFailureModel {
    pub index: int,
    pub block_id: Seq<char>,
    pub address: Option<Seq<char>>,
    pub kind: TransferError,
}

/// The characters of an optional string.
pub open spec fn text_of(text: Option<String>) -> Option<Seq<char>> {
    match text {
        Some(s) => Some(s@),
        None => None,
    }
}

impl View for BlockFailure {
    type V = BlockFailureModel;

    open spec fn view(&self) -> BlockFailureModel {
        BlockFailureModel {
            index: self.index as int,
            block_id: self.block_id@,
            address: text_of(self.address),
            kind: self.kind,
        }
    }
}

/// A response did not have the expected shape.
#[derive(Debug, PartialEq, Eq)]
pub struct DecodeError {
    /// Name of the field that was missing or of the wrong type.
    pub field: String,
}

/// Position of the first backtick of `text` at or after `from`, or the
/// length of `text` when there is none.
pub open spec fn next_tick(text: Seq<char>, from: int) -> int
    decreases text.len() - from,
{
    if from < 0 || from >= text.len() {
        text.len() as int
    } else if text[from] == '`' {
        from
    } else {
        next_tick(text, from + 1)
    }
}

/// The field that the message of a decoder names: what stands between the
/// first two backticks, as in ``missing field `Size` at line 1``. It is
/// empty when the message names no field.
pub open spec fn named_field(message: Seq<char>) -> Seq<char> {
    let open = next_tick(message, 0);
    let close = next_tick(message, open + 1);
    if open < message.len() && close < message.len() {
        message.subrange(open + 1, close)
    } else {
        Seq::empty()
    }
}

/// Position of the first backtick of `text` at or after `from`.
fn find_tick(text: &str, from: usize) -> (position: usize)
    requires
        from <= text@.len(),
    ensures
        position == next_tick(text@, from as int),
        from <= position <= text@.len(),
{
    let len = text.unicode_len();
    let mut position: usize = from;
    while position < len
        invariant
            len == text@.len(),
            from <= position <= len,
            next_tick(text@, position as int) == next_tick(text@, from as int),
        decreases len - position,
    {
        if text.get_char(position) == '`' {
            return position;
        }
        position = position + 1;
    }
    position
}

impl DecodeError {
    /// The error for a response that a decoder refused with `message`.
    pub fn from_message(message: &str) -> (error: DecodeError)
        ensures
            error.field@ == named_field(message@),
    {
        let len = message.unicode_len();
        let open = find_tick(message, 0);
        if open < len {
            let close = find_tick(message, open + 1);
            if close < len {
                return DecodeError { field: message.substring_char(open + 1, close).to_owned() };
            }
        }
        DecodeError { field: String::new() }
    }
}

/// The command line did not say what to do.
#[derive(Debug, PartialEq, Eq)]
pub struct ConfigError {
    /// Name of the required argument that was missing.
    pub argument: String,
}

/// Why an operation failed.
#[derive(Debug, PartialEq, Eq)]
pub enum ClientError {
    /// The local file failed.
    Io(IoError),
    /// A block could not be transferred.
    Block(BlockFailure),
    /// The metadata authority could not be asked.
    Metadata(TransferError),
    /// The metadata authority answered in an unexpected shape.
    Decode(DecodeError),
    /// A required argument was missing.
    Config(ConfigError),
}

/// A `ClientError` as a mathematical value.
pub enum ClientErrorModel {
    Io(IoError),
    Block(BlockFailureModel),
    Metadata(TransferError),
    Decode(Seq<char>),
    Config(Seq<char>),
}

impl View for ClientError {
    type V = ClientErrorModel;

    open spec fn view(&self) -> ClientErrorModel {
        match *self {
            ClientError::Io(error) => ClientErrorModel::Io(error),
            ClientError::Block(failure) => ClientErrorModel::Block(failure@),
            ClientError::Metadata(kind) => ClientErrorModel::Metadata(kind),
            ClientError::Decode(error) => ClientErrorModel::Decode(error.field@),
            ClientError::Config(error) => ClientErrorModel::Config(error.argument@),
        }
    }
}

/// The model of an optional error.
pub open spec fn error_of(error: Option<ClientError>) -> Option<ClientErrorModel> {
    match error {
        Some(e) => Some(e@),
        None => None,
    }
}

/// The direction of a transfer.
#[derive(Clone, Copy, Debug, PartialEq, Eq, Structural)]
pub enum Flow {
    Upload,
    Download,
}

/// What a failure does to the operation it occurs in.
#[derive(Clone, Copy, Debug, PartialEq, Eq, Structural)]
pub enum Disposition {
    /// The operation stops at once; nothing further is attempted.
    Abort,
    /// The block is left out and the operation goes on with the next one.
    SkipBlock,
}

/// The failure policy: a read that loses a block goes on without it; every
/// other failure ends the operation.
pub open spec fn disposition_of(flow: Flow, error: ClientErrorModel) -> Disposition {
    if flow == Flow::Download && error is Block {
        Disposition::SkipBlock
    } else {
        Disposition::Abort
    }
}

/// What `error` does to an operation in direction `flow`.
pub fn disposition(flow: Flow, error: &ClientError) -> (outcome: Disposition)
    ensures
        outcome == disposition_of(flow, error@),
{
    match (flow, error) {
        (Flow::Download, ClientError::Block(_)) => Disposition::SkipBlock,
        _ => Disposition::Abort,
    }
}

/// The process exit code of each kind of failure.
pub open spec fn exit_code_of(error: ClientErrorModel) -> u8 {
    match error {
        ClientErrorModel::Config(_) => 2,
        ClientErrorModel::Io(_) => 3,
        ClientErrorModel::Decode(_) => 4,
        ClientErrorModel::Metadata(kind) => transfer_code(kind),
        ClientErrorModel::Block(failure) => transfer_code(failure.kind),
    }
}

/// The exit code of a failed remote call.
pub open spec fn transfer_code(kind: TransferError) -> u8 {
    match kind {
        TransferError::Unreachable => 5,
        TransferError::NotFound => 6,
        TransferError::Malformed => 7,
        TransferError::Timeout => 8,
    }
}

/// The exit code with which a process that failed with `error` should end.
/// It is never zero, and failures of different kinds have different codes.
pub fn exit_code(error: &ClientError) -> (code: u8)
    ensures
        code == exit_code_of(error@),
        2 <= code <= 8,
{
    match error {
        ClientError::Config(_) => 2,
        ClientError::Io(_) => 3,
        ClientError::Decode(_) => 4,
        ClientError::Metadata(kind) => transfer_exit_code(*kind),
        ClientError::Block(failure) => transfer_exit_code(failure.kind),
    }
}

fn transfer_exit_code(kind: TransferError) -> (code: u8)
    ensures
        code == transfer_code(kind),
{
    match kind {
        TransferError::Unreachable => 5,
        TransferError::NotFound => 6,
        TransferError::Malformed => 7,
        TransferError::Timeout => 8,
    }
}

/// How a failed remote call is named in a message.
pub open spec fn kind_text(kind: TransferError) -> Seq<char> {
    match kind {
        TransferError::Unreachable => "unreachable"@,
        TransferError::NotFound => "block not found"@,
        TransferError::Malformed => "malformed response"@,
        TransferError::Timeout => "timed out"@,
    }
}

/// How the consequence of a failure is named in a message.
pub open spec fn disposition_text(outcome: Disposition) -> Seq<char> {
    match outcome {
        Disposition::Abort => "operation aborted"@,
        Disposition::SkipBlock => "block skipped, operation continues"@,
    }
}

/// The message for a failed block: its identifier, the address that was
/// tried, what went wrong, and what that does to the transfer.
pub open spec fn block_failure_text(flow: Flow, failure: BlockFailureModel) -> Seq<char> {
    "block "@ + failure.block_id + " at "@ + (match failure.address {
        Some(address) => address,
        None => "no address"@,
    }) + ": "@ + kind_text(failure.kind) + "; "@ + disposition_text(
        disposition_of(flow, ClientErrorModel::Block(failure)),
    )
}

impl BlockFailure {
    /// The message that tells a user of this failure in a transfer in
    /// direction `flow`.
    pub fn message(&self, flow: Flow) -> (text: String)
        ensures
            text@ == block_failure_text(flow, self@),
    {
        let mut text = String::from_str("block ");
        text.append(self.block_id.as_str());
        text.append(" at ");
        match &self.address {
            Some(address) => {
                text.append(address.as_str());
            },
            None => {
                text.append("no address");
            },
        }
        text.append(": ");
        text.append(
            match self.kind {
                TransferError::Unreachable => "unreachable",
                TransferError::NotFound => "block not found",
                TransferError::Malformed => "malformed response",
                TransferError::Timeout => "timed out",
            },
        );
        text.append("; ");
        text.append(
            match flow {
                Flow::Upload => "operation aborted",
                Flow::Download => "block skipped, operation continues",
            },
        );
        text
    }
}

/// How a failure of the local file is named in a message.
pub open spec fn io_text(error: IoError) -> Seq<char> {
    match error {
        IoError::Open => "Failed to open file"@,
        IoError::Metadata => "Failed to read file metadata"@,
        IoError::Seek => "Failed to seek in file"@,
        IoError::Read => "Failed to read file block"@,
        IoError::ShortRead => "File ended before the block did"@,
        IoError::Write => "Failed to write file"@,
    }
}

/// How a failed request to the metadata authority is named in a message.
pub open spec fn metadata_text(kind: TransferError) -> Seq<char> {
    match kind {
        TransferError::Timeout => "Request timed out. Please try again."@,
        _ => "An error occurred: "@ + kind_text(kind),
    }
}

/// The message for a failure in an operation in direction `flow`: what
/// failed, and, after a semicolon, what that does to the operation.
pub open spec fn error_text(flow: Flow, error: ClientErrorModel) -> Seq<char> {
    match error {
        ClientErrorModel::Block(failure) => block_failure_text(flow, failure),
        ClientErrorModel::Io(e) => io_text(e) + "; "@ + disposition_text(Disposition::Abort),
        ClientErrorModel::Metadata(kind) => metadata_text(kind) + "; "@ + disposition_text(
            Disposition::Abort,
        ),
        ClientErrorModel::Decode(field) => "Failed to decode response: "@ + field + "; "@
            + disposition_text(Disposition::Abort),
        ClientErrorModel::Config(argument) => "Required argument missing: "@ + argument + "; "@
            + disposition_text(Disposition::Abort),
    }
}

impl ClientError {
    /// The message that tells a user of this failure in an operation in
    /// direction `flow`.
    pub fn message(&self, flow: Flow) -> (text: String)
        ensures
            text@ == error_text(flow, self@),
    {
        let mut text = match self {
            ClientError::Block(failure) => {
                return failure.message(flow);
            },
            ClientError::Io(e) => String::from_str(
                match e {
                    IoError::Open => "Failed to open file",
                    IoError::Metadata => "Failed to read file metadata",
                    IoError::Seek => "Failed to seek in file",
                    IoError::Read => "Failed to read file block",
                    IoError::ShortRead => "File ended before the block did",
                    IoError::Write => "Failed to write file",
                },
            ),
            ClientError::Metadata(kind) => match kind {
                TransferError::Timeout => String::from_str("Request timed out. Please try again."),
                TransferError::Unreachable => String::from_str("An error occurred: ").concat(
                    "unreachable",
                ),
                TransferError::NotFound => String::from_str("An error occurred: ").concat(
                    "block not found",
                ),
                TransferError::Malformed => String::from_str("An error occurred: ").concat(
                    "malformed response",
                ),
            },
            ClientError::Decode(e) => String::from_str("Failed to decode response: ").concat(
                e.field.as_str(),
            ),
            ClientError::Config(e) => String::from_str("Required argument missing: ").concat(
                e.argument.as_str(),
            ),
        };
        text.append("; ");
        text.append("operation aborted");
        text
    }
}

} // verus!
