//! What is said to a storage node, and how its answers are read.
//!
//! A storage node keeps blocks by identifier. A block is written with
//! `POST <address>/addBlock`, its payload sent as base64 text, and read with
//! `GET <address>/getBlock/<identifier>`, which answers with the raw bytes.

use vstd::prelude::*;
use vstd::string::StringExecFns;
use crate::errors::TransferError;

verus! {

/// Length of the padded base64 text of `bytes` bytes: four characters for
/// every three bytes, rounded up.
pub open spec fn base64_len(bytes: int) -> int {
    4 * ((bytes + 2) / 3)
}

/// The standard, padded base64 text of a byte string, as `base64::encode`
/// computes it.
pub uninterp spec fn base64_text(data: Seq<u8>) -> Seq<char>;

/// Calls `base64::encode`, which encodes with the standard alphabet and
/// padding. It panics when the length of the text does not fit in `usize`,
/// which `requires` rules out; the text it returns is what `base64_text`
/// names. Nothing else is claimed of it.
#[verifier::external_body]
#[allow(deprecated)]
fn encode_base64(data: &[u8]) -> (text: String)
    requires
        base64_len(data@.len() as int) <= usize::MAX,
    ensures
        text@ == base64_text(data@),
{
    base64::encode(data)
}

/// Whether a payload of `len` bytes can be encoded on this machine.
pub fn encodable(len: usize) -> (ok: bool)
    ensures
        ok == (base64_len(len as int) <= usize::MAX),
{
    let groups = if len % 3 == 0 {
        len / 3
    } else {
        len / 3 + 1
    };
    groups <= usize::MAX / 4
}

/// The body of a request that writes a block.
#[derive(Debug, PartialEq, Eq)]
pub struct AddBlockRequest {
    /// Identifier under which the node is to keep the block.
    pub block_id: String,
    /// The payload, as base64 text.
    pub data: String,
}

/// An `AddBlockRequest` as a mathematical value.
pub struct AddBlockModel {
    pub block_id: Seq<char>,
    pub data: Seq<char>,
}

impl View for AddBlockRequest {
    type V = AddBlockModel;

    open spec fn view(&self) -> AddBlockModel {
        AddBlockModel { block_id: self.block_id@, data: self.data@ }
    }
}

/// The request that writes `payload` under `block_id`.
pub open spec fn add_block_model(block_id: Seq<char>, payload: Seq<u8>) -> AddBlockModel {
    AddBlockModel { block_id, data: base64_text(payload) }
}

impl AddBlockRequest {
    /// Puts an identifier and an encoded payload together.
    pub fn from_parts(block_id: &str, encoded: String) -> (request: AddBlockRequest)
        ensures
            request@ == (AddBlockModel { block_id: block_id@, data: encoded@ }),
    {
        AddBlockRequest { block_id: block_id.to_owned(), data: encoded }
    }

    /// The request that writes `payload` under `block_id`.
    pub fn new(block_id: &str, payload: &[u8]) -> (request: AddBlockRequest)
        requires
            base64_len(payload@.len() as int) <= usize::MAX,
        ensures
            request@ == add_block_model(block_id@, payload@),
    {
        AddBlockRequest::from_parts(block_id, encode_base64(payload))
    }

    /// The request that writes `payload` under `block_id`, or `None` when
    /// the payload is too long for its text to be held in memory.
    pub fn try_new(block_id: &str, payload: &[u8]) -> (request: Option<AddBlockRequest>)
        ensures
            request.is_some() == (base64_len(payload@.len() as int) <= usize::MAX),
            request matches Some(r) ==> r@ == add_block_model(block_id@, payload@),
    {
        if encodable(payload.len()) {
            Some(AddBlockRequest::new(block_id, payload))
        } else {
            None
        }
    }
}

/// Where a block is written on the node at `address`.
pub open spec fn add_block_url_text(address: Seq<char>) -> Seq<char> {
    address + "/addBlock"@
}

/// Where block `block_id` is read on the node at `address`.
pub open spec fn get_block_url_text(address: Seq<char>, block_id: Seq<char>) -> Seq<char> {
    address + "/getBlock/"@ + block_id
}

/// The URL to which a block is posted on the node at `address`.
pub fn add_block_url(address: &str) -> (url: String)
    ensures
        url@ == add_block_url_text(address@),
{
    String::from_str(address).concat("/addBlock")
}

/// The URL from which block `block_id` is fetched on the node at `address`.
pub fn get_block_url(address: &str, block_id: &str) -> (url: String)
    ensures
        url@ == get_block_url_text(address@, block_id@),
{
    String::from_str(address).concat("/getBlock/").concat(block_id)
}

/// How a call to a remote party ended, as the transport saw it.
#[derive(Debug, PartialEq, Eq)]
pub enum NodeReply {
    /// An answer came, with this HTTP status and body.
    Response { status: u16, body: Vec<u8> },
    /// No connection could be made.
    ConnectFailed,
    /// No answer came in time.
    TimedOut,
    /// An answer began, but its body could not be read to the end.
    BodyUnreadable,
}

/// Whether an HTTP status reports success.
pub open spec fn is_success(status: u16) -> bool {
    200 <= status < 300
}

/// What a reply amounts to: the body of a successful answer, or the kind of
/// failure. A status of 404 means the block is unknown; any other status
/// that is not a success is an answer that cannot be used.
pub open spec fn reply_outcome(reply: NodeReply) -> Result<Seq<u8>, TransferError> {
    match reply {
        NodeReply::Response { status, body } => {
            if is_success(status) {
                Ok(body@)
            } else if status == 404 {
                Err(TransferError::NotFound)
            } else {
                Err(TransferError::Malformed)
            }
        },
        NodeReply::ConnectFailed => Err(TransferError::Unreachable),
        NodeReply::TimedOut => Err(TransferError::Timeout),
        NodeReply::BodyUnreadable => Err(TransferError::Malformed),
    }
}

/// Reads a reply: the bytes that came with a successful answer, or why
/// there are none.
pub fn classify_reply(reply: NodeReply) -> (outcome: Result<Vec<u8>, TransferError>)
    ensures
        match outcome {
            Ok(body) => reply_outcome(reply) == Ok::<Seq<u8>, TransferError>(body@),
            Err(kind) => reply_outcome(reply) == Err::<Seq<u8>, TransferError>(kind),
        },
{
    match reply {
        NodeReply::Response { status, body } => {
            if 200 <= status && status < 300 {
                Ok(body)
            } else if status == 404 {
                Err(TransferError::NotFound)
            } else {
                Err(TransferError::Malformed)
            }
        },
        NodeReply::ConnectFailed => Err(TransferError::Unreachable),
        NodeReply::TimedOut => Err(TransferError::Timeout),
        NodeReply::BodyUnreadable => Err(TransferError::Malformed),
    }
}

} // verus!
