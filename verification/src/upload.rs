//! Writing a file to the storage nodes, block by block.
//!
//! An `UploadSession` begins once the file is measured. It cuts the file
//! into ranges, pairs the ranges with the blocks of the placement plan, in
//! order, and walks through the pairs: each block is read from the file,
//! then sent to the first storage node the plan names for it. The first
//! failure ends the upload; later blocks are not touched.

use vstd::prelude::*;
use crate::chunker::{
    block_count,
    block_length,
    block_range,
    lemma_block_bounds,
    num_blocks,
    range_of_block,
    ByteRange,
};
use crate::datanode::{
    add_block_model,
    add_block_url,
    add_block_url_text,
    base64_len,
    classify_reply,
    encodable,
    reply_outcome,
    AddBlockModel,
    AddBlockRequest,
    NodeReply,
};
use crate::errors::{
    error_of,
    BlockFailure,
    BlockFailureModel,
    ClientError,
    ClientErrorModel,
    IoError,
    TransferError,
};
use crate::models::{
    all_blocks_placed,
    plan_of,
    AllocationResponse,
    BlockAssignment,
    BlockDescriptor,
};

verus! {

/// Where an upload stands. The upload of each block has two halves: the
/// block is read, then it is sent.
#[derive(Clone, Copy, Debug, PartialEq, Eq, Structural)]
pub enum UploadState {
    /// The bytes of the block at this index are awaited from the file.
    Reading(usize),
    /// The answer of the storage node that was sent the block at this index
    /// is awaited.
    Sending(usize),
    /// Every block was sent and acknowledged.
    Complete,
    /// A block or the file failed; nothing further is attempted.
    Failed,
}

/// What the caller reports back to an upload.
#[derive(Debug, PartialEq, Eq)]
pub enum UploadEvent {
    /// The range that was asked for was read; these are its bytes.
    BlockRead { data: Vec<u8> },
    /// The file could not be read.
    ReadFailed { error: IoError },
    /// The storage node was called; this is how the call ended.
    SendReply { reply: NodeReply },
}

/// What the caller is to do next for an upload.
#[derive(Debug, PartialEq, Eq)]
pub enum UploadAction {
    /// Seek to the start of `range`, read exactly its length, and report
    /// `BlockRead`, with fewer bytes if the file ends early.
    ReadBlock { index: usize, range: ByteRange },
    /// Post `request` to `url` and report `SendReply`.
    SendBlock { index: usize, url: String, request: AddBlockRequest },
    /// The upload is done: `blocks` blocks are stored.
    Finish { blocks: usize },
    /// The upload has failed; `UploadSession::failure` says why.
    Abort,
    /// The event did not answer the pending action and was not used.
    Unexpected,
}

/// An `UploadAction` as a mathematical value.
pub enum UploadActionModel {
    ReadBlock { index: int, range: ByteRange },
    SendBlock { index: int, url: Seq<char>, request: AddBlockModel },
    Finish { blocks: int },
    Abort,
    Unexpected,
}

impl View for UploadAction {
    type V = UploadActionModel;

    open spec fn view(&self) -> UploadActionModel {
        match *self {
            UploadAction::ReadBlock { index, range } => UploadActionModel::ReadBlock {
                index: index as int,
                range,
            },
            UploadAction::SendBlock { index, url, request } => UploadActionModel::SendBlock {
                index: index as int,
                url: url@,
                request: request@,
            },
            UploadAction::Finish { blocks } => UploadActionModel::Finish { blocks: blocks as int },
            UploadAction::Abort => UploadActionModel::Abort,
            UploadAction::Unexpected => UploadActionModel::Unexpected,
        }
    }
}

/// An upload as a mathematical value.
pub struct UploadModel {
    pub plan: Seq<BlockDescriptor>,
    pub file_size: u64,
    pub block_size: u64,
    pub state: UploadState,
    pub error: Option<ClientErrorModel>,
}

impl UploadModel {
    /// Number of blocks the upload transfers: one for each pair of a range
    /// of the file and a block of the plan.
    pub open spec fn total(self) -> int {
        let ranges = block_count(self.file_size as int, self.block_size as int);
        if self.plan.len() <= ranges {
            self.plan.len() as int
        } else {
            ranges
        }
    }

    /// The upload is one that a session can be in.
    pub open spec fn wf(self) -> bool {
        &&& self.block_size > 0
        &&& base64_len(self.block_size as int) <= usize::MAX
        &&& self.plan.len() <= usize::MAX
        &&& match self.state {
            UploadState::Reading(index) => index < self.total(),
            UploadState::Sending(index) => index < self.total(),
            UploadState::Complete => true,
            UploadState::Failed => true,
        }
    }

    /// The range of block `index`.
    pub open spec fn range(self, index: int) -> ByteRange {
        range_of_block(self.file_size, self.block_size, index)
    }

    /// The upload after it failed with `error`.
    pub open spec fn fail(self, error: ClientErrorModel) -> (UploadModel, UploadActionModel) {
        (
            UploadModel { state: UploadState::Failed, error: Some(error), ..self },
            UploadActionModel::Abort,
        )
    }

    /// The upload as it turns to block `next`, or ends when there is none.
    pub open spec fn proceed(self, next: int) -> (UploadModel, UploadActionModel) {
        if next < self.total() {
            (
                UploadModel { state: UploadState::Reading(next as usize), ..self },
                UploadActionModel::ReadBlock { index: next, range: self.range(next) },
            )
        } else {
            (
                UploadModel { state: UploadState::Complete, ..self },
                UploadActionModel::Finish { blocks: self.total() },
            )
        }
    }

    /// The failure of block `index` with `kind`.
    pub open spec fn block_failure(self, index: int, kind: TransferError) -> ClientErrorModel {
        ClientErrorModel::Block(
            BlockFailureModel {
                index,
                block_id: self.plan[index].block_id,
                address: self.plan[index].target(),
                kind,
            },
        )
    }

    /// What the bytes read for block `index` lead to: a short or overlong
    /// read and a block without a storage node end the upload; otherwise
    /// the bytes are sent.
    pub open spec fn after_read(self, index: int, data: Seq<u8>) -> (
        UploadModel,
        UploadActionModel,
    ) {
        let expected = block_length(self.file_size as int, self.block_size as int, index);
        if data.len() < expected {
            self.fail(ClientErrorModel::Io(IoError::ShortRead))
        } else if data.len() > expected {
            self.fail(ClientErrorModel::Io(IoError::Read))
        } else {
            match self.plan[index].target() {
                None => self.fail(self.block_failure(index, TransferError::Unreachable)),
                Some(address) => (
                    UploadModel { state: UploadState::Sending(index as usize), ..self },
                    UploadActionModel::SendBlock {
                        index,
                        url: add_block_url_text(address),
                        request: add_block_model(self.plan[index].block_id, data),
                    },
                ),
            }
        }
    }

    /// The transition of the upload on `event`: the upload after it, and
    /// what is to be done next.
    pub open spec fn step(self, event: UploadEvent) -> (UploadModel, UploadActionModel) {
        match self.state {
            UploadState::Reading(index) => match event {
                UploadEvent::BlockRead { data } => self.after_read(index as int, data@),
                UploadEvent::ReadFailed { error } => self.fail(ClientErrorModel::Io(error)),
                UploadEvent::SendReply { .. } => (self, UploadActionModel::Unexpected),
            },
            UploadState::Sending(index) => match event {
                UploadEvent::SendReply { reply } => match reply_outcome(reply) {
                    Ok(_) => self.proceed(index + 1),
                    Err(kind) => self.fail(self.block_failure(index as int, kind)),
                },
                _ => (self, UploadActionModel::Unexpected),
            },
            UploadState::Complete => (self, UploadActionModel::Finish { blocks: self.total() }),
            UploadState::Failed => (self, UploadActionModel::Abort),
        }
    }

    /// The upload after a sequence of events, and the actions that were
    /// handed out along the way, one for each event.
    pub open spec fn run(self, events: Seq<UploadEvent>) -> (UploadModel, Seq<UploadActionModel>)
        decreases events.len(),
    {
        if events.len() == 0 {
            (self, Seq::empty())
        } else {
            let (next, action) = self.step(events[0]);
            let (last, actions) = next.run(events.drop_first());
            (last, seq![action] + actions)
        }
    }
}

/// The upload of a file of `file_size` bytes under `plan`, as it begins,
/// and its first action.
pub open spec fn upload_start(plan: Seq<BlockDescriptor>, file_size: u64, block_size: u64) -> (
    UploadModel,
    UploadActionModel,
) {
    (UploadModel { plan, file_size, block_size, state: UploadState::Complete, error: None }).proceed(
        0,
    )
}

/// Whether a file can be uploaded in blocks of `block_size` bytes: a block
/// holds at least one byte, and the base64 text of a whole block fits in
/// memory.
pub fn usable_block_size(block_size: u64) -> (ok: bool)
    ensures
        ok == (block_size > 0 && base64_len(block_size as int) <= usize::MAX),
{
    block_size > 0 && block_size <= usize::MAX as u64 && encodable(block_size as usize)
}

/// An upload in progress.
pub struct UploadSession {
    plan: Vec<BlockAssignment>,
    file_size: u64,
    block_size: u64,
    total: usize,
    state: UploadState,
    error: Option<ClientError>,
}

impl View for UploadSession {
    type V = UploadModel;

    closed spec fn view(&self) -> UploadModel {
        UploadModel {
            plan: plan_of(self.plan@),
            file_size: self.file_size,
            block_size: self.block_size,
            state: self.state,
            error: error_of(self.error),
        }
    }
}

impl UploadSession {
    #[verifier::type_invariant]
    spec fn inv(self) -> bool {
        &&& self@.wf()
        &&& self.total == self@.total()
    }

    /// Begins the upload of a file of `file_size` bytes under `plan`.
    ///
    /// A block must be small enough for its base64 text to fit in memory.
    pub fn new(plan: AllocationResponse, file_size: u64, block_size: u64) -> (started: (
        UploadSession,
        UploadAction,
    ))
        requires
            block_size > 0,
            base64_len(block_size as int) <= usize::MAX,
        ensures
            started.0@ == upload_start(plan@, file_size, block_size).0,
            started.1@ == upload_start(plan@, file_size, block_size).1,
            started.0@.wf(),
    {
        let blocks = plan.block_assignments;
        let ranges = num_blocks(file_size, block_size);
        let total = if blocks.len() as u64 <= ranges {
            blocks.len()
        } else {
            ranges as usize
        };
        let mut session = UploadSession {
            plan: blocks,
            file_size,
            block_size,
            total,
            state: UploadState::Complete,
            error: None,
        };
        let action = session.proceed(0);
        (session, action)
    }

    /// Turns to block `next`, or ends the upload when there is none.
    fn proceed(&mut self, next: usize) -> (action: UploadAction)
        requires
            next <= old(self).total,
        ensures
            final(self)@ == old(self)@.proceed(next as int).0,
            action@ == old(self)@.proceed(next as int).1,
    {
        proof {
            use_type_invariant(&*self);
        }
        if next < self.total {
            let range = block_range(self.file_size, self.block_size, next as u64);
            self.state = UploadState::Reading(next);
            UploadAction::ReadBlock { index: next, range }
        } else {
            self.state = UploadState::Complete;
            UploadAction::Finish { blocks: self.total }
        }
    }

    /// Ends the upload with `error`.
    fn fail(&mut self, error: ClientError) -> (action: UploadAction)
        ensures
            final(self)@ == old(self)@.fail(error@).0,
            action@ == old(self)@.fail(error@).1,
    {
        proof {
            use_type_invariant(&*self);
        }
        self.error = Some(error);
        self.state = UploadState::Failed;
        UploadAction::Abort
    }

    /// The failure of block `index` with `kind`.
    fn block_failure(&self, index: usize, kind: TransferError) -> (error: ClientError)
        requires
            index < self@.plan.len(),
        ensures
            error@ == self@.block_failure(index as int, kind),
    {
        let block = &self.plan[index];
        let address = match block.target() {
            Some(a) => Some(a.clone()),
            None => None,
        };
        ClientError::Block(BlockFailure { index, block_id: block.block_id.clone(), address, kind })
    }

    /// Takes the bytes read for block `index`.
    fn after_read(&mut self, index: usize, data: Vec<u8>) -> (action: UploadAction)
        requires
            old(self).state == UploadState::Reading(index),
        ensures
            final(self)@ == old(self)@.after_read(index as int, data@).0,
            action@ == old(self)@.after_read(index as int, data@).1,
    {
        proof {
            use_type_invariant(&*self);
            lemma_block_bounds(self.file_size as int, self.block_size as int, index as int);
        }
        let expected = block_range(self.file_size, self.block_size, index as u64).length;
        if (data.len() as u64) < expected {
            return self.fail(ClientError::Io(IoError::ShortRead));
        }
        if data.len() as u64 > expected {
            return self.fail(ClientError::Io(IoError::Read));
        }
        let block = &self.plan[index];
        match block.target() {
            None => {
                let error = self.block_failure(index, TransferError::Unreachable);
                self.fail(error)
            },
            Some(address) => {
                let url = add_block_url(address.as_str());
                let request = AddBlockRequest::new(block.block_id.as_str(), data.as_slice());
                self.state = UploadState::Sending(index);
                UploadAction::SendBlock { index, url, request }
            },
        }
    }

    /// Takes what the caller reports and says what to do next.
    ///
    /// A block that was read in full is sent; a block that was stored is
    /// followed by the next one. A file that cannot be read, a block that
    /// comes short, a block without a storage node and a storage node that
    /// does not store the block each end the upload. Once it has ended, the
    /// session stays as it is, whatever is reported.
    pub fn step(&mut self, event: UploadEvent) -> (action: UploadAction)
        ensures
            final(self)@ == old(self)@.step(event).0,
            action@ == old(self)@.step(event).1,
            final(self)@.wf(),
    {
        proof {
            use_type_invariant(&*self);
        }
        let action = match self.state {
            UploadState::Reading(index) => match event {
                UploadEvent::BlockRead { data } => self.after_read(index, data),
                UploadEvent::ReadFailed { error } => self.fail(ClientError::Io(error)),
                UploadEvent::SendReply { .. } => UploadAction::Unexpected,
            },
            UploadState::Sending(index) => match event {
                UploadEvent::SendReply { reply } => match classify_reply(reply) {
                    Ok(_) => self.proceed(index + 1),
                    Err(kind) => {
                        let error = self.block_failure(index, kind);
                        self.fail(error)
                    },
                },
                _ => UploadAction::Unexpected,
            },
            UploadState::Complete => UploadAction::Finish { blocks: self.total },
            UploadState::Failed => UploadAction::Abort,
        };
        proof {
            use_type_invariant(&*self);
        }
        action
    }

    /// Where the upload stands.
    pub fn state(&self) -> (state: UploadState)
        ensures
            state == self@.state,
    {
        self.state
    }

    /// Number of blocks the upload transfers in all.
    pub fn total_blocks(&self) -> (total: usize)
        ensures
            total == self@.total(),
    {
        proof {
            use_type_invariant(self);
        }
        self.total
    }

    /// The failure that ended the upload, if one did.
    pub fn failure(&self) -> (error: Option<&ClientError>)
        ensures
            self@.error == match error {
                Some(e) => Some(e@),
                None => None,
            },
    {
        self.error.as_ref()
    }

    /// Ends the session and hands over the failure that ended the upload,
    /// if one did.
    pub fn into_failure(self) -> (error: Option<ClientError>)
        ensures
            error_of(error) == self@.error,
    {
        self.error
    }
}

/// A failed upload is final: whatever is reported to it, it stays as it is
/// and hands out `Abort`, so that no block is read or sent any more.
pub proof fn lemma_failed_upload_is_final(m: UploadModel, events: Seq<UploadEvent>)
    requires
        m.state is Failed,
    ensures
        m.run(events).0 == m,
        m.run(events).1.len() == events.len(),
        forall|j: int| 0 <= j < events.len() ==> (#[trigger] m.run(events).1[j]) is Abort,
    decreases events.len(),
{
    if events.len() > 0 {
        let rest = events.drop_first();
        lemma_failed_upload_is_final(m, rest);
        assert(m.step(events[0]) == (m, UploadActionModel::Abort));
        assert(m.run(events).1 == seq![UploadActionModel::Abort] + m.run(rest).1);
        assert forall|j: int| 0 <= j < events.len() implies (#[trigger] m.run(events).1[j])
            is Abort by {
            if j > 0 {
                assert(m.run(events).1[j] == m.run(rest).1[j - 1]);
            }
        }
    }
}

/// An upload aborts on the first block that is not stored. When the storage
/// node of block `k` fails, the upload is failed at once, its error names
/// block `k` by index, identifier and address, with the kind of failure that
/// the reply amounts to; and from then on, whatever is reported, the only
/// action is `Abort`: the blocks after `k` are never read or sent.
pub proof fn lemma_upload_abort(m: UploadModel, k: usize, reply: NodeReply, later: Seq<UploadEvent>)
    requires
        m.wf(),
        m.state == UploadState::Sending(k),
        reply_outcome(reply) is Err,
    ensures
        ({
            let (failed, action) = m.step(UploadEvent::SendReply { reply });
            &&& action is Abort
            &&& failed.state is Failed
            &&& failed.error == Some(
                ClientErrorModel::Block(
                    BlockFailureModel {
                        index: k as int,
                        block_id: m.plan[k as int].block_id,
                        address: m.plan[k as int].target(),
                        kind: reply_outcome(reply)->Err_0,
                    },
                ),
            )
            &&& failed.run(later).0 == failed
            &&& failed.run(later).1.len() == later.len()
            &&& forall|j: int|
                0 <= j < later.len() ==> (#[trigger] failed.run(later).1[j]) is Abort
        }),
{
    let failed = m.step(UploadEvent::SendReply { reply }).0;
    lemma_failed_upload_is_final(failed, later);
}

/// A file or a block of it that cannot be read ends the upload at once, in
/// whatever state of reading it is reported.
pub proof fn lemma_upload_read_failure_aborts(m: UploadModel, k: usize, error: IoError)
    requires
        m.state == UploadState::Reading(k),
    ensures
        m.step(UploadEvent::ReadFailed { error }).0.state is Failed,
        m.step(UploadEvent::ReadFailed { error }).0.error == Some(ClientErrorModel::Io(error)),
        m.step(UploadEvent::ReadFailed { error }).1 is Abort,
{
}

/// The events of an upload in which nothing fails, from block `from` on:
/// for each block, the bytes that were read, then the reply of its storage
/// node.
pub open spec fn upload_reports(reads: Seq<Vec<u8>>, replies: Seq<NodeReply>, from: int) -> Seq<
    UploadEvent,
> {
    Seq::new(
        (2 * (reads.len() - from)) as nat,
        |j: int|
            if j % 2 == 0 {
                UploadEvent::BlockRead { data: reads[from + j / 2] }
            } else {
                UploadEvent::SendReply { reply: replies[from + j / 2] }
            },
    )
}

/// What an upload in which nothing fails does in answer to event `position`
/// of `upload_reports`: in answer to the bytes of a block, it sends them,
/// under the identifier of the block, to the first storage node of the
/// block; in answer to the reply of the storage node, it turns to the next
/// block, or finishes after the last.
pub open spec fn planned_upload_action(m: UploadModel, reads: Seq<Vec<u8>>, position: int)
    -> UploadActionModel {
    let index = position / 2;
    if position % 2 == 0 {
        UploadActionModel::SendBlock {
            index,
            url: add_block_url_text(m.plan[index].candidate_addresses[0]),
            request: add_block_model(m.plan[index].block_id, reads[index]@),
        }
    } else {
        m.proceed(index + 1).1
    }
}

/// From block `index` on, an upload in which every read gives as many bytes
/// as the range holds and every storage node stores its block sends every
/// block once, in plan order, with the bytes that were read for it, and
/// completes.
pub proof fn lemma_upload_blocks(
    m: UploadModel,
    index: int,
    reads: Seq<Vec<u8>>,
    replies: Seq<NodeReply>,
)
    requires
        m.wf(),
        all_blocks_placed(m.plan),
        reads.len() == m.total(),
        replies.len() == m.total(),
        0 <= index < m.total(),
        m.state == UploadState::Reading(index as usize),
        forall|k: int|
            index <= k < m.total() ==> (#[trigger] reads[k])@.len() == block_length(
                m.file_size as int,
                m.block_size as int,
                k,
            ),
        forall|k: int| index <= k < m.total() ==> reply_outcome(#[trigger] replies[k]) is Ok,
    ensures
        ({
            let (end, actions) = m.run(upload_reports(reads, replies, index));
            &&& end == (UploadModel { state: UploadState::Complete, ..m })
            &&& actions.len() == 2 * (m.total() - index)
            &&& forall|j: int|
                0 <= j < actions.len() ==> #[trigger] actions[j] == planned_upload_action(
                    m,
                    reads,
                    2 * index + j,
                )
        }),
    decreases m.total() - index,
{
    let events = upload_reports(reads, replies, index);
    let after_read = events.drop_first();
    let rest = after_read.drop_first();
    assert(events[0] == UploadEvent::BlockRead { data: reads[index] });
    assert(events[1] == UploadEvent::SendReply { reply: replies[index] });
    assert(after_read[0] == events[1]);
    let (sending, send) = m.step(events[0]);
    assert(reads[index]@.len() == block_length(m.file_size as int, m.block_size as int, index));
    assert(m.plan[index].candidate_addresses.len() > 0);
    assert(send == planned_upload_action(m, reads, 2 * index));
    let (next, turn) = sending.step(after_read[0]);
    assert(reply_outcome(replies[index]) is Ok);
    assert((next, turn) == sending.proceed(index + 1));
    assert(turn == planned_upload_action(m, reads, 2 * index + 1));
    assert(rest =~= upload_reports(reads, replies, index + 1));
    let (end, actions) = m.run(events);
    assert(sending.run(after_read).1 == seq![turn] + next.run(rest).1);
    assert(actions == seq![send] + sending.run(after_read).1);
    if index + 1 < m.total() {
        lemma_upload_blocks(next, index + 1, reads, replies);
        let later = next.run(rest).1;
        assert forall|j: int| 0 <= j < actions.len() implies #[trigger] actions[j]
            == planned_upload_action(m, reads, 2 * index + j) by {
            if j > 1 {
                assert(actions[j] == later[j - 2]);
                assert(later[j - 2] == planned_upload_action(
                    next,
                    reads,
                    2 * (index + 1) + (j - 2),
                ));
            }
        }
    } else {
        assert(rest.len() == 0);
        assert(next.run(rest) == (next, Seq::<UploadActionModel>::empty()));
    }
}

/// An upload in which nothing fails stores the whole file. Under a plan
/// whose blocks all have a storage node, when every read gives as many
/// bytes as its range holds and every storage node stores its block, the
/// upload first asks for block zero, then sends every block once, in plan
/// order, with the bytes that were read for it, and completes without an
/// error.
pub proof fn lemma_upload_completes(
    plan: Seq<BlockDescriptor>,
    file_size: u64,
    block_size: u64,
    reads: Seq<Vec<u8>>,
    replies: Seq<NodeReply>,
)
    requires
        block_size > 0,
        base64_len(block_size as int) <= usize::MAX,
        plan.len() <= usize::MAX,
        all_blocks_placed(plan),
        reads.len() == upload_start(plan, file_size, block_size).0.total(),
        replies.len() == reads.len(),
        forall|k: int|
            0 <= k < reads.len() ==> (#[trigger] reads[k])@.len() == block_length(
                file_size as int,
                block_size as int,
                k,
            ),
        forall|k: int| 0 <= k < reads.len() ==> reply_outcome(#[trigger] replies[k]) is Ok,
    ensures
        ({
            let (start, first) = upload_start(plan, file_size, block_size);
            let (end, actions) = start.run(upload_reports(reads, replies, 0));
            &&& start.wf()
            &&& first == start.proceed(0).1
            &&& end.state is Complete
            &&& end.error is None
            &&& actions.len() == 2 * start.total()
            &&& forall|j: int|
                0 <= j < actions.len() ==> #[trigger] actions[j] == planned_upload_action(
                    start,
                    reads,
                    j,
                )
        }),
{
    let (start, first) = upload_start(plan, file_size, block_size);
    let events = upload_reports(reads, replies, 0);
    if start.total() > 0 {
        lemma_upload_blocks(start, 0, reads, replies);
    } else {
        assert(events.len() == 0);
        assert(start.run(events) == (start, Seq::<UploadActionModel>::empty()));
    }
}

/// From block `index` on, an upload whose blocks are stored up to block `k`
/// and whose block `k` is not: the blocks before `k` are sent and stored,
/// block `k` is sent, and the upload fails with the failure of block `k`.
/// Whatever is reported after that, nothing more is read or sent.
pub proof fn lemma_upload_until_failure(
    m: UploadModel,
    index: int,
    reads: Seq<Vec<u8>>,
    replies: Seq<NodeReply>,
    k: int,
    later: Seq<UploadEvent>,
)
    requires
        m.wf(),
        all_blocks_placed(m.plan),
        0 <= index <= k < m.total(),
        reads.len() == k + 1,
        replies.len() == k + 1,
        m.state == UploadState::Reading(index as usize),
        forall|i: int|
            index <= i <= k ==> (#[trigger] reads[i])@.len() == block_length(
                m.file_size as int,
                m.block_size as int,
                i,
            ),
        forall|i: int| index <= i < k ==> reply_outcome(#[trigger] replies[i]) is Ok,
        reply_outcome(replies[k]) is Err,
    ensures
        ({
            let (end, actions) = m.run(upload_reports(reads, replies, index) + later);
            let sent = 2 * (k - index) + 1;
            &&& end == m.fail(m.block_failure(k, reply_outcome(replies[k])->Err_0)).0
            &&& actions.len() == sent + 1 + later.len()
            &&& forall|j: int|
                0 <= j < sent ==> #[trigger] actions[j] == planned_upload_action(
                    m,
                    reads,
                    2 * index + j,
                )
            &&& forall|j: int| sent <= j < actions.len() ==> (#[trigger] actions[j]) is Abort
        }),
    decreases k - index,
{
    let events = upload_reports(reads, replies, index) + later;
    let after_read = events.drop_first();
    let rest = after_read.drop_first();
    assert(events[0] == UploadEvent::BlockRead { data: reads[index] });
    assert(events[1] == UploadEvent::SendReply { reply: replies[index] });
    assert(after_read[0] == events[1]);
    let (sending, send) = m.step(events[0]);
    assert(reads[index]@.len() == block_length(m.file_size as int, m.block_size as int, index));
    assert(m.plan[index].candidate_addresses.len() > 0);
    assert(send == planned_upload_action(m, reads, 2 * index));
    let (next, turn) = sending.step(after_read[0]);
    assert(rest =~= upload_reports(reads, replies, index + 1) + later);
    let (end, actions) = m.run(events);
    assert(sending.run(after_read).1 == seq![turn] + next.run(rest).1);
    assert(actions == seq![send] + sending.run(after_read).1);
    let after = next.run(rest).1;
    let sent = 2 * (k - index) + 1;
    if index < k {
        assert(reply_outcome(replies[index]) is Ok);
        assert((next, turn) == sending.proceed(index + 1));
        assert(turn == planned_upload_action(m, reads, 2 * index + 1));
        lemma_upload_until_failure(next, index + 1, reads, replies, k, later);
        assert forall|j: int| 0 <= j < sent implies #[trigger] actions[j]
            == planned_upload_action(m, reads, 2 * index + j) by {
            if j > 1 {
                assert(actions[j] == after[j - 2]);
                assert(after[j - 2] == planned_upload_action(
                    next,
                    reads,
                    2 * (index + 1) + (j - 2),
                ));
            }
        }
        assert forall|j: int| sent <= j < actions.len() implies (#[trigger] actions[j])
            is Abort by {
            assert(actions[j] == after[j - 2]);
        }
    } else {
        assert(upload_reports(reads, replies, index + 1) =~= Seq::<UploadEvent>::empty());
        assert(rest =~= later);
        assert(turn is Abort);
        lemma_failed_upload_is_final(next, later);
        assert forall|j: int| sent <= j < actions.len() implies (#[trigger] actions[j])
            is Abort by {
            if j > 1 {
                assert(actions[j] == after[j - 2]);
            }
        }
    }
}

/// An upload aborts at the first block that is not stored. When the blocks
/// before block `k` are stored and block `k` is not, the upload sends the
/// blocks up to `k`, each once and in plan order, and then fails; its error
/// names block `k` by index, identifier and address, with the kind of
/// failure that the reply amounts to. Whatever is reported after that, the
/// only action is `Abort`: the blocks after `k` are never read or sent.
pub proof fn lemma_upload_aborts_at_first_failure(
    plan: Seq<BlockDescriptor>,
    file_size: u64,
    block_size: u64,
    reads: Seq<Vec<u8>>,
    replies: Seq<NodeReply>,
    k: int,
    later: Seq<UploadEvent>,
)
    requires
        block_size > 0,
        base64_len(block_size as int) <= usize::MAX,
        plan.len() <= usize::MAX,
        all_blocks_placed(plan),
        0 <= k < upload_start(plan, file_size, block_size).0.total(),
        reads.len() == k + 1,
        replies.len() == k + 1,
        forall|i: int|
            0 <= i <= k ==> (#[trigger] reads[i])@.len() == block_length(
                file_size as int,
                block_size as int,
                i,
            ),
        forall|i: int| 0 <= i < k ==> reply_outcome(#[trigger] replies[i]) is Ok,
        reply_outcome(replies[k]) is Err,
    ensures
        ({
            let start = upload_start(plan, file_size, block_size).0;
            let (end, actions) = start.run(upload_reports(reads, replies, 0) + later);
            &&& end.state is Failed
            &&& end.error == Some(
                ClientErrorModel::Block(
                    BlockFailureModel {
                        index: k,
                        block_id: plan[k].block_id,
                        address: Some(plan[k].candidate_addresses[0]),
                        kind: reply_outcome(replies[k])->Err_0,
                    },
                ),
            )
            &&& actions.len() == 2 * k + 2 + later.len()
            &&& forall|j: int|
                0 <= j <= 2 * k ==> #[trigger] actions[j] == planned_upload_action(start, reads, j)
            &&& forall|j: int| 2 * k < j < actions.len() ==> (#[trigger] actions[j]) is Abort
        }),
{
    let start = upload_start(plan, file_size, block_size).0;
    lemma_upload_until_failure(start, 0, reads, replies, k, later);
}

} // verus!
