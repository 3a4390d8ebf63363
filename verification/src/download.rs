//! Reading a file back from the storage nodes, block by block.
//!
//! A `DownloadSession` asks the metadata authority for the plan of a file,
//! fetches each block from the first storage node the plan names for it,
//! joins what arrives in plan order, and has the result written. A block
//! that cannot be fetched is left out and recorded; the read goes on.

use vstd::prelude::*;
use crate::datanode::{classify_reply, get_block_url, get_block_url_text, reply_outcome, NodeReply};
use crate::errors::{
    error_of,
    BlockFailure,
    BlockFailureModel,
    ClientError,
    ClientErrorModel,
    DecodeError,
    IoError,
    TransferError,
};
use crate::metadata::{file_blocks_url, file_blocks_url_text};
use crate::models::{
    all_blocks_placed,
    plan_of,
    AllocationResponse,
    BlockAssignment,
    BlockDescriptor,
};

verus! {

/// Where a download stands.
#[derive(Clone, Copy, Debug, PartialEq, Eq, Structural)]
pub enum DownloadState {
    /// The plan of the file is awaited.
    Init,
    /// The answer of the storage node for the block at this index is
    /// awaited.
    PerBlockDownload(usize),
    /// Every block was asked for; the joined bytes are being written.
    Concatenated,
    /// The joined bytes are written.
    WrittenToDisk,
    /// The plan could not be had, or the result could not be written.
    Failed,
}

/// What the caller reports back to a download.
#[derive(Debug, PartialEq, Eq)]
pub enum DownloadEvent {
    /// The metadata authority answered with this plan.
    PlanFetched { plan: AllocationResponse },
    /// The metadata authority could not be asked.
    PlanUnavailable { kind: TransferError },
    /// The metadata authority answered, but not with a plan.
    PlanUndecodable { reason: DecodeError },
    /// The storage node was called; this is how the call ended.
    BlockReply { reply: NodeReply },
    /// The destination was written.
    Written,
    /// The destination could not be written.
    WriteFailed { error: IoError },
}

/// What the caller is to do next for a download.
#[derive(Debug, PartialEq, Eq)]
pub enum DownloadAction {
    /// Get `url`, decode the plan, and report `PlanFetched`.
    FetchPlan { url: String },
    /// Get `url` and report `BlockReply`.
    FetchBlock { index: usize, url: String },
    /// Write the bytes of `DownloadSession::data` to `path` and report
    /// `Written`.
    WriteFile { path: String },
    /// The download is done; `DownloadSession::failures` lists the blocks
    /// that are missing from what was written.
    Finish,
    /// The download has failed; `DownloadSession::failure` says why.
    Abort,
    /// The event did not answer the pending action and was not used.
    Unexpected,
}

/// A `DownloadAction` as a mathematical value.
pub enum DownloadActionModel {
    FetchPlan { url: Seq<char> },
    FetchBlock { index: int, url: Seq<char> },
    WriteFile { path: Seq<char> },
    Finish,
    Abort,
    Unexpected,
}

impl View for DownloadAction {
    type V = DownloadActionModel;

    open spec fn view(&self) -> DownloadActionModel {
        match *self {
            DownloadAction::FetchPlan { url } => DownloadActionModel::FetchPlan { url: url@ },
            DownloadAction::FetchBlock { index, url } => DownloadActionModel::FetchBlock {
                index: index as int,
                url: url@,
            },
            DownloadAction::WriteFile { path } => DownloadActionModel::WriteFile { path: path@ },
            DownloadAction::Finish => DownloadActionModel::Finish,
            DownloadAction::Abort => DownloadActionModel::Abort,
            DownloadAction::Unexpected => DownloadActionModel::Unexpected,
        }
    }
}

/// The models of a sequence of block failures.
pub open spec fn failures_of(failures: Seq<BlockFailure>) -> Seq<BlockFailureModel> {
    Seq::new(failures.len(), |i: int| failures[i]@)
}

/// A download as a mathematical value.
pub struct DownloadModel {
    /// Where the file is written, which is also its name at the authority.
    pub path: Seq<char>,
    /// The plan, empty until it has arrived.
    pub plan: Seq<BlockDescriptor>,
    pub state: DownloadState,
    /// The bytes of the blocks fetched so far, joined in plan order.
    pub data: Seq<u8>,
    /// The blocks left out so far, in plan order.
    pub failures: Seq<BlockFailureModel>,
    pub error: Option<ClientErrorModel>,
}

impl DownloadModel {
    /// The download is one that a session can be in.
    pub open spec fn wf(self) -> bool {
        &&& self.plan.len() <= usize::MAX
        &&& match self.state {
            DownloadState::PerBlockDownload(index) => index < self.plan.len()
                && self.plan[index as int].target() is Some,
            _ => true,
        }
    }

    /// The download after it failed with `error`.
    pub open spec fn fail(self, error: ClientErrorModel) -> (DownloadModel, DownloadActionModel) {
        (
            DownloadModel { state: DownloadState::Failed, error: Some(error), ..self },
            DownloadActionModel::Abort,
        )
    }

    /// The record of the failure of block `index` with `kind`.
    pub open spec fn block_failure(self, index: int, kind: TransferError) -> BlockFailureModel {
        BlockFailureModel {
            index,
            block_id: self.plan[index].block_id,
            address: self.plan[index].target(),
            kind,
        }
    }

    /// The download with block `index` recorded as left out.
    pub open spec fn skip(self, index: int, kind: TransferError) -> DownloadModel {
        DownloadModel { failures: self.failures.push(self.block_failure(index, kind)), ..self }
    }

    /// The download with the bytes of a fetched block joined on.
    pub open spec fn join(self, body: Seq<u8>) -> DownloadModel {
        DownloadModel { data: self.data + body, ..self }
    }

    /// The download as it turns to the first block from `from` on that has
    /// a storage node. Blocks without one are left out as unreachable. When
    /// no block is left, the joined bytes are to be written.
    pub open spec fn seek(self, from: int) -> (DownloadModel, DownloadActionModel)
        decreases self.plan.len() - from,
    {
        if from < 0 || from >= self.plan.len() {
            (
                DownloadModel { state: DownloadState::Concatenated, ..self },
                DownloadActionModel::WriteFile { path: self.path },
            )
        } else {
            match self.plan[from].target() {
                Some(address) => (
                    DownloadModel { state: DownloadState::PerBlockDownload(from as usize), ..self },
                    DownloadActionModel::FetchBlock {
                        index: from,
                        url: get_block_url_text(address, self.plan[from].block_id),
                    },
                ),
                None => self.skip(from, TransferError::Unreachable).seek(from + 1),
            }
        }
    }

    /// The transition of the download on `event`: the download after it,
    /// and what is to be done next.
    pub open spec fn step(self, event: DownloadEvent) -> (DownloadModel, DownloadActionModel) {
        match self.state {
            DownloadState::Init => match event {
                DownloadEvent::PlanFetched { plan } => (DownloadModel { plan: plan@, ..self }).seek(
                    0,
                ),
                DownloadEvent::PlanUnavailable { kind } => self.fail(
                    ClientErrorModel::Metadata(kind),
                ),
                DownloadEvent::PlanUndecodable { reason } => self.fail(
                    ClientErrorModel::Decode(reason.field@),
                ),
                _ => (self, DownloadActionModel::Unexpected),
            },
            DownloadState::PerBlockDownload(index) => match event {
                DownloadEvent::BlockReply { reply } => match reply_outcome(reply) {
                    Ok(body) => self.join(body).seek(index + 1),
                    Err(kind) => self.skip(index as int, kind).seek(index + 1),
                },
                _ => (self, DownloadActionModel::Unexpected),
            },
            DownloadState::Concatenated => match event {
                DownloadEvent::Written => (
                    DownloadModel { state: DownloadState::WrittenToDisk, ..self },
                    DownloadActionModel::Finish,
                ),
                DownloadEvent::WriteFailed { error } => self.fail(ClientErrorModel::Io(error)),
                _ => (self, DownloadActionModel::Unexpected),
            },
            DownloadState::WrittenToDisk => (self, DownloadActionModel::Finish),
            DownloadState::Failed => (self, DownloadActionModel::Abort),
        }
    }

    /// The download after a sequence of events, and the actions that were
    /// handed out along the way, one for each event.
    pub open spec fn run(self, events: Seq<DownloadEvent>) -> (
        DownloadModel,
        Seq<DownloadActionModel>,
    )
        decreases events.len(),
    {
        if events.len() == 0 {
            (self, Seq::empty())
        } else {
            let (next, action) = self.step(events[0]);
            let (last, actions) = next.run(events.drop_first());
            (last, seq![action] + actions)
        }
    }
}

/// The download of `path` as it begins, and its first action: to ask the
/// metadata authority at `base` for the plan.
pub open spec fn download_start(base: Seq<char>, path: Seq<char>) -> (
    DownloadModel,
    DownloadActionModel,
) {
    (
        DownloadModel {
            path,
            plan: Seq::empty(),
            state: DownloadState::Init,
            data: Seq::empty(),
            failures: Seq::empty(),
            error: None,
        },
        DownloadActionModel::FetchPlan { url: file_blocks_url_text(base, path) },
    )
}

/// A download in progress.
pub struct DownloadSession {
    path: String,
    plan: Vec<BlockAssignment>,
    state: DownloadState,
    data: Vec<u8>,
    failures: Vec<BlockFailure>,
    error: Option<ClientError>,
}

impl View for DownloadSession {
    type V = DownloadModel;

    closed spec fn view(&self) -> DownloadModel {
        DownloadModel {
            path: self.path@,
            plan: plan_of(self.plan@),
            state: self.state,
            data: self.data@,
            failures: failures_of(self.failures@),
            error: error_of(self.error),
        }
    }
}

impl DownloadSession {
    #[verifier::type_invariant]
    spec fn inv(self) -> bool {
        self@.wf()
    }

    /// Begins the download of the file `file_path`, whose plan the metadata
    /// authority at `base_url` holds.
    pub fn new(base_url: &str, file_path: &str) -> (started: (DownloadSession, DownloadAction))
        ensures
            started.0@ == download_start(base_url@, file_path@).0,
            started.1@ == download_start(base_url@, file_path@).1,
            started.0@.wf(),
    {
        let session = DownloadSession {
            path: file_path.to_owned(),
            plan: Vec::new(),
            state: DownloadState::Init,
            data: Vec::new(),
            failures: Vec::new(),
            error: None,
        };
        assert(session@.plan =~= Seq::empty());
        assert(session@.failures =~= Seq::empty());
        (session, DownloadAction::FetchPlan { url: file_blocks_url(base_url, file_path) })
    }

    /// Ends the download with `error`.
    fn fail(&mut self, error: ClientError) -> (action: DownloadAction)
        ensures
            final(self)@ == old(self)@.fail(error@).0,
            action@ == old(self)@.fail(error@).1,
    {
        proof {
            use_type_invariant(&*self);
        }
        self.error = Some(error);
        self.state = DownloadState::Failed;
        DownloadAction::Abort
    }

    /// Records block `index` as left out.
    fn skip(&mut self, index: usize, kind: TransferError)
        requires
            index < old(self)@.plan.len(),
        ensures
            final(self)@ == old(self)@.skip(index as int, kind),
    {
        proof {
            use_type_invariant(&*self);
        }
        let block = &self.plan[index];
        let address = match block.target() {
            Some(a) => Some(a.clone()),
            None => None,
        };
        let failure = BlockFailure { index, block_id: block.block_id.clone(), address, kind };
        let mut failures = Vec::new();
        core::mem::swap(&mut self.failures, &mut failures);
        failures.push(failure);
        self.failures = failures;
        assert(final(self)@.failures =~= old(self)@.failures.push(
            old(self)@.block_failure(index as int, kind),
        ));
    }

    /// Joins the bytes of a fetched block to those before it.
    fn join(&mut self, body: Vec<u8>)
        ensures
            final(self)@ == old(self)@.join(body@),
    {
        proof {
            use_type_invariant(&*self);
        }
        let mut body = body;
        let mut data = Vec::new();
        core::mem::swap(&mut self.data, &mut data);
        data.append(&mut body);
        self.data = data;
    }

    /// Turns to the first block from `from` on that has a storage node.
    fn seek(&mut self, from: usize) -> (action: DownloadAction)
        requires
            from <= old(self)@.plan.len(),
        ensures
            final(self)@ == old(self)@.seek(from as int).0,
            action@ == old(self)@.seek(from as int).1,
    {
        let mut index: usize = from;
        while index < self.plan.len()
            invariant
                index <= self@.plan.len(),
                self@.seek(index as int) == old(self)@.seek(from as int),
            decreases self@.plan.len() - index,
        {
            proof {
                use_type_invariant(&*self);
            }
            let block = &self.plan[index];
            match block.target() {
                Some(address) => {
                    let url = get_block_url(address.as_str(), block.block_id.as_str());
                    self.state = DownloadState::PerBlockDownload(index);
                    return DownloadAction::FetchBlock { index, url };
                },
                None => {
                    self.skip(index, TransferError::Unreachable);
                    index = index + 1;
                },
            }
        }
        self.state = DownloadState::Concatenated;
        DownloadAction::WriteFile { path: self.path.clone() }
    }

    /// Takes what the caller reports and says what to do next.
    ///
    /// The plan, once it is there, is walked through in order. The bytes of
    /// a block that arrives are joined to those before it. A block that does
    /// not arrive, or that the plan gives no storage node for, is recorded
    /// among the failures and left out. After the last block the joined
    /// bytes are to be written. Only a plan that cannot be had and a
    /// destination that cannot be written end the download in failure. Once
    /// it has ended, the session stays as it is, whatever is reported.
    pub fn step(&mut self, event: DownloadEvent) -> (action: DownloadAction)
        ensures
            final(self)@ == old(self)@.step(event).0,
            action@ == old(self)@.step(event).1,
            final(self)@.wf(),
    {
        proof {
            use_type_invariant(&*self);
        }
        let action = match self.state {
            DownloadState::Init => match event {
                DownloadEvent::PlanFetched { plan } => {
                    let blocks = plan.block_assignments;
                    assert(blocks.len() <= usize::MAX);
                    self.plan = blocks;
                    self.seek(0)
                },
                DownloadEvent::PlanUnavailable { kind } => self.fail(ClientError::Metadata(kind)),
                DownloadEvent::PlanUndecodable { reason } => self.fail(ClientError::Decode(reason)),
                _ => DownloadAction::Unexpected,
            },
            DownloadState::PerBlockDownload(index) => match event {
                DownloadEvent::BlockReply { reply } => match classify_reply(reply) {
                    Ok(body) => {
                        self.join(body);
                        self.seek(index + 1)
                    },
                    Err(kind) => {
                        self.skip(index, kind);
                        self.seek(index + 1)
                    },
                },
                _ => DownloadAction::Unexpected,
            },
            DownloadState::Concatenated => match event {
                DownloadEvent::Written => {
                    self.state = DownloadState::WrittenToDisk;
                    DownloadAction::Finish
                },
                DownloadEvent::WriteFailed { error } => self.fail(ClientError::Io(error)),
                _ => DownloadAction::Unexpected,
            },
            DownloadState::WrittenToDisk => DownloadAction::Finish,
            DownloadState::Failed => DownloadAction::Abort,
        };
        proof {
            use_type_invariant(&*self);
        }
        action
    }

    /// Where the download stands.
    pub fn state(&self) -> (state: DownloadState)
        ensures
            state == self@.state,
    {
        self.state
    }

    /// The bytes of the blocks fetched so far, joined in plan order.
    pub fn data(&self) -> (data: &Vec<u8>)
        ensures
            data@ == self@.data,
    {
        &self.data
    }

    /// The blocks left out so far, in plan order.
    pub fn failures(&self) -> (failures: &Vec<BlockFailure>)
        ensures
            failures_of(failures@) == self@.failures,
    {
        &self.failures
    }

    /// The failure that ended the download, if one did.
    pub fn failure(&self) -> (error: Option<&ClientError>)
        ensures
            self@.error == match error {
                Some(e) => Some(e@),
                None => None,
            },
    {
        self.error.as_ref()
    }

    /// Ends the session and hands over the failure that ended the download,
    /// if one did.
    pub fn into_failure(self) -> (error: Option<ClientError>)
        ensures
            error_of(error) == self@.error,
    {
        self.error
    }
}

/// The events that report `replies`, one for each block from `from` on.
pub open spec fn block_replies(replies: Seq<NodeReply>, from: int) -> Seq<DownloadEvent> {
    Seq::new(
        (replies.len() - from) as nat,
        |j: int| DownloadEvent::BlockReply { reply: replies[from + j] },
    )
}

/// The bodies of the successful replies from `from` on, joined in order.
pub open spec fn joined_from(replies: Seq<NodeReply>, from: int) -> Seq<u8>
    decreases replies.len() - from,
{
    if from < 0 || from >= replies.len() {
        Seq::empty()
    } else {
        match reply_outcome(replies[from]) {
            Ok(body) => body + joined_from(replies, from + 1),
            Err(_) => joined_from(replies, from + 1),
        }
    }
}

/// The records of the failed replies from `from` on, in order.
pub open spec fn failures_from(plan: Seq<BlockDescriptor>, replies: Seq<NodeReply>, from: int) -> Seq<
    BlockFailureModel,
>
    decreases replies.len() - from,
{
    if from < 0 || from >= replies.len() {
        Seq::empty()
    } else {
        match reply_outcome(replies[from]) {
            Ok(_) => failures_from(plan, replies, from + 1),
            Err(kind) => seq![
                BlockFailureModel {
                    index: from,
                    block_id: plan[from].block_id,
                    address: plan[from].target(),
                    kind,
                },
            ] + failures_from(plan, replies, from + 1),
        }
    }
}

/// What a download of a plan whose blocks all have a storage node does at
/// position `index`: it fetches the block there, or, past the last block,
/// has the joined bytes written.
pub open spec fn planned_action(plan: Seq<BlockDescriptor>, path: Seq<char>, index: int)
    -> DownloadActionModel {
    if 0 <= index < plan.len() {
        DownloadActionModel::FetchBlock {
            index,
            url: get_block_url_text(plan[index].candidate_addresses[0], plan[index].block_id),
        }
    } else {
        DownloadActionModel::WriteFile { path }
    }
}

/// From block `index` on, a download asks for every block in plan order,
/// whatever the replies: the bodies that arrive are joined in that order,
/// the blocks that fail are recorded in that order, and after the last
/// block the joined bytes are to be written.
pub proof fn lemma_download_blocks(m: DownloadModel, index: int, replies: Seq<NodeReply>)
    requires
        m.wf(),
        all_blocks_placed(m.plan),
        replies.len() == m.plan.len(),
        0 <= index < m.plan.len(),
        m.state == DownloadState::PerBlockDownload(index as usize),
    ensures
        ({
            let (end, actions) = m.run(block_replies(replies, index));
            &&& end == (DownloadModel {
                state: DownloadState::Concatenated,
                data: m.data + joined_from(replies, index),
                failures: m.failures + failures_from(m.plan, replies, index),
                ..m
            })
            &&& actions.len() == m.plan.len() - index
            &&& forall|j: int|
                0 <= j < actions.len() ==> #[trigger] actions[j] == planned_action(
                    m.plan,
                    m.path,
                    index + j + 1,
                )
        }),
    decreases m.plan.len() - index,
{
    let events = block_replies(replies, index);
    let rest = events.drop_first();
    let (next, action) = m.step(events[0]);
    assert(events[0] == DownloadEvent::BlockReply { reply: replies[index] });
    let taken = match reply_outcome(replies[index]) {
        Ok(body) => m.join(body),
        Err(kind) => m.skip(index, kind),
    };
    assert((next, action) == taken.seek(index + 1));
    assert(action == planned_action(m.plan, m.path, index + 1));
    assert(rest =~= block_replies(replies, index + 1));
    let (end, actions) = m.run(events);
    assert(actions == seq![action] + next.run(rest).1);
    if index + 1 < m.plan.len() {
        lemma_download_blocks(next, index + 1, replies);
        let later = next.run(rest).1;
        assert forall|j: int| 0 <= j < actions.len() implies #[trigger] actions[j]
            == planned_action(m.plan, m.path, index + j + 1) by {
            if j > 0 {
                assert(actions[j] == later[j - 1]);
            }
        }
        assert(end.data =~= m.data + joined_from(replies, index));
        assert(end.failures =~= m.failures + failures_from(m.plan, replies, index));
    } else {
        assert(rest.len() == 0);
        assert(next.run(rest) == (next, Seq::<DownloadActionModel>::empty()));
        assert(joined_from(replies, index + 1) =~= Seq::<u8>::empty());
        assert(failures_from(m.plan, replies, index + 1) =~= Seq::<BlockFailureModel>::empty());
        assert(end.data =~= m.data + joined_from(replies, index));
        assert(end.failures =~= m.failures + failures_from(m.plan, replies, index));
    }
}

/// A download degrades, it does not abort. Under a plan whose blocks all
/// have a storage node, and whatever the storage nodes reply, every block
/// is asked for, in plan order; what is written is the bodies that arrived,
/// joined in plan order; the blocks that failed are recorded, in plan
/// order; and the download does not end in failure.
pub proof fn lemma_download_outcome(
    base: Seq<char>,
    path: Seq<char>,
    plan: AllocationResponse,
    replies: Seq<NodeReply>,
)
    requires
        all_blocks_placed(plan@),
        replies.len() == plan@.len(),
    ensures
        ({
            let start = download_start(base, path).0;
            let events = seq![DownloadEvent::PlanFetched { plan }] + block_replies(replies, 0);
            let (end, actions) = start.run(events);
            &&& end.state is Concatenated
            &&& end.error is None
            &&& end.plan == plan@
            &&& end.data == joined_from(replies, 0)
            &&& end.failures == failures_from(plan@, replies, 0)
            &&& actions.len() == plan@.len() + 1
            &&& forall|j: int|
                0 <= j <= plan@.len() ==> #[trigger] actions[j] == planned_action(plan@, path, j)
        }),
{
    let start = download_start(base, path).0;
    let events = seq![DownloadEvent::PlanFetched { plan }] + block_replies(replies, 0);
    let rest = events.drop_first();
    let (next, action) = start.step(events[0]);
    let (end, actions) = start.run(events);
    assert(plan.block_assignments.len() <= usize::MAX);
    assert(rest =~= block_replies(replies, 0));
    assert(actions == seq![action] + next.run(rest).1);
    assert(action == planned_action(plan@, path, 0));
    if plan@.len() > 0 {
        lemma_download_blocks(next, 0, replies);
        let later = next.run(rest).1;
        assert forall|j: int| 0 <= j <= plan@.len() implies #[trigger] actions[j]
            == planned_action(plan@, path, j) by {
            if j > 0 {
                assert(actions[j] == later[j - 1]);
            }
        }
        assert(end.data =~= joined_from(replies, 0));
        assert(end.failures =~= failures_from(plan@, replies, 0));
    } else {
        assert(rest.len() == 0);
        assert(next.run(rest) == (next, Seq::<DownloadActionModel>::empty()));
        assert(end.data =~= joined_from(replies, 0));
        assert(end.failures =~= failures_from(plan@, replies, 0));
    }
}

/// Two events report the same thing.
pub open spec fn same_report(first: DownloadEvent, second: DownloadEvent) -> bool {
    match (first, second) {
        (DownloadEvent::PlanFetched { plan: p }, DownloadEvent::PlanFetched { plan: q }) => p@
            == q@,
        (
            DownloadEvent::PlanUnavailable { kind: k },
            DownloadEvent::PlanUnavailable { kind: l },
        ) => k == l,
        (
            DownloadEvent::PlanUndecodable { reason: r },
            DownloadEvent::PlanUndecodable { reason: s },
        ) => r.field@ == s.field@,
        (DownloadEvent::BlockReply { reply: r }, DownloadEvent::BlockReply { reply: s }) => {
            reply_outcome(r) == reply_outcome(s)
        },
        (DownloadEvent::Written, DownloadEvent::Written) => true,
        (DownloadEvent::WriteFailed { error: e }, DownloadEvent::WriteFailed { error: f }) => e
            == f,
        _ => false,
    }
}

/// Reading is repeatable. A download depends only on what is reported to
/// it: two reads of a file that are given the same plan and the same
/// replies, as they are when nothing was written in between, hand out the
/// same actions and end with the same bytes and the same failures.
pub proof fn lemma_read_is_repeatable(
    m: DownloadModel,
    first: Seq<DownloadEvent>,
    second: Seq<DownloadEvent>,
)
    requires
        first.len() == second.len(),
        forall|i: int| 0 <= i < first.len() ==> same_report(#[trigger] first[i], second[i]),
    ensures
        m.run(first) == m.run(second),
    decreases first.len(),
{
    if first.len() > 0 {
        assert(same_report(first[0], second[0]));
        assert(m.step(first[0]) == m.step(second[0]));
        let next = m.step(first[0]).0;
        assert forall|i: int| 0 <= i < first.drop_first().len() implies same_report(
            #[trigger] first.drop_first()[i],
            second.drop_first()[i],
        ) by {
            assert(same_report(first[i + 1], second[i + 1]));
        }
        lemma_read_is_repeatable(next, first.drop_first(), second.drop_first());
    }
}

} // verus!
