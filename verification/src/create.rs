//! Creating a file or a directory at the metadata authority.
//!
//! A directory is created with one request. A file is created, then
//! measured, then given its blocks: the plan that comes back, with the size
//! that was measured, is what an upload starts from.

use vstd::prelude::*;
use crate::datanode::{classify_reply, reply_outcome, NodeReply};
use crate::errors::{
    error_of,
    ClientError,
    ClientErrorModel,
    DecodeError,
    IoError,
    TransferError,
};
use crate::metadata::{
    allocate_model,
    allocate_request,
    create_model,
    create_request,
    MetadataRequest,
    MetadataRequestModel,
};
use crate::models::{AllocationResponse, BlockDescriptor};

verus! {

/// Where a creation stands.
#[derive(Clone, Copy, Debug, PartialEq, Eq, Structural)]
pub enum CreateState {
    /// The answer to the request that creates the entry is awaited.
    Creating,
    /// The size of the local file is awaited.
    Measuring,
    /// The plan for the blocks of the file is awaited.
    Allocating,
    /// The entry exists; for a file, its plan was handed out.
    Complete,
    /// A request or the local file failed.
    Failed,
}

/// What the caller reports back to a creation.
#[derive(Debug, PartialEq, Eq)]
pub enum CreateEvent {
    /// The request that creates the entry was made; this is how it ended.
    EntryReply { reply: NodeReply },
    /// The local file has this many bytes.
    FileMeasured { file_size: u64 },
    /// The local file could not be opened or measured.
    MeasureFailed { error: IoError },
    /// The metadata authority answered with this plan.
    PlanFetched { plan: AllocationResponse },
    /// The metadata authority could not be asked for the plan.
    PlanUnavailable { kind: TransferError },
    /// The metadata authority answered, but not with a plan.
    PlanUndecodable { reason: DecodeError },
}

/// What the caller is to do next for a creation.
#[derive(Debug, PartialEq, Eq)]
pub enum CreateAction {
    /// Make `request`, which creates the entry, and report `EntryReply`.
    CreateEntry { request: MetadataRequest },
    /// Make `request`, which allocates the blocks of the file, decode the
    /// plan, and report `PlanFetched`.
    Allocate { request: MetadataRequest },
    /// Open the local file at `path` and report its size.
    MeasureFile { path: String },
    /// The file exists and has its blocks: upload its `file_size` bytes
    /// under `plan`.
    Upload { plan: AllocationResponse, file_size: u64 },
    /// The directory exists; there is nothing more to do.
    Finish,
    /// The creation has failed; `CreateSession::failure` says why.
    Abort,
    /// The event did not answer the pending action and was not used.
    Unexpected,
}

/// A `CreateAction` as a mathematical value.
pub enum CreateActionModel {
    CreateEntry { request: MetadataRequestModel },
    Allocate { request: MetadataRequestModel },
    MeasureFile { path: Seq<char> },
    Upload { plan: Seq<BlockDescriptor>, file_size: u64 },
    Finish,
    Abort,
    Unexpected,
}

impl View for CreateAction {
    type V = CreateActionModel;

    open spec fn view(&self) -> CreateActionModel {
        match *self {
            CreateAction::CreateEntry { request } => CreateActionModel::CreateEntry {
                request: request@,
            },
            CreateAction::Allocate { request } => CreateActionModel::Allocate { request: request@ },
            CreateAction::MeasureFile { path } => CreateActionModel::MeasureFile { path: path@ },
            CreateAction::Upload { plan, file_size } => CreateActionModel::Upload {
                plan: plan@,
                file_size,
            },
            CreateAction::Finish => CreateActionModel::Finish,
            CreateAction::Abort => CreateActionModel::Abort,
            CreateAction::Unexpected => CreateActionModel::Unexpected,
        }
    }
}

/// A creation as a mathematical value.
pub struct CreateModel {
    /// Base URL of the metadata authority.
    pub base: Seq<char>,
    pub local_path: Seq<char>,
    pub server_path: Seq<char>,
    pub is_directory: bool,
    /// Size of the local file; zero until it is measured.
    pub file_size: u64,
    pub state: CreateState,
    pub error: Option<ClientErrorModel>,
}

impl CreateModel {
    /// The creation after it failed with `error`.
    pub open spec fn fail(self, error: ClientErrorModel) -> (CreateModel, CreateActionModel) {
        (
            CreateModel { state: CreateState::Failed, error: Some(error), ..self },
            CreateActionModel::Abort,
        )
    }

    /// The creation in another state.
    pub open spec fn at(self, state: CreateState) -> CreateModel {
        CreateModel { state, ..self }
    }

    /// What follows once the entry exists: nothing for a directory; for a
    /// file, its size is taken.
    pub open spec fn after_entry(self) -> (CreateModel, CreateActionModel) {
        if self.is_directory {
            (self.at(CreateState::Complete), CreateActionModel::Finish)
        } else {
            (
                self.at(CreateState::Measuring),
                CreateActionModel::MeasureFile { path: self.local_path },
            )
        }
    }

    /// The transition of the creation on `event`: the creation after it,
    /// and what is to be done next.
    pub open spec fn step(self, event: CreateEvent) -> (CreateModel, CreateActionModel) {
        match self.state {
            CreateState::Creating => match event {
                CreateEvent::EntryReply { reply } => match reply_outcome(reply) {
                    Ok(_) => self.after_entry(),
                    Err(kind) => self.fail(ClientErrorModel::Metadata(kind)),
                },
                _ => (self, CreateActionModel::Unexpected),
            },
            CreateState::Measuring => match event {
                CreateEvent::FileMeasured { file_size } => (
                    CreateModel { state: CreateState::Allocating, file_size, ..self },
                    CreateActionModel::Allocate {
                        request: allocate_model(self.base, self.server_path, file_size),
                    },
                ),
                CreateEvent::MeasureFailed { error } => self.fail(ClientErrorModel::Io(error)),
                _ => (self, CreateActionModel::Unexpected),
            },
            CreateState::Allocating => match event {
                CreateEvent::PlanFetched { plan } => (
                    self.at(CreateState::Complete),
                    CreateActionModel::Upload { plan: plan@, file_size: self.file_size },
                ),
                CreateEvent::PlanUnavailable { kind } => self.fail(
                    ClientErrorModel::Metadata(kind),
                ),
                CreateEvent::PlanUndecodable { reason } => self.fail(
                    ClientErrorModel::Decode(reason.field@),
                ),
                _ => (self, CreateActionModel::Unexpected),
            },
            CreateState::Complete => (self, CreateActionModel::Finish),
            CreateState::Failed => (self, CreateActionModel::Abort),
        }
    }
}

/// The creation of `server_path` as it begins, and its first action: the
/// request that creates the entry.
pub open spec fn create_start(
    base: Seq<char>,
    local_path: Seq<char>,
    server_path: Seq<char>,
    is_directory: bool,
) -> (CreateModel, CreateActionModel) {
    (
        CreateModel {
            base,
            local_path,
            server_path,
            is_directory,
            file_size: 0,
            state: CreateState::Creating,
            error: None,
        },
        CreateActionModel::CreateEntry { request: create_model(base, server_path, is_directory) },
    )
}

/// A creation in progress.
pub struct CreateSession {
    base: String,
    local_path: String,
    server_path: String,
    is_directory: bool,
    file_size: u64,
    state: CreateState,
    error: Option<ClientError>,
}

impl View for CreateSession {
    type V = CreateModel;

    closed spec fn view(&self) -> CreateModel {
        CreateModel {
            base: self.base@,
            local_path: self.local_path@,
            server_path: self.server_path@,
            is_directory: self.is_directory,
            file_size: self.file_size,
            state: self.state,
            error: error_of(self.error),
        }
    }
}

impl CreateSession {
    /// Begins the creation of `server_path` at the metadata authority under
    /// `base_url`: a directory if `is_directory`, else a file that holds
    /// what the local file at `local_path` holds.
    pub fn new(base_url: &str, local_path: &str, server_path: &str, is_directory: bool) -> (started:
        (CreateSession, CreateAction))
        ensures
            started.0@ == create_start(base_url@, local_path@, server_path@, is_directory).0,
            started.1@ == create_start(base_url@, local_path@, server_path@, is_directory).1,
    {
        let session = CreateSession {
            base: base_url.to_owned(),
            local_path: local_path.to_owned(),
            server_path: server_path.to_owned(),
            is_directory,
            file_size: 0,
            state: CreateState::Creating,
            error: None,
        };
        let request = create_request(base_url, server_path, is_directory);
        (session, CreateAction::CreateEntry { request })
    }

    /// Ends the creation with `error`.
    fn fail(&mut self, error: ClientError) -> (action: CreateAction)
        ensures
            final(self)@ == old(self)@.fail(error@).0,
            action@ == old(self)@.fail(error@).1,
    {
        self.error = Some(error);
        self.state = CreateState::Failed;
        CreateAction::Abort
    }

    /// Takes what the caller reports and says what to do next.
    ///
    /// Once the entry exists, a directory is done; for a file the local
    /// file is measured, and blocks are asked for its size. The plan that
    /// arrives is handed out for upload, with that size. A request that
    /// fails, a plan that cannot be decoded and a file that cannot be
    /// measured each end the creation. Once it has ended, the session stays
    /// as it is, whatever is reported.
    pub fn step(&mut self, event: CreateEvent) -> (action: CreateAction)
        ensures
            final(self)@ == old(self)@.step(event).0,
            action@ == old(self)@.step(event).1,
    {
        match self.state {
            CreateState::Creating => match event {
                CreateEvent::EntryReply { reply } => match classify_reply(reply) {
                    Ok(_) => {
                        if self.is_directory {
                            self.state = CreateState::Complete;
                            CreateAction::Finish
                        } else {
                            self.state = CreateState::Measuring;
                            CreateAction::MeasureFile { path: self.local_path.clone() }
                        }
                    },
                    Err(kind) => self.fail(ClientError::Metadata(kind)),
                },
                _ => CreateAction::Unexpected,
            },
            CreateState::Measuring => match event {
                CreateEvent::FileMeasured { file_size } => {
                    self.file_size = file_size;
                    self.state = CreateState::Allocating;
                    CreateAction::Allocate {
                        request: allocate_request(
                            self.base.as_str(),
                            self.server_path.as_str(),
                            file_size,
                        ),
                    }
                },
                CreateEvent::MeasureFailed { error } => self.fail(ClientError::Io(error)),
                _ => CreateAction::Unexpected,
            },
            CreateState::Allocating => match event {
                CreateEvent::PlanFetched { plan } => {
                    self.state = CreateState::Complete;
                    CreateAction::Upload { plan, file_size: self.file_size }
                },
                CreateEvent::PlanUnavailable { kind } => self.fail(ClientError::Metadata(kind)),
                CreateEvent::PlanUndecodable { reason } => self.fail(ClientError::Decode(reason)),
                _ => CreateAction::Unexpected,
            },
            CreateState::Complete => CreateAction::Finish,
            CreateState::Failed => CreateAction::Abort,
        }
    }

    /// Where the creation stands.
    pub fn state(&self) -> (state: CreateState)
        ensures
            state == self@.state,
    {
        self.state
    }

    /// The failure that ended the creation, if one did.
    pub fn failure(&self) -> (error: Option<&ClientError>)
        ensures
            self@.error == match error {
                Some(e) => Some(e@),
                None => None,
            },
    {
        self.error.as_ref()
    }

    /// Ends the session and hands over the failure that ended the creation,
    /// if one did.
    pub fn into_failure(self) -> (error: Option<ClientError>)
        ensures
            error_of(error) == self@.error,
    {
        self.error
    }
}

} // verus!
