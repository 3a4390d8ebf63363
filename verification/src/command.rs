//! What the command line asks for.
//!
//! `create <local_path> <server_path> [-d]` creates a file from a local one,
//! or a directory; `read <path> [-d]` describes a file or a directory;
//! `get <filepath>` fetches a file.

use vstd::prelude::*;
use crate::errors::ConfigError;

verus! {

/// One invocation, with the arguments it needs.
#[derive(Debug, PartialEq, Eq)]
pub enum Command {
    /// Create `server_path`: a directory if `is_directory`, else a file with
    /// the content of `local_path`.
    Create { local_path: String, server_path: String, is_directory: bool },
    /// Describe `path`: a directory if `is_directory`, else a file.
    Read { path: String, is_directory: bool },
    /// Fetch the file `file_path` and write it under the same name.
    Get { file_path: String },
}

/// A `Command` as a mathematical value.
pub enum CommandModel {
    Create { local_path: Seq<char>, server_path: Seq<char>, is_directory: bool },
    Read { path: Seq<char>, is_directory: bool },
    Get { file_path: Seq<char> },
}

impl View for Command {
    type V = CommandModel;

    open spec fn view(&self) -> CommandModel {
        match *self {
            Command::Create { local_path, server_path, is_directory } => CommandModel::Create {
                local_path: local_path@,
                server_path: server_path@,
                is_directory,
            },
            Command::Read { path, is_directory } => CommandModel::Read {
                path: path@,
                is_directory,
            },
            Command::Get { file_path } => CommandModel::Get { file_path: file_path@ },
        }
    }
}

/// The error for a required argument that is missing.
fn missing(argument: &str) -> (error: ConfigError)
    ensures
        error.argument@ == argument@,
{
    ConfigError { argument: argument.to_owned() }
}

impl Command {
    /// The `create` command. Both paths are required: the first that is
    /// missing is named in the error.
    pub fn create(local_path: Option<String>, server_path: Option<String>, is_directory: bool)
        -> (command: Result<Command, ConfigError>)
        ensures
            match command {
                Ok(c) => local_path is Some && server_path is Some && c@ == (CommandModel::Create {
                    local_path: local_path->0@,
                    server_path: server_path->0@,
                    is_directory,
                }),
                Err(e) => if local_path is None {
                    e.argument@ == "local_path"@
                } else {
                    server_path is None && e.argument@ == "server_path"@
                },
            },
    {
        match local_path {
            None => Err(missing("local_path")),
            Some(local_path) => match server_path {
                None => Err(missing("server_path")),
                Some(server_path) => Ok(Command::Create { local_path, server_path, is_directory }),
            },
        }
    }

    /// The `read` command. The path is required.
    pub fn read(path: Option<String>, is_directory: bool) -> (command: Result<
        Command,
        ConfigError,
    >)
        ensures
            match command {
                Ok(c) => path is Some && c@ == (CommandModel::Read { path: path->0@, is_directory }),
                Err(e) => path is None && e.argument@ == "path"@,
            },
    {
        match path {
            None => Err(missing("path")),
            Some(path) => Ok(Command::Read { path, is_directory }),
        }
    }

    /// The `get` command. The path of the file is required.
    pub fn get(file_path: Option<String>) -> (command: Result<Command, ConfigError>)
        ensures
            match command {
                Ok(c) => file_path is Some && c@ == (CommandModel::Get {
                    file_path: file_path->0@,
                }),
                Err(e) => file_path is None && e.argument@ == "filepath"@,
            },
    {
        match file_path {
            None => Err(missing("filepath")),
            Some(file_path) => Ok(Command::Get { file_path }),
        }
    }
}

} // verus!
