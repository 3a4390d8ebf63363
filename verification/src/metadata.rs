//! The requests that are put to the metadata authority.
//!
//! The authority is reached under a base URL. It creates files and
//! directories, allocates the blocks of a file, describes files and
//! directories, and names the blocks of a file that is to be read.

use vstd::prelude::*;
use vstd::string::StringExecFns;

verus! {

/// A request to the metadata authority.
#[derive(Debug, PartialEq, Eq)]
pub enum MetadataRequest {
    /// `POST <base>/createFile`, naming the file.
    CreateFile { url: String, file_path: String },
    /// `POST <base>/createDir`, naming the directory.
    CreateDir { url: String, dir_path: String },
    /// `POST <base>/allocate`, naming the file and giving its size in bytes.
    Allocate { url: String, file_path: String, file_size: u64 },
    /// `GET <base>/readFile?filePath=<path>`.
    ReadFile { url: String },
    /// `GET <base>/readDir?dirPath=<path>`.
    ReadDir { url: String },
    /// `GET <base>/getFileBlocks?filePath=<path>`.
    GetFileBlocks { url: String },
}

/// A `MetadataRequest` as a mathematical value.
pub enum MetadataRequestModel {
    CreateFile { url: Seq<char>, file_path: Seq<char> },
    CreateDir { url: Seq<char>, dir_path: Seq<char> },
    Allocate { url: Seq<char>, file_path: Seq<char>, file_size: u64 },
    ReadFile { url: Seq<char> },
    ReadDir { url: Seq<char> },
    GetFileBlocks { url: Seq<char> },
}

impl View for MetadataRequest {
    type V = MetadataRequestModel;

    open spec fn view(&self) -> MetadataRequestModel {
        match *self {
            MetadataRequest::CreateFile { url, file_path } => MetadataRequestModel::CreateFile {
                url: url@,
                file_path: file_path@,
            },
            MetadataRequest::CreateDir { url, dir_path } => MetadataRequestModel::CreateDir {
                url: url@,
                dir_path: dir_path@,
            },
            MetadataRequest::Allocate { url, file_path, file_size } => {
                MetadataRequestModel::Allocate { url: url@, file_path: file_path@, file_size }
            },
            MetadataRequest::ReadFile { url } => MetadataRequestModel::ReadFile { url: url@ },
            MetadataRequest::ReadDir { url } => MetadataRequestModel::ReadDir { url: url@ },
            MetadataRequest::GetFileBlocks { url } => MetadataRequestModel::GetFileBlocks {
                url: url@,
            },
        }
    }
}

/// The request that creates `path`, as a directory or as a file.
pub open spec fn create_model(base: Seq<char>, path: Seq<char>, is_directory: bool)
    -> MetadataRequestModel {
    if is_directory {
        MetadataRequestModel::CreateDir { url: base + "/createDir"@, dir_path: path }
    } else {
        MetadataRequestModel::CreateFile { url: base + "/createFile"@, file_path: path }
    }
}

/// The request that allocates the blocks of `path`.
pub open spec fn allocate_model(base: Seq<char>, path: Seq<char>, file_size: u64)
    -> MetadataRequestModel {
    MetadataRequestModel::Allocate { url: base + "/allocate"@, file_path: path, file_size }
}

/// The request that describes `path`, a directory or a file.
pub open spec fn read_model(base: Seq<char>, path: Seq<char>, is_directory: bool)
    -> MetadataRequestModel {
    if is_directory {
        MetadataRequestModel::ReadDir { url: base + "/readDir?dirPath="@ + path }
    } else {
        MetadataRequestModel::ReadFile { url: base + "/readFile?filePath="@ + path }
    }
}

/// The URL that names the blocks of `path`.
pub open spec fn file_blocks_url_text(base: Seq<char>, path: Seq<char>) -> Seq<char> {
    base + "/getFileBlocks?filePath="@ + path
}

/// The request that names the blocks of `path`.
pub open spec fn file_blocks_model(base: Seq<char>, path: Seq<char>) -> MetadataRequestModel {
    MetadataRequestModel::GetFileBlocks { url: file_blocks_url_text(base, path) }
}

/// The request that creates `server_path`: a directory if `is_directory`,
/// else a file.
pub fn create_request(base_url: &str, server_path: &str, is_directory: bool) -> (request:
    MetadataRequest)
    ensures
        request@ == create_model(base_url@, server_path@, is_directory),
{
    if is_directory {
        MetadataRequest::CreateDir {
            url: String::from_str(base_url).concat("/createDir"),
            dir_path: server_path.to_owned(),
        }
    } else {
        MetadataRequest::CreateFile {
            url: String::from_str(base_url).concat("/createFile"),
            file_path: server_path.to_owned(),
        }
    }
}

/// The request that allocates blocks for the `file_size` bytes of
/// `server_path`.
pub fn allocate_request(base_url: &str, server_path: &str, file_size: u64) -> (request:
    MetadataRequest)
    ensures
        request@ == allocate_model(base_url@, server_path@, file_size),
{
    MetadataRequest::Allocate {
        url: String::from_str(base_url).concat("/allocate"),
        file_path: server_path.to_owned(),
        file_size,
    }
}

/// The request that describes `path`: a directory if `is_directory`, else
/// a file.
pub fn read_request(base_url: &str, path: &str, is_directory: bool) -> (request: MetadataRequest)
    ensures
        request@ == read_model(base_url@, path@, is_directory),
{
    if is_directory {
        MetadataRequest::ReadDir {
            url: String::from_str(base_url).concat("/readDir?dirPath=").concat(path),
        }
    } else {
        MetadataRequest::ReadFile {
            url: String::from_str(base_url).concat("/readFile?filePath=").concat(path),
        }
    }
}

/// The URL that names the blocks of `path`.
pub fn file_blocks_url(base_url: &str, path: &str) -> (url: String)
    ensures
        url@ == file_blocks_url_text(base_url@, path@),
{
    String::from_str(base_url).concat("/getFileBlocks?filePath=").concat(path)
}

/// The request that names the blocks of `path`, so that it can be read.
pub fn file_blocks_request(base_url: &str, path: &str) -> (request: MetadataRequest)
    ensures
        request@ == file_blocks_model(base_url@, path@),
{
    MetadataRequest::GetFileBlocks { url: file_blocks_url(base_url, path) }
}

} // verus!
