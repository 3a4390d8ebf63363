use hdfs_cli::command::Command;
use hdfs_cli::errors::ConfigError;
use hdfs_cli::metadata::{
    allocate_request, create_request, file_blocks_request, file_blocks_url, read_request,
    MetadataRequest,
};
use hdfs_cli::models::{AllocationResponse, BlockAssignment, FileData};

fn block(id: &str, addresses: &[&str]) -> BlockAssignment {
    BlockAssignment {
        block_id: id.to_string(),
        datanode_addresses: addresses.iter().map(|a| a.to_string()).collect(),
    }
}

fn entry(is_dir: bool) -> FileData {
    FileData {
        id: 7,
        name: "notes".to_string(),
        is_dir,
        size: 40,
        blocks: Some(vec![1, 2]),
        timestamp: "2024-01-01".to_string(),
    }
}

#[test]
fn entries_are_labelled_by_kind() {
    assert_eq!(entry(true).kind_label(), "Dir");
    assert_eq!(entry(false).kind_label(), "File");
}

#[test]
fn target_is_the_first_candidate() {
    assert_eq!(block("b", &["n1", "n2"]).target(), Some(&"n1".to_string()));
    assert_eq!(block("b", &["n2"]).target(), Some(&"n2".to_string()));
    assert_eq!(block("b", &[]).target(), None);
}

#[test]
fn well_formed_plan_has_placed_blocks_with_distinct_ids() {
    let plan = AllocationResponse {
        block_assignments: vec![block("a", &["n1"]), block("b", &["n1"]), block("c", &["n2"])],
    };
    assert!(plan.is_well_formed());
    assert!(AllocationResponse { block_assignments: vec![] }.is_well_formed());
}

#[test]
fn plan_with_a_repeated_id_is_not_well_formed() {
    let plan = AllocationResponse {
        block_assignments: vec![block("a", &["n1"]), block("b", &["n1"]), block("a", &["n2"])],
    };
    assert!(!plan.is_well_formed());
}

#[test]
fn plan_with_an_unplaced_block_is_not_well_formed() {
    let plan = AllocationResponse {
        block_assignments: vec![block("a", &["n1"]), block("b", &[])],
    };
    assert!(!plan.is_well_formed());
}

#[test]
fn create_request_depends_on_the_kind() {
    assert_eq!(
        create_request("http://localhost:8080", "/docs/a.txt", false),
        MetadataRequest::CreateFile {
            url: "http://localhost:8080/createFile".to_string(),
            file_path: "/docs/a.txt".to_string(),
        }
    );
    assert_eq!(
        create_request("http://localhost:8080", "/docs", true),
        MetadataRequest::CreateDir {
            url: "http://localhost:8080/createDir".to_string(),
            dir_path: "/docs".to_string(),
        }
    );
}

#[test]
fn allocate_request_carries_the_size() {
    assert_eq!(
        allocate_request("http://localhost:8080", "/docs/a.txt", 157286400),
        MetadataRequest::Allocate {
            url: "http://localhost:8080/allocate".to_string(),
            file_path: "/docs/a.txt".to_string(),
            file_size: 157286400,
        }
    );
}

#[test]
fn read_request_depends_on_the_kind() {
    assert_eq!(
        read_request("http://localhost:8080", "/docs/a.txt", false),
        MetadataRequest::ReadFile {
            url: "http://localhost:8080/readFile?filePath=/docs/a.txt".to_string(),
        }
    );
    assert_eq!(
        read_request("http://localhost:8080", "/docs", true),
        MetadataRequest::ReadDir { url: "http://localhost:8080/readDir?dirPath=/docs".to_string() }
    );
}

#[test]
fn file_blocks_request_names_the_file() {
    assert_eq!(
        file_blocks_url("http://localhost:8080", "a.txt"),
        "http://localhost:8080/getFileBlocks?filePath=a.txt"
    );
    assert_eq!(
        file_blocks_request("http://localhost:8080", "a.txt"),
        MetadataRequest::GetFileBlocks {
            url: "http://localhost:8080/getFileBlocks?filePath=a.txt".to_string(),
        }
    );
}

#[test]
fn create_command_needs_both_paths() {
    assert_eq!(
        Command::create(Some("a.txt".to_string()), Some("/a.txt".to_string()), false),
        Ok(Command::Create {
            local_path: "a.txt".to_string(),
            server_path: "/a.txt".to_string(),
            is_directory: false,
        })
    );
    assert_eq!(
        Command::create(None, Some("/a.txt".to_string()), false),
        Err(ConfigError { argument: "local_path".to_string() })
    );
    assert_eq!(
        Command::create(Some("a.txt".to_string()), None, true),
        Err(ConfigError { argument: "server_path".to_string() })
    );
    assert_eq!(
        Command::create(None, None, true),
        Err(ConfigError { argument: "local_path".to_string() })
    );
}

#[test]
fn read_command_needs_its_path() {
    assert_eq!(
        Command::read(Some("/docs".to_string()), true),
        Ok(Command::Read { path: "/docs".to_string(), is_directory: true })
    );
    assert_eq!(Command::read(None, false), Err(ConfigError { argument: "path".to_string() }));
}

#[test]
fn get_command_needs_its_path() {
    assert_eq!(
        Command::get(Some("a.txt".to_string())),
        Ok(Command::Get { file_path: "a.txt".to_string() })
    );
    assert_eq!(Command::get(None), Err(ConfigError { argument: "filepath".to_string() }));
}
