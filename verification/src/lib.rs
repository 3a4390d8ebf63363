//! Client-side block transfer for a distributed file store.
//!
//! A file is cut into fixed-size blocks, each block is placed on the storage
//! node that a placement plan assigns to it, and a read fetches the blocks
//! back and joins them in plan order.
//!
//! Nothing in this crate touches the network or the file system. The two
//! transfer flows are state machines: a caller performs the action that a
//! session hands out, reports what happened, and receives the next action.

pub mod chunker;
pub mod command;
pub mod create;
pub mod datanode;
pub mod download;
pub mod errors;
pub mod listing;
pub mod metadata;
pub mod models;
pub mod roundtrip;
pub mod upload;
