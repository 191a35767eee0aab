//! Client-side core of a remote file store: logical path derivation, content
//! digests, the upload and download state machines, and the registry of
//! write handles used while the server pushes file data.

pub mod cli;
pub mod config;
pub mod digest;
pub mod download;
pub mod error;
pub mod image;
pub mod paths;
pub mod registry;
pub mod upload;
pub mod wire;
