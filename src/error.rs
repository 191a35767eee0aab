use vstd::prelude::*;

verus! {

/// Every failure the client can report.
#[derive(Debug, PartialEq, Eq)]
pub enum ClientError {
    /// No configuration file at either candidate location.
    ConfigMissing,
    /// A certificate, key or CA path could not be resolved.
    TlsMaterialMissing(String),
    /// The local source is missing, of the wrong kind, or an empty tree.
    LocalPathInvalid(String),
    /// The server refused an operation; the message is the server's.
    RemoteRejected(String),
    /// The transport failed; the message is passed through unchanged.
    Transport(String),
    /// The remote file has no BLAKE3 digest, so it cannot be pulled.
    UnpullableRemote(String),
    /// The local save target exists and overwriting was not requested.
    SavePathConflict(String),
    /// The downloaded file's digest differs from the server's.
    HashMismatch { remote: String, local: String },
    /// A write arrived for a transfer key that has no registered handle.
    UnknownKey(u64),
}

} // verus!
