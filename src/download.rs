use vstd::prelude::*;
use vstd::string::*;

use crate::digest::check_digest;
use crate::error::ClientError;
use crate::paths::{join_path, joined};
use crate::upload::start_of;
use crate::wire::FileInfo;

verus! {

/// Where the caller asked a pulled file to be saved.
#[derive(Debug, PartialEq, Eq)]
pub enum SaveTarget {
    /// Nothing given: the remote base name in the current directory.
    Here,
    /// An existing directory: the remote base name inside it.
    IntoDir(String),
    /// Any other path: used as it is.
    AsFile(String),
}

/// The local path a pull writes to.
pub open spec fn save_path(save: SaveTarget, remote_name: Seq<char>) -> Seq<char> {
    match save {
        SaveTarget::Here => remote_name,
        SaveTarget::IntoDir(d) => joined(d@, remote_name),
        SaveTarget::AsFile(f) => f@,
    }
}

/// What a pull needs once the server described the remote file.
#[derive(Debug, PartialEq, Eq)]
pub struct PullTarget {
    /// Local save path.
    pub path: String,
    /// The server's BLAKE3 digest, lowercase hex.
    pub digest: String,
    /// The remote size in bytes.
    pub size: u64,
}

/// Checks that the remote file `remote` can be pulled and resolves where it
/// is saved. A file without a BLAKE3 digest cannot be verified and is refused.
pub fn pull_target(info: &FileInfo, remote: String, save: &SaveTarget) -> (r: Result<
    PullTarget,
    ClientError,
>)
    ensures
        info.b3 is None ==> r == Err::<PullTarget, ClientError>(
            ClientError::UnpullableRemote(remote),
        ),
        info.b3 matches Some(h) ==> (r matches Ok(t) && t.digest@ == h@ && t.size == info.size
            && t.path@ == save_path(*save, info.name@)),
{
    match &info.b3 {
        None => Err(ClientError::UnpullableRemote(remote)),
        Some(h) => {
            let path = match save {
                SaveTarget::Here => String::from_str(info.name.as_str()),
                SaveTarget::IntoDir(d) => join_path(d.as_str(), info.name.as_str()),
                SaveTarget::AsFile(f) => String::from_str(f.as_str()),
            };
            Ok(PullTarget { path, digest: h.clone(), size: info.size })
        },
    }
}

/// How the save path is prepared before the pull is opened.
#[derive(Debug, Clone, Copy, PartialEq, Eq)]
pub enum SaveAction {
    /// Nothing is there: create the file.
    Create,
    /// A file is there and may be replaced: delete it first.
    ReplaceExisting,
}

/// Decides what to do with the save path, given whether something already
/// exists there. An existing file is never touched without `overwrite`, and
/// the pull is then not opened at all.
pub fn admit_save(path: &String, exists: bool, overwrite: bool) -> (r: Result<
    SaveAction,
    ClientError,
>)
    ensures
        !exists ==> r == Ok::<SaveAction, ClientError>(SaveAction::Create),
        exists && overwrite ==> r == Ok::<SaveAction, ClientError>(SaveAction::ReplaceExisting),
        exists && !overwrite ==> (r matches Err(ClientError::SavePathConflict(p)) && p@ == path@),
{
    if !exists {
        Ok(SaveAction::Create)
    } else if overwrite {
        Ok(SaveAction::ReplaceExisting)
    } else {
        Err(ClientError::SavePathConflict(path.clone()))
    }
}

/// Byte accounting of one download.
#[derive(Debug, Clone, Copy, PartialEq, Eq)]
pub struct Receipt {
    /// Bytes reported written so far, saturating at `u64::MAX`.
    pub received: u64,
    /// The remote size.
    pub size: u64,
}

/// `a + b`, capped at `u64::MAX`.
pub open spec fn capped_sum(a: u64, b: u64) -> u64 {
    if a + b <= u64::MAX {
        (a + b) as u64
    } else {
        u64::MAX
    }
}

impl Receipt {
    pub open spec fn new_spec(size: u64) -> Receipt {
        Receipt { received: 0, size }
    }

    pub fn new(size: u64) -> (r: Receipt)
        ensures
            r == Receipt::new_spec(size),
    {
        Receipt { received: 0, size }
    }

    /// A progress count `n` arrived from the write-handle registry. Returns
    /// whether the whole file has now been written.
    pub fn on_count(&mut self, n: u64) -> (done: bool)
        ensures
            final(self).size == old(self).size,
            final(self).received == capped_sum(old(self).received, n),
            done == (final(self).received >= final(self).size),
    {
        self.received = self.received.saturating_add(n);
        self.received >= self.size
    }

    /// A synchronous read returned `len` bytes. Returns whether to read
    /// again: an empty block marks the end of the file.
    pub fn on_block(&mut self, len: usize) -> (more: bool)
        ensures
            final(self).size == old(self).size,
            final(self).received == capped_sum(old(self).received, len as u64),
            more == (len > 0),
    {
        self.received = self.received.saturating_add(len as u64);
        len > 0
    }

    /// The position shown to the user: bytes received, capped at the size.
    pub fn progress(&self) -> (r: u64)
        ensures
            r == if self.received <= self.size {
                self.received
            } else {
                self.size
            },
    {
        if self.received <= self.size {
            self.received
        } else {
            self.size
        }
    }
}

#[derive(Debug, Clone, Copy, PartialEq, Eq, Structural)]
pub enum PullPhase {
    /// Waiting for the server's description of the remote file.
    Describing,
    /// Waiting to learn whether the save path exists.
    Probing,
    /// Waiting for the key of the read session.
    Opening,
    /// File data is arriving.
    Receiving,
    /// All data arrived; waiting for the digest of the saved file.
    Closing,
    /// The saved file matches the server's digest.
    Done,
    /// The pull stopped with an error.
    Failed,
}

/// What the caller does next for a pull.
#[derive(Debug, PartialEq, Eq)]
pub enum PullAction {
    /// Find out whether the save path exists.
    Probe,
    /// Open the read session with `create_pull`, then create the save file.
    Open,
    /// Delete the existing save file, then proceed as for `Open`.
    ReplaceThenOpen,
    /// Register the save file under `key`, then ask `async_read(key, block)`.
    StartAsync { key: u64 },
    /// Ask `read(key, offset, block)`.
    Read { key: u64, offset: u64 },
    /// Wait for the next progress count.
    Wait,
    /// Close the save file (through the registry in async mode), call
    /// `finish_read_key(key)`, then digest the saved file.
    Close { key: u64 },
    /// The saved file is verified; nothing remains.
    Keep,
    /// Delete the saved file and report the error.
    Discard(ClientError),
    /// Stop and report the error.
    Fail(ClientError),
    /// The event does not apply in this phase; nothing changes.
    Idle,
}

/// The decisions of one download, from the server's description of the
/// remote file to the verdict on the saved copy.
#[derive(Debug, PartialEq, Eq)]
pub struct Pull {
    pub remote: String,
    pub save: SaveTarget,
    pub overwrite: bool,
    pub is_async: bool,
    /// The local save path, once resolved.
    pub path: String,
    /// The server's digest, once known.
    pub digest: String,
    /// The read session's key, once opened.
    pub key: u64,
    pub receipt: Receipt,
    pub phase: PullPhase,
}

impl Pull {
    pub fn new(remote: String, save: SaveTarget, overwrite: bool, is_async: bool) -> (r: Pull)
        ensures
            r.remote == remote,
            r.save == save,
            r.overwrite == overwrite,
            r.is_async == is_async,
            r.phase == PullPhase::Describing,
    {
        Pull {
            remote,
            save,
            overwrite,
            is_async,
            path: String::new(),
            digest: String::new(),
            key: 0,
            receipt: Receipt::new(0),
            phase: PullPhase::Describing,
        }
    }

    /// The server described the remote file. A file without a digest ends
    /// the pull; otherwise the save path is resolved and probed next.
    pub fn on_info(&mut self, info: &FileInfo) -> (r: PullAction)
        ensures
            old(self).phase != PullPhase::Describing ==> r == PullAction::Idle && *final(self)
                == *old(self),
            old(self).phase == PullPhase::Describing && info.b3 is None ==> r == PullAction::Fail(
                ClientError::UnpullableRemote(old(self).remote),
            ) && *final(self) == (Pull { phase: PullPhase::Failed, ..*old(self) }),
            old(self).phase == PullPhase::Describing && info.b3 is Some ==> {
                &&& r == PullAction::Probe
                &&& final(self).phase == PullPhase::Probing
                &&& final(self).path@ == save_path(old(self).save, info.name@)
                &&& final(self).digest@ == info.b3->Some_0@
                &&& final(self).receipt == Receipt::new_spec(info.size)
                &&& final(self).remote == old(self).remote
                &&& final(self).save == old(self).save
                &&& final(self).overwrite == old(self).overwrite
                &&& final(self).is_async == old(self).is_async
                &&& final(self).key == old(self).key
            },
    {
        if self.phase != PullPhase::Describing {
            return PullAction::Idle;
        }
        match pull_target(info, self.remote.clone(), &self.save) {
            Err(e) => {
                self.phase = PullPhase::Failed;
                PullAction::Fail(e)
            },
            Ok(t) => {
                self.path = t.path;
                self.digest = t.digest;
                self.receipt = Receipt::new(t.size);
                self.phase = PullPhase::Probing;
                PullAction::Probe
            },
        }
    }

    /// Whether the save path exists. An existing file without `overwrite`
    /// ends the pull before any read session is opened.
    pub fn on_probe(&mut self, exists: bool) -> (r: PullAction)
        ensures
            old(self).phase != PullPhase::Probing ==> r == PullAction::Idle && *final(self)
                == *old(self),
            old(self).phase == PullPhase::Probing && exists && !old(self).overwrite ==> r
                == PullAction::Fail(ClientError::SavePathConflict(old(self).path)) && *final(self)
                == (Pull { phase: PullPhase::Failed, ..*old(self) }),
            old(self).phase == PullPhase::Probing && exists && old(self).overwrite ==> r
                == PullAction::ReplaceThenOpen && *final(self) == (Pull {
                phase: PullPhase::Opening,
                ..*old(self)
            }),
            old(self).phase == PullPhase::Probing && !exists ==> r == PullAction::Open
                && *final(self) == (Pull { phase: PullPhase::Opening, ..*old(self) }),
    {
        if self.phase != PullPhase::Probing {
            return PullAction::Idle;
        }
        if exists && !self.overwrite {
            self.phase = PullPhase::Failed;
            return PullAction::Fail(ClientError::SavePathConflict(self.path.clone()));
        }
        self.phase = PullPhase::Opening;
        if exists {
            PullAction::ReplaceThenOpen
        } else {
            PullAction::Open
        }
    }

    /// The read session opened under `key`.
    pub fn on_opened(&mut self, key: u64) -> (r: PullAction)
        ensures
            old(self).phase != PullPhase::Opening ==> r == PullAction::Idle && *final(self)
                == *old(self),
            old(self).phase == PullPhase::Opening ==> *final(self) == (Pull {
                key,
                phase: PullPhase::Receiving,
                ..*old(self)
            }) && r == if old(self).is_async {
                PullAction::StartAsync { key }
            } else {
                PullAction::Read { key, offset: 0 }
            },
    {
        if self.phase != PullPhase::Opening {
            return PullAction::Idle;
        }
        self.key = key;
        self.phase = PullPhase::Receiving;
        if self.is_async {
            PullAction::StartAsync { key }
        } else {
            PullAction::Read { key, offset: 0 }
        }
    }

    /// Asynchronous mode: the registry reported `n` more bytes written. Once
    /// the remote size is reached the file is closed.
    pub fn on_count(&mut self, n: u64) -> (r: PullAction)
        ensures
            !(old(self).phase == PullPhase::Receiving && old(self).is_async) ==> r
                == PullAction::Idle && *final(self) == *old(self),
            old(self).phase == PullPhase::Receiving && old(self).is_async ==> {
                let received = capped_sum(old(self).receipt.received, n);
                &&& final(self).receipt == (Receipt { received, ..old(self).receipt })
                &&& received >= old(self).receipt.size ==> r == PullAction::Close {
                    key: old(self).key,
                } && final(self).phase == PullPhase::Closing
                &&& received < old(self).receipt.size ==> r == PullAction::Wait
                    && final(self).phase == PullPhase::Receiving
                &&& *final(self) == (Pull {
                    receipt: final(self).receipt,
                    phase: final(self).phase,
                    ..*old(self)
                })
            },
    {
        if !(self.phase == PullPhase::Receiving && self.is_async) {
            return PullAction::Idle;
        }
        if self.receipt.on_count(n) {
            self.phase = PullPhase::Closing;
            PullAction::Close { key: self.key }
        } else {
            PullAction::Wait
        }
    }

    /// Synchronous mode: a read returned `len` bytes, already written to the
    /// save file. An empty block ends the data.
    pub fn on_block(&mut self, len: usize) -> (r: PullAction)
        ensures
            !(old(self).phase == PullPhase::Receiving && !old(self).is_async) ==> r
                == PullAction::Idle && *final(self) == *old(self),
            old(self).phase == PullPhase::Receiving && !old(self).is_async ==> {
                let received = capped_sum(old(self).receipt.received, len as u64);
                &&& final(self).receipt == (Receipt { received, ..old(self).receipt })
                &&& len > 0 ==> r == PullAction::Read { key: old(self).key, offset: received }
                    && final(self).phase == PullPhase::Receiving
                &&& len == 0 ==> r == PullAction::Close { key: old(self).key } && final(self).phase
                    == PullPhase::Closing
                &&& *final(self) == (Pull {
                    receipt: final(self).receipt,
                    phase: final(self).phase,
                    ..*old(self)
                })
            },
    {
        if !(self.phase == PullPhase::Receiving && !self.is_async) {
            return PullAction::Idle;
        }
        if self.receipt.on_block(len) {
            PullAction::Read { key: self.key, offset: self.receipt.received }
        } else {
            self.phase = PullPhase::Closing;
            PullAction::Close { key: self.key }
        }
    }

    /// The digest of the saved file. It is kept exactly when the digest
    /// equals the server's; otherwise it is discarded with both digests.
    pub fn on_digest(&mut self, local: &String) -> (r: PullAction)
        ensures
            old(self).phase != PullPhase::Closing ==> r == PullAction::Idle && *final(self)
                == *old(self),
            old(self).phase == PullPhase::Closing && old(self).digest@ == local@ ==> r
                == PullAction::Keep && *final(self) == (Pull {
                phase: PullPhase::Done,
                ..*old(self)
            }),
            old(self).phase == PullPhase::Closing && old(self).digest@ != local@ ==> (match r {
                PullAction::Discard(ClientError::HashMismatch { remote, local: l }) => remote@
                    == old(self).digest@ && l@ == local@,
                _ => false,
            }) && *final(self) == (Pull { phase: PullPhase::Failed, ..*old(self) }),
    {
        if self.phase != PullPhase::Closing {
            return PullAction::Idle;
        }
        match check_digest(&self.digest, local) {
            Ok(()) => {
                self.phase = PullPhase::Done;
                PullAction::Keep
            },
            Err(e) => {
                self.phase = PullPhase::Failed;
                PullAction::Discard(e)
            },
        }
    }
}

/// The receipt after the counts `counts` arrived in turn.
pub open spec fn run_counts(r: Receipt, counts: Seq<u64>) -> Receipt
    decreases counts.len(),
{
    if counts.len() == 0 {
        r
    } else {
        let prev = run_counts(r, counts.drop_last());
        Receipt { received: capped_sum(prev.received, counts.last()), ..prev }
    }
}

/// While the reported counts fit in `u64`, an asynchronous download has
/// received exactly their sum; `on_count` reports completion exactly when
/// that sum reaches the remote size.
pub proof fn receipt_counts_every_byte(size: u64, counts: Seq<u64>)
    requires
        start_of(counts.map_values(|c: u64| c as nat), counts.len() as int) <= u64::MAX,
    ensures
        run_counts(Receipt { received: 0, size }, counts).received == start_of(
            counts.map_values(|c: u64| c as nat),
            counts.len() as int,
        ),
        run_counts(Receipt { received: 0, size }, counts).size == size,
    decreases counts.len(),
{
    let lens = counts.map_values(|c: u64| c as nat);
    if counts.len() > 0 {
        let init = counts.drop_last();
        let init_lens = init.map_values(|c: u64| c as nat);
        assert forall|i: int| 0 <= i <= init.len() implies #[trigger] start_of(init_lens, i)
            == start_of(lens, i) by {
            lemma_prefix_sums_agree(counts, i);
        }
        lemma_start_of_grows(lens, init.len() as int);
        receipt_counts_every_byte(size, init);
    }
}

proof fn lemma_prefix_sums_agree(counts: Seq<u64>, i: int)
    requires
        counts.len() > 0,
        0 <= i <= counts.len() - 1,
    ensures
        start_of(counts.drop_last().map_values(|c: u64| c as nat), i) == start_of(
            counts.map_values(|c: u64| c as nat),
            i,
        ),
    decreases i,
{
    if i > 0 {
        lemma_prefix_sums_agree(counts, i - 1);
    }
}

proof fn lemma_start_of_grows(lens: Seq<nat>, n: int)
    requires
        0 <= n < lens.len(),
    ensures
        start_of(lens, n) <= start_of(lens, n + 1),
{
}

} // verus!
