use vstd::prelude::*;

use crate::digest::{digest_hex, ContentHasher};

verus! {

/// Upper bound on `check_finish` polls after the last asynchronous write.
pub const MAX_DRAIN_POLLS: u32 = 20;

/// Pause between two `check_finish` polls, in milliseconds.
pub const DRAIN_PAUSE_MS: u64 = 10;

/// Default transfer block size in bytes.
pub const DEFAULT_BLOCK: usize = 131072;

/// The arguments of the `push` reservation call.
#[derive(Debug, PartialEq, Eq)]
pub struct PushRequest {
    pub name: String,
    pub size: u64,
    pub hash: String,
    pub overwrite: bool,
}

/// Builds the reservation for a file whose whole content went through `hasher`.
pub fn push_request(name: String, size: u64, hasher: &ContentHasher, overwrite: bool) -> (r:
    PushRequest)
    ensures
        r.name == name,
        r.size == size,
        r.hash@ == digest_hex(hasher@),
        r.overwrite == overwrite,
{
    PushRequest { name, size, hash: hasher.finish_hex(), overwrite }
}

#[derive(Debug, Clone, Copy, PartialEq, Eq, Structural)]
pub enum UploadPhase {
    /// Reading the local file and sending its chunks.
    Sending,
    /// Waiting for the server to report that every asynchronous write landed.
    Draining,
    /// `push_finish` is due.
    Finishing,
    /// `push_finish` returned.
    Done,
}

/// What the caller does next for an upload.
#[derive(Debug, Clone, Copy, PartialEq, Eq)]
pub enum UploadAction {
    /// Send the chunk with `write(key, chunk)` and wait for the reply.
    Write { key: u64 },
    /// Send the chunk with `write_offset(key, offset, chunk)`, not waiting.
    WriteOffset { key: u64, offset: u64 },
    /// Ask `check_finish(key)`.
    CheckFinish { key: u64 },
    /// Pause, then ask `check_finish(key)` again.
    PauseThenCheck { key: u64 },
    /// Call `push_finish(key)`.
    Finish { key: u64 },
    /// Nothing to do.
    Idle,
}

/// The decisions of one file upload after the server issued its key.
#[derive(Debug, Clone, Copy, PartialEq, Eq)]
pub struct Upload {
    pub key: u64,
    pub size: u64,
    /// Bytes handed to the server so far.
    pub sent: u64,
    pub is_async: bool,
    /// `check_finish` replies received while draining.
    pub polls: u32,
    pub phase: UploadPhase,
}

/// The state after a local read of `len` bytes and the action it calls for:
/// a positive length is sent at the current position, zero ends the stream.
pub open spec fn chunk_step(u: Upload, len: nat) -> (Upload, UploadAction) {
    if u.phase != UploadPhase::Sending {
        (u, UploadAction::Idle)
    } else if len == 0 {
        if u.is_async {
            (Upload { phase: UploadPhase::Draining, polls: 0, ..u }, UploadAction::CheckFinish {
                key: u.key,
            })
        } else {
            (Upload { phase: UploadPhase::Finishing, ..u }, UploadAction::Finish { key: u.key })
        }
    } else {
        let next = Upload { sent: (u.sent + len) as u64, ..u };
        if u.is_async {
            (next, UploadAction::WriteOffset { key: u.key, offset: u.sent })
        } else {
            (next, UploadAction::Write { key: u.key })
        }
    }
}

/// The state after a `check_finish` reply and the action it calls for: the
/// upload finishes once the server reports completion or the polls run out.
pub open spec fn check_step(u: Upload, finished: bool) -> (Upload, UploadAction) {
    if u.phase != UploadPhase::Draining {
        (u, UploadAction::Idle)
    } else if finished || u.polls + 1 >= MAX_DRAIN_POLLS {
        (
            Upload { phase: UploadPhase::Finishing, polls: (u.polls + 1) as u32, ..u },
            UploadAction::Finish { key: u.key },
        )
    } else {
        (Upload { polls: (u.polls + 1) as u32, ..u }, UploadAction::PauseThenCheck { key: u.key })
    }
}

/// An upload of `size` bytes under `key` with nothing sent yet.
pub open spec fn fresh_upload(key: u64, size: u64, is_async: bool) -> Upload {
    Upload { key, size, sent: 0, is_async, polls: 0, phase: UploadPhase::Sending }
}

impl Upload {
    /// An upload of `size` bytes under `key`, nothing sent yet.
    pub fn new(key: u64, size: u64, is_async: bool) -> (r: Upload)
        ensures
            r == fresh_upload(key, size, is_async),
    {
        Upload { key, size, sent: 0, is_async, polls: 0, phase: UploadPhase::Sending }
    }

    /// A local read returned `len` bytes (zero at end of file).
    pub fn on_chunk(&mut self, len: usize) -> (r: UploadAction)
        requires
            old(self).sent + len <= u64::MAX,
        ensures
            (*final(self), r) == chunk_step(*old(self), len as nat),
    {
        match self.phase {
            UploadPhase::Sending => {
                if len == 0 {
                    if self.is_async {
                        self.phase = UploadPhase::Draining;
                        self.polls = 0;
                        UploadAction::CheckFinish { key: self.key }
                    } else {
                        self.phase = UploadPhase::Finishing;
                        UploadAction::Finish { key: self.key }
                    }
                } else {
                    let offset = self.sent;
                    self.sent = self.sent + len as u64;
                    if self.is_async {
                        UploadAction::WriteOffset { key: self.key, offset }
                    } else {
                        UploadAction::Write { key: self.key }
                    }
                }
            },
            _ => UploadAction::Idle,
        }
    }

    /// `check_finish` replied `finished`.
    pub fn on_check(&mut self, finished: bool) -> (r: UploadAction)
        requires
            old(self).phase == UploadPhase::Draining ==> old(self).polls < MAX_DRAIN_POLLS,
        ensures
            (*final(self), r) == check_step(*old(self), finished),
    {
        match self.phase {
            UploadPhase::Draining => {
                self.polls = self.polls + 1;
                if finished || self.polls >= MAX_DRAIN_POLLS {
                    self.phase = UploadPhase::Finishing;
                    UploadAction::Finish { key: self.key }
                } else {
                    UploadAction::PauseThenCheck { key: self.key }
                }
            },
            _ => UploadAction::Idle,
        }
    }

    /// `push_finish` returned successfully.
    pub fn on_finished(&mut self)
        ensures
            old(self).phase == UploadPhase::Finishing ==> *final(self) == (Upload {
                phase: UploadPhase::Done,
                ..*old(self)
            }),
            old(self).phase != UploadPhase::Finishing ==> *final(self) == *old(self),
    {
        if let UploadPhase::Finishing = self.phase {
            self.phase = UploadPhase::Done;
        }
    }

    /// The position shown to the user: bytes sent, capped at the file size.
    pub fn progress(&self) -> (r: u64)
        ensures
            r == if self.sent <= self.size {
                self.sent
            } else {
                self.size
            },
    {
        if self.sent <= self.size {
            self.sent
        } else {
            self.size
        }
    }
}

/// The sum of the first `n` lengths: where chunk `n` starts.
pub open spec fn start_of(lens: Seq<nat>, n: int) -> nat
    decreases n,
{
    if n <= 0 {
        0
    } else {
        start_of(lens, n - 1) + lens[n - 1]
    }
}

/// The upload after the chunks `lens` were read, with the actions they called for.
pub open spec fn run_chunks(u: Upload, lens: Seq<nat>) -> (Upload, Seq<UploadAction>)
    decreases lens.len(),
{
    if lens.len() == 0 {
        (u, Seq::empty())
    } else {
        let (prev, acts) = run_chunks(u, lens.drop_last());
        let (next, act) = chunk_step(prev, lens.last());
        (next, acts.push(act))
    }
}

/// Sending positive-length chunks from the start of a file, the upload
/// places chunk `i` at byte `start_of(lens, i)` in either mode: in async mode
/// it names that offset, in sync mode it is the `i`-th append after exactly
/// `start_of(lens, i)` bytes. So both modes deliver each byte exactly once, in
/// order, and the same content reaches the server for any block size.
pub proof fn sync_and_async_place_chunks_alike(key: u64, size: u64, lens: Seq<nat>)
    requires
        forall|i: int| 0 <= i < lens.len() ==> #[trigger] lens[i] > 0,
        start_of(lens, lens.len() as int) <= u64::MAX,
    ensures
        ({
            let (s, sa) = run_chunks(fresh_upload(key, size, false), lens);
            let (a, aa) = run_chunks(fresh_upload(key, size, true), lens);
            &&& s.sent == start_of(lens, lens.len() as int)
            &&& a.sent == start_of(lens, lens.len() as int)
            &&& s == Upload { sent: s.sent, ..fresh_upload(key, size, false) }
            &&& a == Upload { sent: a.sent, ..fresh_upload(key, size, true) }
            &&& sa.len() == lens.len()
            &&& aa.len() == lens.len()
            &&& forall|i: int| 0 <= i < lens.len() ==> #[trigger] sa[i] == UploadAction::Write { key }
            &&& forall|i: int|
                0 <= i < lens.len() ==> #[trigger] aa[i] == UploadAction::WriteOffset {
                    key,
                    offset: start_of(lens, i) as u64,
                }
        }),
    decreases lens.len(),
{
    if lens.len() > 0 {
        let init = lens.drop_last();
        assert forall|i: int| 0 <= i < init.len() implies #[trigger] init[i] > 0 by {
            assert(init[i] == lens[i]);
        }
        assert forall|i: int| 0 <= i <= init.len() implies #[trigger] start_of(init, i) == start_of(
            lens,
            i,
        ) by {
            lemma_start_of_prefix(lens, i);
        }
        lemma_start_of_monotone(lens, init.len() as int, lens.len() as int);
        sync_and_async_place_chunks_alike(key, size, init);
        let n = lens.len() as int;
        assert(init =~= lens.drop_last());
        let (s0, sa0) = run_chunks(fresh_upload(key, size, false), init);
        let (a0, aa0) = run_chunks(fresh_upload(key, size, true), init);
        assert(lens.last() == lens[n - 1]);
        assert(lens[n - 1] > 0);
        assert(s0.sent == start_of(lens, n - 1));
        assert(start_of(lens, n) == start_of(lens, n - 1) + lens[n - 1]);
        let (s1, sa1) = run_chunks(fresh_upload(key, size, false), lens);
        let (a1, aa1) = run_chunks(fresh_upload(key, size, true), lens);
        assert forall|i: int| 0 <= i < n implies #[trigger] aa1[i] == UploadAction::WriteOffset {
            key,
            offset: start_of(lens, i) as u64,
        } by {
            if i < n - 1 {
                assert(aa1[i] == aa0[i]);
                assert(start_of(init, i) == start_of(lens, i));
            }
        }
        assert forall|i: int| 0 <= i < n implies #[trigger] sa1[i] == UploadAction::Write { key } by {
            if i < n - 1 {
                assert(sa1[i] == sa0[i]);
            }
        }
    }
}

proof fn lemma_start_of_prefix(lens: Seq<nat>, i: int)
    requires
        lens.len() > 0,
        0 <= i <= lens.len() - 1,
    ensures
        start_of(lens.drop_last(), i) == start_of(lens, i),
    decreases i,
{
    if i > 0 {
        lemma_start_of_prefix(lens, i - 1);
    }
}

proof fn lemma_start_of_monotone(lens: Seq<nat>, i: int, j: int)
    requires
        0 <= i <= j <= lens.len(),
    ensures
        start_of(lens, i) <= start_of(lens, j),
    decreases j - i,
{
    if i < j {
        lemma_start_of_monotone(lens, i, j - 1);
    }
}

} // verus!
