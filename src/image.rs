use vstd::prelude::*;

use crate::error::ClientError;
use crate::paths::{image_file_names, image_name, TreeFile};

verus! {

#[derive(Debug, Clone, Copy, PartialEq, Eq, Structural)]
pub enum BatchPhase {
    /// The names still wait for the server's `lock` verdict.
    Locking,
    /// The server admitted the batch; files are pushed one after another.
    Pushing,
    /// Every file was handed out.
    Done,
    /// The server refused the batch.
    Rejected,
}

/// A two-phase push of an image tree: one `lock` over all logical names,
/// then one upload per file, in order.
pub struct ImageBatch {
    pub names: Vec<String>,
    /// Index of the next file to push.
    pub next: usize,
    pub phase: BatchPhase,
}

/// Phase, next index and handed-out file after one request for the next file.
pub open spec fn next_step(phase: BatchPhase, next: nat, len: nat) -> (BatchPhase, nat, Option<
    nat,
>) {
    if phase != BatchPhase::Pushing {
        (phase, next, None)
    } else if next < len {
        (BatchPhase::Pushing, next + 1, Some(next))
    } else {
        (BatchPhase::Done, next, None)
    }
}

/// The files handed out by `k` successive requests.
pub open spec fn issued(phase: BatchPhase, next: nat, len: nat, k: nat) -> Seq<nat>
    decreases k,
{
    if k == 0 {
        Seq::empty()
    } else {
        let (p, n, out) = next_step(phase, next, len);
        match out {
            Some(i) => seq![i] + issued(p, n, len, (k - 1) as nat),
            None => issued(p, n, len, (k - 1) as nat),
        }
    }
}

/// Prepares the push of an image tree rooted at `root`, whose files are
/// `files`. An empty tree is refused; otherwise the batch holds the logical
/// name of each file and waits for the lock.
pub fn plan_image(dir: &Option<String>, base: &str, root: String, files: &Vec<TreeFile>) -> (r:
    Result<ImageBatch, ClientError>)
    ensures
        files@.len() == 0 <==> r is Err,
        files@.len() == 0 ==> r == Err::<ImageBatch, ClientError>(
            ClientError::LocalPathInvalid(root),
        ),
        r matches Ok(b) ==> {
            &&& b.phase == BatchPhase::Locking
            &&& b.next == 0
            &&& b.names@.len() == files@.len()
            &&& forall|i: int|
                0 <= i < files@.len() ==> #[trigger] b.names@[i]@ == image_name(
                    *dir,
                    base@,
                    files@[i],
                )
        },
{
    if files.len() == 0 {
        return Err(ClientError::LocalPathInvalid(root));
    }
    let names = image_file_names(dir, base, files);
    Ok(ImageBatch { names, next: 0, phase: BatchPhase::Locking })
}

impl ImageBatch {
    /// The server answered `lock` with `ok` and `msg`: on refusal the batch
    /// ends with the server's message and no file is ever pushed.
    pub fn on_lock_reply(&mut self, ok: bool, msg: String) -> (r: Result<(), ClientError>)
        requires
            old(self).phase == BatchPhase::Locking,
        ensures
            final(self).names == old(self).names,
            final(self).next == old(self).next,
            ok ==> final(self).phase == BatchPhase::Pushing && r is Ok,
            !ok ==> final(self).phase == BatchPhase::Rejected && r == Err::<(), ClientError>(
                ClientError::RemoteRejected(msg),
            ),
    {
        if ok {
            self.phase = BatchPhase::Pushing;
            Ok(())
        } else {
            self.phase = BatchPhase::Rejected;
            Err(ClientError::RemoteRejected(msg))
        }
    }

    /// The index of the next file to push, if the batch was admitted and
    /// files remain.
    pub fn next_file(&mut self) -> (r: Option<usize>)
        requires
            old(self).next <= old(self).names@.len(),
        ensures
            final(self).names == old(self).names,
            final(self).next <= final(self).names@.len(),
            ({
                let (p, n, out) = next_step(
                    old(self).phase,
                    old(self).next as nat,
                    old(self).names@.len(),
                );
                &&& final(self).phase == p
                &&& final(self).next == n
                &&& match r {
                    Some(i) => out == Some(i as nat),
                    None => out is None,
                }
            }),
    {
        match self.phase {
            BatchPhase::Pushing => {
                if self.next < self.names.len() {
                    let i = self.next;
                    self.next = self.next + 1;
                    Some(i)
                } else {
                    self.phase = BatchPhase::Done;
                    None
                }
            },
            _ => None,
        }
    }
}

/// Until the server admits a batch, and after it refused one, no file of the
/// batch is handed out for pushing, however often the next file is asked for.
pub proof fn unadmitted_batch_pushes_nothing(phase: BatchPhase, next: nat, len: nat, k: nat)
    requires
        phase == BatchPhase::Locking || phase == BatchPhase::Rejected,
    ensures
        issued(phase, next, len, k) == Seq::<nat>::empty(),
    decreases k,
{
    if k > 0 {
        unadmitted_batch_pushes_nothing(phase, next, len, (k - 1) as nat);
    }
}

/// Once admitted, successive requests hand out every file exactly once, in
/// order, and nothing after the last.
pub proof fn admitted_batch_pushes_each_file_once(next: nat, len: nat, k: nat)
    requires
        next <= len,
    ensures
        issued(BatchPhase::Pushing, next, len, k) == Seq::new(
            if next + k <= len { k } else { (len - next) as nat },
            |i: int| (next + i) as nat,
        ),
    decreases k,
{
    if k > 0 {
        if next < len {
            admitted_batch_pushes_each_file_once(next + 1, len, (k - 1) as nat);
            assert(issued(BatchPhase::Pushing, next, len, k) =~= Seq::new(
                if next + k <= len { k } else { (len - next) as nat },
                |i: int| (next + i) as nat,
            ));
        } else {
            lemma_done_issues_nothing(len, (k - 1) as nat);
            assert(issued(BatchPhase::Pushing, next, len, k) =~= Seq::<nat>::empty());
        }
    }
}

proof fn lemma_done_issues_nothing(len: nat, k: nat)
    ensures
        issued(BatchPhase::Done, len, len, k) == Seq::<nat>::empty(),
    decreases k,
{
    if k > 0 {
        lemma_done_issues_nothing(len, (k - 1) as nat);
    }
}

} // verus!
