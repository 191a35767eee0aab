use vstd::prelude::*;

verus! {

/// A point in time: whole seconds since the Unix epoch (negative before it)
/// and the nanoseconds past that second.
#[derive(Debug, Clone, Copy, PartialEq, Eq)]
pub struct Timestamp {
    pub secs: i64,
    pub nanos: u32,
}

/// Entry kind of a regular file.
pub const ENTRY_FILE: u8 = 0;

/// Entry kind of a directory.
pub const ENTRY_DIR: u8 = 1;

/// One item of a remote directory listing.
#[derive(Debug, PartialEq, Eq)]
pub struct Entry {
    /// `ENTRY_FILE` or `ENTRY_DIR`.
    pub file_type: u8,
    pub name: String,
    /// Zero for directories.
    pub size: u64,
    pub create_time: Timestamp,
}

/// What the server reports of one remote file.
#[derive(Debug, PartialEq, Eq)]
pub struct FileInfo {
    pub name: String,
    pub size: u64,
    pub create_time: Timestamp,
    /// BLAKE3 digest in lowercase hex, when asked for and available.
    pub b3: Option<String>,
    /// SHA-256 digest in lowercase hex, when asked for and available.
    pub sha256: Option<String>,
    pub can_modify: bool,
}

/// Directories before files: every entry's kind is at least that of the
/// entries after it.
pub open spec fn kinds_descending(s: Seq<Entry>) -> bool {
    forall|i: int, j: int| 0 <= i < j < s.len() ==> #[trigger] s[i].file_type >= #[trigger] s[j].file_type
}

/// Orders a directory listing by kind, highest first, so that directories
/// come before files.
pub fn sort_listing(entries: Vec<Entry>) -> (r: Vec<Entry>)
    ensures
        r@.to_multiset() == entries@.to_multiset(),
        kinds_descending(r@),
{
    broadcast use vstd::seq_lib::group_to_multiset_ensures, vstd::multiset::group_multiset_axioms;

    let mut rest = entries;
    let mut out: Vec<Entry> = Vec::new();
    while rest.len() > 0
        invariant
            out@.to_multiset().add(rest@.to_multiset()) == entries@.to_multiset(),
            kinds_descending(out@),
        decreases rest@.len(),
    {
        let ghost rest0 = rest@;
        proof {
            vstd::seq_lib::to_multiset_remove(rest@, 0);
        }
        let e = rest.remove(0);
        proof {
            assert(rest@ == rest0.remove(0));
            rest0.to_multiset_ensures();
            assert(rest0[0] == e);
            assert(rest0.contains(e));
            assert(rest0.to_multiset().count(e) > 0);
            assert(rest0.to_multiset() =~= rest@.to_multiset().insert(e));
        }
        let mut j: usize = 0;
        while j < out.len() && out[j].file_type >= e.file_type
            invariant
                j <= out@.len(),
                forall|k: int| 0 <= k < j ==> #[trigger] out@[k].file_type >= e.file_type,
            decreases out@.len() - j,
        {
            j = j + 1;
        }
        proof {
            vstd::seq_lib::to_multiset_insert(out@, j as int, e);
            assert forall|k: int| j <= k < out@.len() implies #[trigger] out@[k].file_type
                < e.file_type by {
                if k > j {
                    assert(out@[j as int].file_type >= out@[k].file_type);
                }
            }
        }
        let ghost before = out@;
        out.insert(j, e);
        proof {
            assert forall|p: int| 0 <= p < out@.len() implies #[trigger] out@[p] == if p < j {
                before[p]
            } else if p == j {
                e
            } else {
                before[p - 1]
            } by {}
            assert forall|a: int, b: int| 0 <= a < b < out@.len() implies #[trigger] out@[a].file_type
                >= #[trigger] out@[b].file_type by {
                if b < j {
                    assert(before[a].file_type >= before[b].file_type);
                } else if b > j && a > j {
                    assert(before[a - 1].file_type >= before[b - 1].file_type);
                } else if b > j && a < j {
                    assert(before[a].file_type >= e.file_type);
                    assert(before[b - 1].file_type < e.file_type);
                } else if b > j {
                    assert(before[b - 1].file_type < e.file_type);
                }
            }
            assert(out@.to_multiset() == before.to_multiset().insert(e));
            assert(out@.to_multiset().add(rest@.to_multiset()) =~= entries@.to_multiset());
        }
    }
    out
}

} // verus!
