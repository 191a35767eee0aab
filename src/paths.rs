use vstd::prelude::*;
use vstd::string::*;

verus! {

/// A backslash becomes a forward slash; every other character stays.
pub open spec fn wire_char(c: char) -> char {
    if c == '\\' {
        '/'
    } else {
        c
    }
}

/// A path with every backslash replaced by a forward slash.
pub open spec fn normalized(s: Seq<char>) -> Seq<char> {
    s.map_values(|c: char| wire_char(c))
}

/// Appending `name` to `base` as a path: an absolute `name` replaces `base`,
/// an empty `base` yields `name`, and a separator is put between the two
/// unless `base` already ends with one.
pub open spec fn joined(base: Seq<char>, name: Seq<char>) -> Seq<char> {
    if name.len() > 0 && name[0] == '/' {
        name
    } else if base.len() == 0 {
        name
    } else if base.last() == '/' {
        base + name
    } else {
        base + seq!['/'] + name
    }
}

/// `p` placed under the optional user directory.
pub open spec fn under_dir(dir: Option<String>, p: Seq<char>) -> Seq<char> {
    match dir {
        Some(d) => joined(d@, p),
        None => p,
    }
}

/// The logical name of a single pushed file: its base name, under the
/// optional directory, with forward slashes.
pub open spec fn logical_name(dir: Option<String>, file_name: Seq<char>) -> Seq<char> {
    normalized(under_dir(dir, file_name))
}

/// `base` followed by each directory component in turn.
pub open spec fn joined_all(base: Seq<char>, dirs: Seq<String>) -> Seq<char>
    decreases dirs.len(),
{
    if dirs.len() == 0 {
        base
    } else {
        joined(joined_all(base, dirs.drop_last()), dirs.last()@)
    }
}

/// A regular file found below an image root: the directories between the
/// root and the file, and the file's base name.
#[derive(Debug, PartialEq, Eq)]
pub struct TreeFile {
    pub dirs: Vec<String>,
    pub name: String,
}

/// The logical prefix of a file of an image tree: `base` (the root's own
/// name, or the whole root when it has no parent) followed by the file's
/// directories, under the optional user directory, with forward slashes.
pub open spec fn image_prefix(dir: Option<String>, base: Seq<char>, f: TreeFile) -> Seq<char> {
    normalized(under_dir(dir, joined_all(base, f.dirs@)))
}

/// The logical name of a file of an image tree: its prefix followed by its
/// base name, with forward slashes.
pub open spec fn image_name(dir: Option<String>, base: Seq<char>, f: TreeFile) -> Seq<char> {
    normalized(joined(image_prefix(dir, base, f), f.name@))
}

/// Replaces every backslash with a forward slash.
pub fn normalize_separators(s: &str) -> (r: String)
    ensures
        r@ == normalized(s@),
{
    let n = s.unicode_len();
    let mut out = String::new();
    let mut start: usize = 0;
    let mut i: usize = 0;
    while i < n
        invariant
            n == s@.len(),
            start <= i <= n,
            out@ == normalized(s@.subrange(0, start as int)),
            forall|k: int| start <= k < i ==> s@[k] != '\\',
        decreases n - i,
    {
        if s.get_char(i) == '\\' {
            let piece = s.substring_char(start, i);
            out.append(piece);
            let slash = "/";
            proof {
                reveal_strlit("/");
                assert(normalized(s@.subrange(0, i + 1)) =~= normalized(s@.subrange(0, start as int))
                    + piece@ + slash@);
            }
            out.append(slash);
            start = i + 1;
        }
        i = i + 1;
    }
    let piece = s.substring_char(start, n);
    proof {
        assert(normalized(s@.subrange(0, n as int)) =~= normalized(s@.subrange(0, start as int))
            + piece@);
        assert(s@.subrange(0, n as int) =~= s@);
    }
    out.append(piece);
    out
}

/// Appends `name` to `base` as a path.
pub fn join_path(base: &str, name: &str) -> (r: String)
    ensures
        r@ == joined(base@, name@),
{
    let nl = name.unicode_len();
    let bl = base.unicode_len();
    if nl > 0 && name.get_char(0) == '/' {
        String::from_str(name)
    } else if bl == 0 {
        String::from_str(name)
    } else if base.get_char(bl - 1) == '/' {
        let mut r = String::from_str(base);
        r.append(name);
        r
    } else {
        let mut r = String::from_str(base);
        let slash = "/";
        proof {
            reveal_strlit("/");
        }
        r.append(slash);
        r.append(name);
        r
    }
}

/// `p` placed under the optional user directory.
fn place_under(dir: &Option<String>, p: &str) -> (r: String)
    ensures
        r@ == under_dir(*dir, p@),
{
    match dir {
        Some(d) => join_path(d.as_str(), p),
        None => String::from_str(p),
    }
}

/// The logical name under which a single file is pushed.
pub fn push_file_name(dir: &Option<String>, file_name: &str) -> (r: String)
    ensures
        r@ == logical_name(*dir, file_name@),
{
    let placed = place_under(dir, file_name);
    normalize_separators(placed.as_str())
}

/// `base` followed by each of `dirs`.
fn join_components(base: &str, dirs: &Vec<String>) -> (r: String)
    ensures
        r@ == joined_all(base@, dirs@),
{
    let mut acc = String::from_str(base);
    let mut i: usize = 0;
    while i < dirs.len()
        invariant
            i <= dirs@.len(),
            acc@ == joined_all(base@, dirs@.subrange(0, i as int)),
        decreases dirs@.len() - i,
    {
        proof {
            assert(dirs@.subrange(0, i + 1).drop_last() =~= dirs@.subrange(0, i as int));
        }
        acc = join_path(acc.as_str(), dirs[i].as_str());
        i = i + 1;
    }
    proof {
        assert(dirs@.subrange(0, i as int) =~= dirs@);
    }
    acc
}

/// The logical name of one file of an image tree.
pub fn image_file_name(dir: &Option<String>, base: &str, file: &TreeFile) -> (r: String)
    ensures
        r@ == image_name(*dir, base@, *file),
{
    let parent = join_components(base, &file.dirs);
    let placed = place_under(dir, parent.as_str());
    let prefix = normalize_separators(placed.as_str());
    let full = join_path(prefix.as_str(), file.name.as_str());
    normalize_separators(full.as_str())
}

/// The logical names of all files of an image tree, in the order given.
pub fn image_file_names(dir: &Option<String>, base: &str, files: &Vec<TreeFile>) -> (r: Vec<String>)
    ensures
        r@.len() == files@.len(),
        forall|i: int| 0 <= i < files@.len() ==> #[trigger] r@[i]@ == image_name(*dir, base@, files@[i]),
{
    let mut out: Vec<String> = Vec::new();
    let mut i: usize = 0;
    while i < files.len()
        invariant
            i <= files@.len(),
            out@.len() == i,
            forall|k: int| 0 <= k < i ==> #[trigger] out@[k]@ == image_name(*dir, base@, files@[k]),
        decreases files@.len() - i,
    {
        let name = image_file_name(dir, base, &files[i]);
        out.push(name);
        i = i + 1;
    }
    out
}

/// The set of logical names produced for an image tree is exactly the set of
/// `dir / parent-relative-to-root / base name` over the tree's files, with
/// forward slashes.
pub proof fn image_names_cover_tree(
    dir: Option<String>,
    base: Seq<char>,
    files: Seq<TreeFile>,
    names: Seq<String>,
)
    requires
        names.len() == files.len(),
        forall|i: int| 0 <= i < files.len() ==> #[trigger] names[i]@ == image_name(dir, base, files[i]),
    ensures
        names.map_values(|s: String| s@).to_set() == Set::new(
            |p: Seq<char>| exists|f: TreeFile| files.contains(f) && p == image_name(dir, base, f),
        ),
{
    let produced = names.map_values(|s: String| s@);
    let expected = Set::new(
        |p: Seq<char>| exists|f: TreeFile| files.contains(f) && p == image_name(dir, base, f),
    );
    assert forall|p: Seq<char>| produced.to_set().contains(p) implies expected.contains(p) by {
        let i = choose|i: int| 0 <= i < produced.len() && produced[i] == p;
        assert(files.contains(files[i]));
    }
    assert forall|p: Seq<char>| expected.contains(p) implies produced.to_set().contains(p) by {
        let f = choose|f: TreeFile| files.contains(f) && p == image_name(dir, base, f);
        let i = choose|i: int| 0 <= i < files.len() && files[i] == f;
        assert(produced[i] == p);
        assert(produced.contains(p));
    }
    assert(produced.to_set() =~= expected);
}

} // verus!
