use vstd::prelude::*;

verus! {

/// What a filesystem entry is, as a stat that follows links sees it.
#[derive(PartialEq, Eq, Structural, Clone, Copy, Debug)]
pub enum EntryKind {
    File,
    Directory,
    /// Neither a regular file nor a directory (a socket, a device).
    Other,
    /// The stat failed (missing, or not readable).
    Unreadable,
}

/// A path together with what a stat found there.
pub struct Candidate {
    pub path: String,
    pub kind: EntryKind,
}

/// The files that a source specification stands for.
pub struct ResolvedFileSet {
    pub is_directory_source: bool,
    pub files: Vec<String>,
}

#[derive(PartialEq, Eq, Structural, Clone, Copy, Debug)]
pub enum ResolveError {
    NotFound,
    Unsupported,
    GlobSyntax,
}

pub open spec fn is_glob_char(c: char) -> bool {
    c == '*' || c == '?' || c == '['
}

/// The paths of the regular files among `c`, in order.
pub open spec fn kept_paths(c: Seq<Candidate>) -> Seq<String>
    decreases c.len(),
{
    if c.len() == 0 {
        Seq::empty()
    } else if c.last().kind == EntryKind::File {
        kept_paths(c.drop_last()).push(c.last().path)
    } else {
        kept_paths(c.drop_last())
    }
}

/// How many entries of `c` are of kind `k`.
pub open spec fn count_kind(c: Seq<Candidate>, k: EntryKind) -> nat
    decreases c.len(),
{
    if c.len() == 0 {
        0
    } else if c.last().kind == k {
        count_kind(c.drop_last(), k) + 1
    } else {
        count_kind(c.drop_last(), k)
    }
}

/// Whether `spec` holds a glob metacharacter, and so is expanded as a pattern.
pub fn is_glob_pattern(spec: &str) -> (r: bool)
    ensures
        r == exists|i: int| 0 <= i < spec@.len() && is_glob_char(#[trigger] spec@[i]),
{
    let len = spec.unicode_len();
    let mut i: usize = 0;
    while i < len
        invariant
            len == spec@.len(),
            i <= len,
            forall|j: int| 0 <= j < i ==> !is_glob_char(#[trigger] spec@[j]),
        decreases len - i,
    {
        let c = spec.get_char(i);
        if c == '*' || c == '?' || c == '[' {
            return true;
        }
        i = i + 1;
    }
    false
}

/// The paths of the regular files among `candidates`, in order.
pub fn keep_files(candidates: &Vec<Candidate>) -> (r: Vec<String>)
    ensures
        r@ == kept_paths(candidates@),
{
    let mut out: Vec<String> = Vec::new();
    let mut i: usize = 0;
    while i < candidates.len()
        invariant
            i <= candidates@.len(),
            out@ == kept_paths(candidates@.subrange(0, i as int)),
        decreases candidates@.len() - i,
    {
        assert(candidates@.subrange(0, i + 1).drop_last() =~= candidates@.subrange(0, i as int));
        if candidates[i].kind == EntryKind::File {
            out.push(candidates[i].path.clone());
        }
        i = i + 1;
    }
    assert(candidates@.subrange(0, i as int) =~= candidates@);
    out
}

/// The file set of a glob pattern, from what the pattern matched: the regular
/// files, in order; the other matches are left out.
pub fn resolve_pattern(matches: &Vec<Candidate>) -> (r: ResolvedFileSet)
    ensures
        !r.is_directory_source,
        r.files@ == kept_paths(matches@),
{
    ResolvedFileSet { is_directory_source: false, files: keep_files(matches) }
}

/// The file set of a literal path, from what a stat found at `spec` and, for a
/// directory, from its immediate children.
pub fn resolve_path(spec: &str, kind: EntryKind, children: &Vec<Candidate>) -> (r: Result<
    ResolvedFileSet,
    ResolveError,
>)
    ensures
        kind == EntryKind::File ==> (r matches Ok(set) && !set.is_directory_source
            && set.files@.len() == 1 && set.files@[0]@ == spec@),
        kind == EntryKind::Directory ==> (r matches Ok(set) && set.is_directory_source
            && set.files@ == kept_paths(children@)),
        kind == EntryKind::Unreadable ==> r == Err::<ResolvedFileSet, ResolveError>(
            ResolveError::NotFound,
        ),
        kind == EntryKind::Other ==> r == Err::<ResolvedFileSet, ResolveError>(
            ResolveError::Unsupported,
        ),
{
    match kind {
        EntryKind::File => {
            let mut files: Vec<String> = Vec::new();
            files.push(String::from_str(spec));
            Ok(ResolvedFileSet { is_directory_source: false, files })
        },
        EntryKind::Directory => Ok(
            ResolvedFileSet { is_directory_source: true, files: keep_files(children) },
        ),
        EntryKind::Unreadable => Err(ResolveError::NotFound),
        EntryKind::Other => Err(ResolveError::Unsupported),
    }
}

/// A directory of N regular files and M entries of other kinds resolves to
/// exactly N paths: every regular file is kept, nothing else is.
pub proof fn lemma_directory_keeps_files(c: Seq<Candidate>)
    ensures
        kept_paths(c).len() == count_kind(c, EntryKind::File),
        count_kind(c, EntryKind::File) + count_kind(c, EntryKind::Directory) + count_kind(
            c,
            EntryKind::Other,
        ) + count_kind(c, EntryKind::Unreadable) == c.len(),
    decreases c.len(),
{
    if c.len() > 0 {
        lemma_directory_keeps_files(c.drop_last());
    }
}

/// Whether `p` is the path of a regular file among `c`.
pub open spec fn is_file_among(c: Seq<Candidate>, p: String) -> bool {
    exists|j: int| 0 <= j < c.len() && (#[trigger] c[j]).kind == EntryKind::File && c[j].path == p
}

/// Every path kept from a pattern's matches is that of a match that is a
/// regular file.
pub proof fn lemma_kept_are_files(c: Seq<Candidate>)
    ensures
        forall|i: int|
            0 <= i < kept_paths(c).len() ==> is_file_among(c, #[trigger] kept_paths(c)[i]),
    decreases c.len(),
{
    if c.len() > 0 {
        let d = c.drop_last();
        lemma_kept_are_files(d);
        assert forall|i: int| 0 <= i < kept_paths(c).len() implies is_file_among(
            c,
            #[trigger] kept_paths(c)[i],
        ) by {
            if i < kept_paths(d).len() {
                let j = choose|j: int|
                    0 <= j < d.len() && (#[trigger] d[j]).kind == EntryKind::File && d[j].path
                        == kept_paths(d)[i];
                assert(c[j] == d[j]);
                assert(kept_paths(c)[i] == kept_paths(d)[i]);
            } else {
                assert(c[c.len() - 1] == c.last());
                assert(c.last().kind == EntryKind::File);
            }
        }
    }
}

} // verus!
