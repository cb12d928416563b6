use vstd::prelude::*;

verus! {

/// `s` without the run of `/` at its end.
pub open spec fn trim_slashes(s: Seq<char>) -> Seq<char>
    decreases s.len(),
{
    if s.len() > 0 && s.last() == '/' {
        trim_slashes(s.drop_last())
    } else {
        s
    }
}

/// The index of the last `/` in `s`, or -1 when there is none.
pub open spec fn last_slash(s: Seq<char>) -> int
    decreases s.len(),
{
    if s.len() == 0 {
        -1
    } else if s.last() == '/' {
        s.len() - 1
    } else {
        last_slash(s.drop_last())
    }
}

/// The last component of a path: what follows its last `/`.
pub open spec fn file_name_of(s: Seq<char>) -> Seq<char> {
    s.subrange(last_slash(s) + 1, s.len() as int)
}

/// What precedes the last `/` of a path (empty when there is none).
pub open spec fn parent_of(s: Seq<char>) -> Seq<char> {
    if last_slash(s) < 0 {
        Seq::empty()
    } else {
        s.subrange(0, last_slash(s))
    }
}

/// The remote key of a local file: `<prefix>/<file-name>`, or, for a file that
/// came from a directory source, `<prefix>/<parent-directory-name>/<file-name>`.
/// Slashes at the end of the prefix are dropped first.
pub open spec fn remote_key_of(prefix: Seq<char>, path: Seq<char>, is_dir: bool) -> Seq<char> {
    let base = trim_slashes(prefix) + seq!['/'];
    let dir = file_name_of(parent_of(path));
    if is_dir && dir.len() > 0 {
        base + dir + seq!['/'] + file_name_of(path)
    } else {
        base + file_name_of(path)
    }
}

fn find_last_slash(s: &str) -> (r: Option<usize>)
    ensures
        match r {
            None => last_slash(s@) == -1,
            Some(i) => i == last_slash(s@) && i < s@.len(),
        },
{
    let mut i: usize = s.unicode_len();
    assert(s@.subrange(0, i as int) =~= s@);
    while i > 0
        invariant
            i <= s@.len(),
            last_slash(s@) == last_slash(s@.subrange(0, i as int)),
        decreases i,
    {
        let c = s.get_char(i - 1);
        assert(s@.subrange(0, i as int).drop_last() =~= s@.subrange(0, i - 1));
        if c == '/' {
            return Some(i - 1);
        }
        i = i - 1;
    }
    None
}

/// Drops the `/` characters at the end of `s`.
pub fn trim_trailing_slashes(s: &str) -> (r: String)
    ensures
        r@ == trim_slashes(s@),
{
    let mut i: usize = s.unicode_len();
    assert(s@.subrange(0, i as int) =~= s@);
    while i > 0 && s.get_char(i - 1) == '/'
        invariant
            i <= s@.len(),
            trim_slashes(s@) == trim_slashes(s@.subrange(0, i as int)),
        decreases i,
    {
        assert(s@.subrange(0, i as int).drop_last() =~= s@.subrange(0, i - 1));
        i = i - 1;
    }
    String::from_str(s.substring_char(0, i))
}

/// The last component of `path`.
pub fn file_name(path: &str) -> (r: String)
    ensures
        r@ == file_name_of(path@),
{
    let len = path.unicode_len();
    match find_last_slash(path) {
        None => String::from_str(path.substring_char(0, len)),
        Some(i) => String::from_str(path.substring_char(i + 1, len)),
    }
}

/// `path` without its last component and the `/` before it.
pub fn parent_path(path: &str) -> (r: String)
    ensures
        r@ == parent_of(path@),
{
    match find_last_slash(path) {
        None => String::new(),
        Some(i) => String::from_str(path.substring_char(0, i)),
    }
}

/// The key under which the file at `path` is stored below `prefix`; `is_dir`
/// tells that the file came from a directory source, which keeps the name of
/// its directory as one more level.
pub fn remote_key(prefix: &str, path: &str, is_dir: bool) -> (r: String)
    ensures
        r@ == remote_key_of(prefix@, path@, is_dir),
{
    let mut key = trim_trailing_slashes(prefix);
    proof {
        reveal_strlit("/");
    }
    key.append("/");
    let parent = parent_path(path);
    let dir = file_name(parent.as_str());
    let name = file_name(path);
    if is_dir && dir.unicode_len() > 0 {
        key.append(dir.as_str());
        key.append("/");
    }
    key.append(name.as_str());
    key
}

} // verus!
