use vstd::prelude::*;

verus! {

/// An error code as the remote-filesystem session reports it.
#[derive(PartialEq, Eq, Structural, Clone, Copy, Debug)]
pub enum ErrorCode {
    Session(i32),
    Sftp(i32),
}

/// The file-transfer status that a directory creation fails with when the
/// directory is already there.
pub const ALREADY_EXISTS: i32 = 11;

pub open spec fn is_already_exists(c: ErrorCode) -> bool {
    c == ErrorCode::Sftp(ALREADY_EXISTS)
}

/// Whether `code` says that the directory was already there.
pub fn already_exists(code: ErrorCode) -> (r: bool)
    ensures
        r == is_already_exists(code),
{
    match code {
        ErrorCode::Session(_) => false,
        ErrorCode::Sftp(c) => c == ALREADY_EXISTS,
    }
}

/// What the remote side answered to the last request.
#[derive(PartialEq, Eq, Structural, Clone, Copy, Debug)]
pub enum DirEvent {
    /// The probed directory exists.
    Exists,
    /// The probed directory does not exist.
    Missing,
    /// The directory was created.
    Created,
    /// The creation failed with this code.
    CreateFailed(ErrorCode),
}

/// What to ask of the remote side next.
#[derive(Debug)]
pub enum DirAction {
    /// Ask whether this directory exists.
    Probe(String),
    /// Create this directory.
    Create(String),
    /// Every level exists.
    Done,
    /// A creation failed for another reason than the directory being there.
    Failed(ErrorCode),
}

/// The prefixes of `s` that end just before a `/` among its first `n`
/// characters (a `/` at the start opens no prefix).
pub open spec fn slash_prefixes(s: Seq<char>, n: nat) -> Seq<Seq<char>>
    decreases n,
{
    if n == 0 {
        Seq::empty()
    } else {
        let r = slash_prefixes(s, (n - 1) as nat);
        if s[n - 1] == '/' && n - 1 > 0 {
            r.push(s.subrange(0, n - 1))
        } else {
            r
        }
    }
}

/// The directories from the outermost one down to `s` itself.
pub open spec fn dir_levels(s: Seq<char>) -> Seq<Seq<char>> {
    if s.len() == 0 {
        Seq::empty()
    } else {
        slash_prefixes(s, s.len()).push(s)
    }
}

/// The state of the materializer: the level it works on, whether it waits
/// for a creation, and the code it failed with.
pub struct DirState {
    pub pos: nat,
    pub creating: bool,
    pub failed: Option<ErrorCode>,
}

/// One answer's effect on the state; `n` is the number of levels.
pub open spec fn next_state(s: DirState, n: nat, ev: DirEvent) -> DirState {
    if s.failed.is_some() || s.pos >= n {
        s
    } else {
        match ev {
            DirEvent::Exists => if s.creating { s } else { DirState { pos: s.pos + 1, ..s } },
            DirEvent::Missing => if s.creating { s } else { DirState { creating: true, ..s } },
            DirEvent::Created => if s.creating {
                DirState { pos: s.pos + 1, creating: false, ..s }
            } else {
                s
            },
            DirEvent::CreateFailed(c) => if !s.creating {
                s
            } else if is_already_exists(c) {
                DirState { pos: s.pos + 1, creating: false, ..s }
            } else {
                DirState { failed: Some(c), ..s }
            },
        }
    }
}

/// Makes sure that a remote directory exists, outermost level first, by
/// probing each level and creating the missing ones.
pub struct DirMaterializer {
    levels: Vec<String>,
    pos: usize,
    creating: bool,
    failed: Option<ErrorCode>,
}

impl DirMaterializer {
    pub closed spec fn levels(&self) -> Seq<Seq<char>> {
        self.levels@.map_values(|l: String| l@)
    }

    pub closed spec fn state(&self) -> DirState {
        DirState { pos: self.pos as nat, creating: self.creating, failed: self.failed }
    }

    pub closed spec fn wf(&self) -> bool {
        self.pos <= self.levels@.len()
    }

    /// A materializer for the directory `path`.
    pub fn new(path: &str) -> (r: DirMaterializer)
        ensures
            r.wf(),
            r.levels() == dir_levels(path@),
            r.state() == (DirState { pos: 0, creating: false, failed: None }),
    {
        let len = path.unicode_len();
        let mut levels: Vec<String> = Vec::new();
        let mut i: usize = 0;
        while i < len
            invariant
                len == path@.len(),
                i <= len,
                levels@.map_values(|l: String| l@) == slash_prefixes(path@, i as nat),
            decreases len - i,
        {
            if path.get_char(i) == '/' && i > 0 {
                let prefix = String::from_str(path.substring_char(0, i));
                let ghost before = levels@;
                levels.push(prefix);
                assert(levels@.map_values(|l: String| l@) =~= before.map_values(|l: String| l@).push(
                    prefix@,
                ));
            }
            i = i + 1;
        }
        if len > 0 {
            let whole = String::from_str(path.substring_char(0, len));
            assert(path@.subrange(0, len as int) =~= path@);
            let ghost before = levels@;
            levels.push(whole);
            assert(levels@.map_values(|l: String| l@) =~= before.map_values(|l: String| l@).push(
                whole@,
            ));
        } else {
            assert(levels@.map_values(|l: String| l@) =~= Seq::<Seq<char>>::empty());
        }
        DirMaterializer { levels, pos: 0, creating: false, failed: None }
    }

    /// The request to make in the current state.
    pub fn action(&self) -> (r: DirAction)
        requires
            self.wf(),
        ensures
            match r {
                DirAction::Failed(c) => self.state().failed == Some(c),
                DirAction::Done => self.state().failed.is_none() && self.state().pos
                    == self.levels().len(),
                DirAction::Probe(p) => self.state().failed.is_none() && self.state().pos
                    < self.levels().len() && !self.state().creating && p@ == self.levels()[self.state().pos as int],
                DirAction::Create(p) => self.state().failed.is_none() && self.state().pos
                    < self.levels().len() && self.state().creating && p@ == self.levels()[self.state().pos as int],
            },
    {
        match self.failed {
            Some(c) => DirAction::Failed(c),
            None => {
                if self.pos >= self.levels.len() {
                    DirAction::Done
                } else if self.creating {
                    DirAction::Create(self.levels[self.pos].clone())
                } else {
                    DirAction::Probe(self.levels[self.pos].clone())
                }
            },
        }
    }

    /// Takes in the answer to the last request.
    pub fn on_event(&mut self, ev: DirEvent)
        requires
            old(self).wf(),
        ensures
            final(self).wf(),
            final(self).levels() == old(self).levels(),
            final(self).state() == next_state(old(self).state(), old(self).levels().len(), ev),
    {
        if self.failed.is_some() || self.pos >= self.levels.len() {
            return;
        }
        match ev {
            DirEvent::Exists => {
                if !self.creating {
                    self.pos = self.pos + 1;
                }
            },
            DirEvent::Missing => {
                if !self.creating {
                    self.creating = true;
                }
            },
            DirEvent::Created => {
                if self.creating {
                    self.pos = self.pos + 1;
                    self.creating = false;
                }
            },
            DirEvent::CreateFailed(c) => {
                if self.creating {
                    if already_exists(c) {
                        self.pos = self.pos + 1;
                        self.creating = false;
                    } else {
                        self.failed = Some(c);
                    }
                }
            },
        }
    }
}

/// A directory that another actor created first is as good as one created
/// here: the "already exists" answer moves on exactly as a success does, and
/// only another creation failure ends in failure.
pub proof fn lemma_already_exists_is_success(s: DirState, n: nat, c: ErrorCode, ev: DirEvent)
    requires
        is_already_exists(c),
    ensures
        next_state(s, n, DirEvent::CreateFailed(c)) == next_state(s, n, DirEvent::Created),
        s.failed.is_none() && next_state(s, n, ev).failed.is_some() ==> (ev
            matches DirEvent::CreateFailed(d) && !is_already_exists(d)),
{
}

} // verus!
